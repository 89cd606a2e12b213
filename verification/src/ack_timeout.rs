//! Acknowledgement timeouts of queue pairs.
use std::time::Instant;

use vstd::prelude::*;

use crate::constants::{MAX_QP_CNT, QPN_KEY_PART_WIDTH};
use crate::qp_table::{spec_qpn_index, QpTable};

verus! {

/// Default number of retries after a timeout.
pub const DEFAULT_INIT_RETRY_COUNT: usize = 5;

/// Default exponent of the timeout check period.
pub const DEFAULT_TIMEOUT_CHECK_DURATION: u8 = 8;

/// Default exponent of the local acknowledgement timeout.
pub const DEFAULT_LOCAL_ACK_TIMEOUT: u8 = 4;

/// `std::time::Instant`, a point of the monotonic clock.
#[verifier::external_type_specification]
#[verifier::external_body]
pub struct ExInstant(Instant);

/// `Instant::now`: the current point of the monotonic clock.
///
/// Nothing is stated of the result: it depends on the time.
#[verifier::external_body]
fn instant_now() -> Instant {
    Instant::now()
}

/// `Instant::elapsed`, as nanoseconds: the time since `start`.
///
/// Nothing is stated of the result: it depends on the time.
#[verifier::external_body]
fn elapsed_nanos(start: &Instant) -> u128 {
    start.elapsed().as_nanos()
}

/// Timeout parameters, as exponents of 4.096 microseconds.
#[derive(Debug, Clone, Copy)]
pub struct AckTimeoutConfig {
    /// The timeout check period is 4.096 us * 2^check_duration_exp
    pub check_duration_exp: u8,
    /// The acknowledgement timeout is 4.096 us * 2^local_ack_timeout_exp
    pub local_ack_timeout_exp: u8,
    /// Number of retries after a timeout
    pub init_retry_count: usize,
}

impl Default for AckTimeoutConfig {
    fn default() -> (r: Self)
        ensures
            r.check_duration_exp == DEFAULT_TIMEOUT_CHECK_DURATION,
            r.local_ack_timeout_exp == DEFAULT_LOCAL_ACK_TIMEOUT,
            r.init_retry_count == DEFAULT_INIT_RETRY_COUNT,
    {
        Self {
            check_duration_exp: DEFAULT_TIMEOUT_CHECK_DURATION,
            local_ack_timeout_exp: DEFAULT_LOCAL_ACK_TIMEOUT,
            init_retry_count: DEFAULT_INIT_RETRY_COUNT,
        }
    }
}

impl AckTimeoutConfig {
    /// Creates a configuration.
    pub fn new(check_duration: u8, local_ack_timeout: u8, init_retry_count: usize) -> (r: Self)
        ensures
            r.check_duration_exp == check_duration,
            r.local_ack_timeout_exp == local_ack_timeout,
            r.init_retry_count == init_retry_count,
    {
        Self {
            check_duration_exp: check_duration,
            local_ack_timeout_exp: local_ack_timeout,
            init_retry_count,
        }
    }

    /// The timeout check period in nanoseconds.
    pub fn check_period_nanos(&self) -> (r: u64)
        requires
            self.check_duration_exp < 64,
        ensures
            r == 4096u64 << self.check_duration_exp,
    {
        4096u64 << self.check_duration_exp
    }
}

/// A timeout event of a queue pair.
#[derive(Clone, Copy, Debug)]
pub enum AckTimeoutTask {
    /// A new message with the AckReq bit set
    NewAckReq { qpn: u32 },
    /// A new meta is received
    RecvMeta { qpn: u32 },
    /// The previous message is successfully acknowledged
    Ack { qpn: u32 },
}

impl AckTimeoutTask {
    /// The queue pair of the event.
    pub open spec fn spec_qpn(self) -> u32 {
        match self {
            AckTimeoutTask::NewAckReq { qpn } => qpn,
            AckTimeoutTask::RecvMeta { qpn } => qpn,
            AckTimeoutTask::Ack { qpn } => qpn,
        }
    }

    /// A new message that requests an acknowledgement.
    pub fn new_ack_req(qpn: u32) -> (r: Self)
        ensures
            r == (AckTimeoutTask::NewAckReq { qpn }),
    {
        Self::NewAckReq { qpn }
    }

    /// A new meta was received.
    pub fn recv_meta(qpn: u32) -> (r: Self)
        ensures
            r == (AckTimeoutTask::RecvMeta { qpn }),
    {
        Self::RecvMeta { qpn }
    }

    /// The previous message was acknowledged.
    pub fn ack(qpn: u32) -> (r: Self)
        ensures
            r == (AckTimeoutTask::Ack { qpn }),
    {
        Self::Ack { qpn }
    }

    /// The queue pair of the event.
    pub fn qpn(self) -> (r: u32)
        ensures
            r == self.spec_qpn(),
    {
        match self {
            AckTimeoutTask::NewAckReq { qpn }
            | AckTimeoutTask::RecvMeta { qpn }
            | AckTimeoutTask::Ack { qpn } => qpn,
        }
    }
}

/// Outcome of a timeout check.
#[derive(Debug, Clone, Copy, PartialEq, Eq, Structural)]
pub enum TimerResult {
    /// No timeout
    InTime,
    /// The timer expired and was restarted
    Timeout,
    /// The timer expired with no retry left
    RetryLimitExceeded,
}

/// The retransmission timer of a queue pair.
#[derive(Debug, Clone, Copy)]
pub struct TransportTimer {
    timeout_interval: Option<u64>,
    last_start: Option<Instant>,
    init_retry_counter: usize,
    current_retry_counter: usize,
}

impl TransportTimer {
    /// Timeout in nanoseconds; `None` when timeouts are disabled.
    pub closed spec fn spec_timeout(&self) -> Option<u64> {
        self.timeout_interval
    }

    /// The timer runs.
    pub closed spec fn spec_running(&self) -> bool {
        self.last_start is Some
    }

    /// Retries granted after a restart.
    pub closed spec fn spec_init_retry(&self) -> usize {
        self.init_retry_counter
    }

    /// Retries left.
    pub closed spec fn spec_retry(&self) -> usize {
        self.current_retry_counter
    }

    /// Creates a stopped timer; a `local_ack_timeout` of 0 disables timeouts, any other value
    /// sets a timeout of 4.096 us * 2^local_ack_timeout.
    pub fn new(local_ack_timeout: u8, init_retry_counter: usize) -> (r: Self)
        requires
            local_ack_timeout < 64,
        ensures
            r.spec_timeout() == (if local_ack_timeout == 0 {
                None
            } else {
                Some(4096u64 << local_ack_timeout)
            }),
            !r.spec_running(),
            r.spec_init_retry() == init_retry_counter,
            r.spec_retry() == init_retry_counter,
    {
        let timeout_nanos = if local_ack_timeout == 0 {
            None
        } else {
            Some(4096u64 << local_ack_timeout)
        };
        Self {
            timeout_interval: timeout_nanos,
            last_start: None,
            init_retry_counter,
            current_retry_counter: init_retry_counter,
        }
    }

    /// Checks the timer, reading the clock.
    pub fn check_timeout(&mut self) -> (r: TimerResult)
        ensures
            final(self).spec_timeout() == old(self).spec_timeout(),
            final(self).spec_init_retry() == old(self).spec_init_retry(),
            (old(self).spec_timeout() is None || !old(self).spec_running()) ==> r
                == TimerResult::InTime && *final(self) == *old(self),
            r == TimerResult::RetryLimitExceeded ==> old(self).spec_retry() == 0 && *final(self)
                == *old(self),
            r == TimerResult::Timeout ==> final(self).spec_running() && final(self).spec_retry()
                == old(self).spec_init_retry() && old(self).spec_retry() > 0,
            r == TimerResult::InTime ==> *final(self) == *old(self),
    {
        match self.last_start {
            Some(start) => {
                let elapsed = elapsed_nanos(&start);
                self.check_timeout_elapsed(elapsed)
            },
            None => TimerResult::InTime,
        }
    }

    /// Checks the timer, `elapsed` nanoseconds after its last start.
    pub fn check_timeout_elapsed(&mut self, elapsed: u128) -> (r: TimerResult)
        ensures
            final(self).spec_timeout() == old(self).spec_timeout(),
            final(self).spec_init_retry() == old(self).spec_init_retry(),
            r == (match old(self).spec_timeout() {
                None => TimerResult::InTime,
                Some(t) => if !old(self).spec_running() || elapsed < t {
                    TimerResult::InTime
                } else if old(self).spec_retry() == 0 {
                    TimerResult::RetryLimitExceeded
                } else {
                    TimerResult::Timeout
                },
            }),
            r == TimerResult::Timeout ==> final(self).spec_running() && final(self).spec_retry()
                == old(self).spec_init_retry(),
            r != TimerResult::Timeout ==> *final(self) == *old(self),
    {
        let timeout_interval = match self.timeout_interval {
            Some(t) => t,
            None => return TimerResult::InTime,
        };
        if self.last_start.is_none() {
            return TimerResult::InTime;
        }
        if elapsed < timeout_interval as u128 {
            return TimerResult::InTime;
        }
        if self.current_retry_counter == 0 {
            return TimerResult::RetryLimitExceeded;
        }
        self.current_retry_counter = self.current_retry_counter - 1;
        self.restart();
        TimerResult::Timeout
    }

    /// Whether the timer runs.
    pub fn is_running(&self) -> (r: bool)
        ensures
            r == self.spec_running(),
    {
        self.last_start.is_some()
    }

    /// Stops the timer.
    pub fn stop(&mut self)
        ensures
            !final(self).spec_running(),
            final(self).spec_timeout() == old(self).spec_timeout(),
            final(self).spec_init_retry() == old(self).spec_init_retry(),
            final(self).spec_retry() == old(self).spec_retry(),
    {
        self.last_start = None;
    }

    /// Restarts the timer from now with all retries granted again.
    pub fn restart(&mut self)
        ensures
            final(self).spec_running(),
            final(self).spec_timeout() == old(self).spec_timeout(),
            final(self).spec_init_retry() == old(self).spec_init_retry(),
            final(self).spec_retry() == old(self).spec_init_retry(),
    {
        self.current_retry_counter = self.init_retry_counter;
        self.last_start = Some(instant_now());
    }
}

/// `after` is the timer `before` once its timeout fired and it was restarted: `before` ran
/// with a timeout and a retry left, and `after` runs again with all its retries granted.
pub open spec fn restarted_by_timeout(before: TransportTimer, after: TransportTimer) -> bool {
    &&& before.spec_timeout() is Some
    &&& before.spec_running()
    &&& before.spec_retry() > 0
    &&& after.spec_running()
    &&& after.spec_retry() == before.spec_init_retry()
    &&& after.spec_timeout() == before.spec_timeout()
    &&& after.spec_init_retry() == before.spec_init_retry()
}

/// Tracks acknowledgement timeouts of all queue pairs.
pub struct QpAckTimeoutWorker {
    timer_table: QpTable<TransportTimer>,
    outstanding_ack_req_cnt: QpTable<usize>,
    config: AckTimeoutConfig,
}

impl QpAckTimeoutWorker {
    /// The timers, by queue pair index.
    pub closed spec fn timers(&self) -> Seq<TransportTimer> {
        self.timer_table@
    }

    /// Outstanding acknowledgement requests, by queue pair index.
    pub closed spec fn outstanding(&self) -> Seq<usize> {
        self.outstanding_ack_req_cnt@
    }

    /// The configuration.
    pub closed spec fn spec_config(&self) -> AckTimeoutConfig {
        self.config
    }

    /// Both tables hold one entry per queue pair index.
    pub open spec fn wf(&self) -> bool {
        &&& self.timers().len() == MAX_QP_CNT
        &&& self.outstanding().len() == MAX_QP_CNT
    }

    /// No running timer that can expire is out of retries.
    pub open spec fn retries_left(&self) -> bool {
        forall|i: int|
            0 <= i < self.timers().len() ==> {
                let t = #[trigger] self.timers()[i];
                t.spec_timeout() is Some && t.spec_running() ==> t.spec_retry() > 0
            }
    }

    /// Creates the worker: stopped timers and no outstanding requests for every queue pair.
    pub fn new(config: AckTimeoutConfig) -> (r: Self)
        requires
            config.local_ack_timeout_exp < 64,
        ensures
            r.wf(),
            r.spec_config() == config,
            forall|i: int| 0 <= i < MAX_QP_CNT ==> #[trigger] r.outstanding()[i] == 0,
            forall|i: int|
                0 <= i < MAX_QP_CNT ==> {
                    let t = #[trigger] r.timers()[i];
                    &&& !t.spec_running()
                    &&& t.spec_timeout() == (if config.local_ack_timeout_exp == 0 {
                        None
                    } else {
                        Some(4096u64 << config.local_ack_timeout_exp)
                    })
                    &&& t.spec_retry() == config.init_retry_count
                    &&& t.spec_init_retry() == config.init_retry_count
                },
    {
        let timer = TransportTimer::new(config.local_ack_timeout_exp, config.init_retry_count);
        let timer_table = QpTable::new_filled(timer);
        Self { timer_table, config, outstanding_ack_req_cnt: QpTable::new_filled(0usize) }
    }

    /// Applies a timeout event.
    ///
    /// A new acknowledgement request counts one more outstanding request and restarts the
    /// timer; a received meta restarts the timer; an acknowledgement counts one less and
    /// stops the timer when none is left. Events of unknown queue pairs are ignored.
    pub fn process(&mut self, task: AckTimeoutTask)
        requires
            old(self).wf(),
            ({
                let idx = spec_qpn_index(task.spec_qpn());
                idx < MAX_QP_CNT ==> match task {
                    AckTimeoutTask::NewAckReq { .. } => old(self).outstanding()[idx] < usize::MAX,
                    AckTimeoutTask::Ack { .. } => old(self).outstanding()[idx] > 0,
                    AckTimeoutTask::RecvMeta { .. } => true,
                }
            }),
        ensures
            final(self).wf(),
            final(self).spec_config() == old(self).spec_config(),
            ({
                let idx = spec_qpn_index(task.spec_qpn());
                let t0 = old(self).timers()[idx];
                let t1 = final(self).timers()[idx];
                let c0 = old(self).outstanding()[idx];
                let c1 = final(self).outstanding()[idx];
                &&& idx >= MAX_QP_CNT ==> final(self).timers() == old(self).timers()
                    && final(self).outstanding() == old(self).outstanding()
                &&& idx < MAX_QP_CNT ==> {
                    &&& forall|j: int|
                        0 <= j < MAX_QP_CNT && j != idx ==> final(self).timers()[j] == old(
                            self,
                        ).timers()[j] && final(self).outstanding()[j] == old(self).outstanding()[j]
                    &&& t1.spec_timeout() == t0.spec_timeout()
                    &&& t1.spec_init_retry() == t0.spec_init_retry()
                    &&& match task {
                        AckTimeoutTask::NewAckReq { .. } => {
                            &&& c1 == c0 + 1
                            &&& t1.spec_running()
                            &&& t1.spec_retry() == t0.spec_init_retry()
                        },
                        AckTimeoutTask::RecvMeta { .. } => {
                            &&& c1 == c0
                            &&& t1.spec_running()
                            &&& t1.spec_retry() == t0.spec_init_retry()
                        },
                        AckTimeoutTask::Ack { .. } => {
                            &&& c1 == c0 - 1
                            &&& c1 == 0 ==> !t1.spec_running() && t1.spec_retry() == t0.spec_retry()
                            &&& c1 != 0 ==> t1 == t0
                        },
                    }
                }
            }),
    {
        let qpn = task.qpn();
        let idx = crate::qp_table::qpn_index(qpn);
        if idx >= self.timer_table.len() {
            return;
        }
        match task {
            AckTimeoutTask::NewAckReq { .. } => {
                let c = *self.outstanding_ack_req_cnt.get_index(idx);
                self.outstanding_ack_req_cnt.set_index(idx, c + 1);
                let mut t = *self.timer_table.get_index(idx);
                t.restart();
                self.timer_table.set_index(idx, t);
            },
            AckTimeoutTask::RecvMeta { .. } => {
                let mut t = *self.timer_table.get_index(idx);
                t.restart();
                self.timer_table.set_index(idx, t);
            },
            AckTimeoutTask::Ack { .. } => {
                let c = *self.outstanding_ack_req_cnt.get_index(idx) - 1;
                self.outstanding_ack_req_cnt.set_index(idx, c);
                if c == 0 {
                    let mut t = *self.timer_table.get_index(idx);
                    t.stop();
                    self.timer_table.set_index(idx, t);
                }
            },
        }
    }

    /// Checks every timer; returns the queue pair numbers, in index order, whose timer
    /// expired and must have all their packets retransmitted.
    pub fn maintainance(&mut self) -> (r: Vec<u32>)
        requires
            old(self).wf(),
            old(self).retries_left(),
        ensures
            final(self).wf(),
            final(self).spec_config() == old(self).spec_config(),
            final(self).outstanding() == old(self).outstanding(),
            forall|i: int|
                #![trigger final(self).timers()[i]]
                0 <= i < MAX_QP_CNT ==> {
                    &&& final(self).timers()[i].spec_timeout() == old(self).timers()[i].spec_timeout()
                    &&& final(self).timers()[i].spec_init_retry() == old(
                        self,
                    ).timers()[i].spec_init_retry()
                },
            forall|k: int|
                0 <= k < r.len() ==> spec_qpn_index(#[trigger] r[k]) < MAX_QP_CNT
                    && r[k] % 256 == 0,
            forall|k: int, l: int| 0 <= k < l < r.len() ==> #[trigger] r[k] < #[trigger] r[l],
            forall|i: int|
                #![trigger final(self).timers()[i]]
                0 <= i < MAX_QP_CNT ==> {
                    &&& r@.contains((i * 256) as u32) ==> restarted_by_timeout(
                        old(self).timers()[i],
                        final(self).timers()[i],
                    )
                    &&& !r@.contains((i * 256) as u32) ==> final(self).timers()[i] == old(
                        self,
                    ).timers()[i]
                },
    {
        let mut out: Vec<u32> = Vec::new();
        let mut index: usize = 0;
        while index < self.timer_table.len()
            invariant
                self.wf(),
                index <= MAX_QP_CNT,
                self.spec_config() == old(self).spec_config(),
                self.outstanding() == old(self).outstanding(),
                forall|i: int|
                    index <= i < MAX_QP_CNT ==> self.timers()[i] == old(self).timers()[i],
                forall|i: int|
                    0 <= i < MAX_QP_CNT ==> {
                        &&& #[trigger] self.timers()[i].spec_timeout() == old(
                            self,
                        ).timers()[i].spec_timeout()
                        &&& self.timers()[i].spec_init_retry() == old(
                            self,
                        ).timers()[i].spec_init_retry()
                    },
                old(self).retries_left(),
                old(self).wf(),
                forall|k: int|
                    0 <= k < out.len() ==> spec_qpn_index(#[trigger] out[k]) < index && out[k]
                        % 256 == 0 && out[k] < index * 256,
                forall|k: int, l: int| 0 <= k < l < out.len() ==> #[trigger] out[k] < #[trigger] out[l],
                forall|i: int|
                    #![trigger self.timers()[i]]
                    0 <= i < index ==> {
                        &&& out@.contains((i * 256) as u32) ==> restarted_by_timeout(
                            old(self).timers()[i],
                            self.timers()[i],
                        )
                        &&& !out@.contains((i * 256) as u32) ==> self.timers()[i] == old(
                            self,
                        ).timers()[i]
                    },
            decreases MAX_QP_CNT - index,
        {
            let ghost out_before = out@;
            let ghost timers_before = self.timers();
            let mut t = *self.timer_table.get_index(index);
            proof {
                assert(t == old(self).timers()[index as int]);
                let ti = old(self).timers()[index as int];
                assert(ti.spec_timeout() is Some && ti.spec_running() ==> ti.spec_retry() > 0);
            }
            let res = t.check_timeout();
            match res {
                TimerResult::InTime => {},
                TimerResult::Timeout => {
                    let qpn = (index as u32) << QPN_KEY_PART_WIDTH;
                    proof {
                        let x = index as u32;
                        assert(x < 1024);
                        assert(((x << 8u32) >> 8u32) == x && (x << 8u32) % 256 == 0 && (x << 8u32)
                            == x * 256) by (bit_vector)
                            requires
                                x < 1024,
                        ;
                    }
                    out.push(qpn);
                },
                TimerResult::RetryLimitExceeded => {
                    proof {
                        assert(false);
                    }
                },
            }
            self.timer_table.set_index(index, t);
            proof {
                let n = index as int;
                assert forall|i: int| 0 <= i < n + 1 implies {
                    &&& out@.contains((i * 256) as u32) ==> restarted_by_timeout(
                        old(self).timers()[i],
                        #[trigger] self.timers()[i],
                    )
                    &&& !out@.contains((i * 256) as u32) ==> self.timers()[i] == old(
                        self,
                    ).timers()[i]
                } by {
                    let q = (i * 256) as u32;
                    if i < n {
                        assert(self.timers()[i] == timers_before[i]);
                        assert(out@.contains(q) <==> out_before.contains(q)) by {
                            if out@.contains(q) {
                                let k = choose|k: int| 0 <= k < out@.len() && out@[k] == q;
                                if k >= out_before.len() {
                                    assert(out@[k] == (n * 256) as u32);
                                    assert(false);
                                }
                                assert(out_before[k] == q);
                            }
                            if out_before.contains(q) {
                                let k = choose|k: int|
                                    0 <= k < out_before.len() && out_before[k] == q;
                                assert(out@[k] == q);
                            }
                        }
                    } else {
                        if out@.contains(q) && res != TimerResult::Timeout {
                            let k = choose|k: int| 0 <= k < out@.len() && out@[k] == q;
                            assert(out@[k] < n * 256);
                        }
                        if res == TimerResult::Timeout {
                            assert(out@[out@.len() - 1] == q);
                        }
                    }
                }
            }
            index = index + 1;
        }
        out
    }
}

} // verus!
