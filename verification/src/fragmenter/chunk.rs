//! Splitting a work request into chunks, each of which the device sends as one or more
//! packets.
use vstd::prelude::*;

use super::{
    div_ceil_spec, lemma_align_down_bounds, lemma_fragment_positions, Fragment, Fragmenter,
    IntoIter,
};
use crate::constants::PSN_MASK;
use crate::device_protocol::{
    with_chunk_meta, QpParams, WithIbvParams, WrChunk, WrChunkBuilder,
};
use crate::qp::{convert_ibv_mtu_to_u16, spec_mtu_bytes};
use crate::send::SendWrRdma;

verus! {

/// Maximum size of a chunk.
pub const WR_CHUNK_SIZE: u32 = 0x10000;

/// The chunk every fragment of `wr` starts from. Setting the queue pair parameters starts
/// the chunk over, so its operation is an RDMA write whatever `wr` asks for.
pub open spec fn chunk_base(wr: SendWrRdma, qp_param: QpParams) -> WrChunk {
    WrChunk {
        qp_type: qp_param.qp_type,
        sqpn: qp_param.sqpn,
        mac_addr: qp_param.mac_addr,
        dqpn: qp_param.dqpn,
        dqp_ip: qp_param.dqp_ip,
        pmtu: qp_param.pmtu,
        msn: qp_param.msn,
        flags: wr.send_flags as u8,
        rkey: wr.rkey,
        total_len: wr.length,
        lkey: wr.lkey,
        imm: wr.imm,
        ..WrChunk::spec_default()
    }
}

/// The chunk a fragment becomes, starting at packet sequence number `psn` and local
/// address `laddr`.
pub open spec fn chunk_of(base: WrChunk, psn: u32, laddr: u64, f: Fragment, is_retry: bool) -> WrChunk {
    let c = with_chunk_meta(base, psn, laddr, f.addr, f.len as u32, f.pos);
    if is_retry {
        WrChunk { is_retry: true, ..c }
    } else {
        c
    }
}

/// Of the chunks of a work request that is not empty, exactly the first starts the message
/// and exactly the last ends it; a work request of one chunk gives a chunk that does both.
pub proof fn lemma_chunk_first_last(frag: ChunkFragmenter, psn: u32, laddr: u64)
    requires
        frag.wr.length > 0,
        split_ok(frag.wr, frag.qp_param, frag.base_psn, frag.chunk_size),
    ensures
        ({
            let fs = frag.fragments();
            let b = chunk_base(frag.wr, frag.qp_param);
            &&& fs.len() >= 1
            &&& forall|k: int|
                0 <= k < fs.len() ==> {
                    &&& (#[trigger] chunk_of(b, psn, laddr, fs[k], frag.is_retry)).is_last
                        <==> k == fs.len() - 1
                    &&& chunk_of(b, psn, laddr, fs[k], frag.is_retry).is_first <==> k == 0
                }
        }),
{
    let f = Fragmenter {
        segment_size: frag.chunk_size,
        align: spec_mtu_bytes(frag.qp_param.pmtu) as u64,
        base_addr: frag.wr.raddr,
        end_addr: (frag.wr.raddr + frag.wr.length) as u64,
    };
    let first_aligned = super::align_down((f.base_addr + f.segment_size) as u64, f.align);
    let remaining: int = if f.end_addr >= first_aligned {
        f.end_addr - first_aligned
    } else {
        0
    };
    assert(f.segment_size > 0);
    vstd::arithmetic::div_mod::lemma_div_pos_is_pos(remaining, f.segment_size as int);
    assert(f.spec_num_segments() >= 1);
    lemma_fragment_positions(f);
}

/// Builds the chunk start of a work request.
fn base_builder(wr: &SendWrRdma, qp_param: QpParams) -> (r: WrChunkBuilder<WithIbvParams>)
    ensures
        r.inner == chunk_base(*wr, qp_param),
{
    WrChunkBuilder::new_with_opcode(wr.opcode()).set_qp_params(qp_param).set_ibv_params(
        wr.send_flags() as u8,
        wr.rkey(),
        wr.length(),
        wr.lkey(),
        wr.imm(),
    )
}

/// A range no longer than `u32::MAX` split into segments of at least 256 bytes has few
/// segments.
pub proof fn lemma_num_segments_small(f: Fragmenter)
    requires
        f.base_addr < f.end_addr ==> f.params_ok(),
        f.end_addr - f.base_addr <= u32::MAX,
        f.segment_size >= 256,
    ensures
        f.spec_num_segments() <= 0x100_0002,
{
    if f.base_addr < f.end_addr {
        let fa = super::align_down((f.base_addr + f.segment_size) as u64, f.align);
        lemma_align_down_bounds((f.base_addr + f.segment_size) as u64, f.align);
        let rem: int = if f.end_addr >= fa {
            f.end_addr - fa
        } else {
            0
        };
        let s = f.segment_size as int;
        assert(0 <= rem <= u32::MAX);
        assert(div_ceil_spec(rem, s) <= 0x100_0001) by (nonlinear_arith)
            requires
                0 <= rem <= u32::MAX,
                s >= 256,
        {
            assert(rem / s <= rem / 256);
        }
    }
}

/// Splits a work request into chunks of `chunk_size` bytes, cut at path MTU boundaries.
#[derive(Debug)]
pub struct ChunkFragmenter {
    /// The work request
    pub wr: SendWrRdma,
    /// Parameters of its queue pair
    pub qp_param: QpParams,
    /// Packet sequence number of the first packet
    pub base_psn: u32,
    /// Maximum size of a chunk
    pub chunk_size: u64,
    /// The chunks are retransmissions
    pub is_retry: bool,
}

/// The bounds under which a work request can be split without overflow.
pub open spec fn split_ok(wr: SendWrRdma, qp_param: QpParams, base_psn: u32, chunk_size: u64) -> bool {
    &&& 1 <= qp_param.pmtu <= 5
    &&& spec_mtu_bytes(qp_param.pmtu) <= chunk_size <= WR_CHUNK_SIZE
    &&& wr.raddr + wr.length + chunk_size <= u64::MAX
    &&& wr.laddr + wr.length <= u64::MAX
    &&& base_psn + chunk_size <= u32::MAX
}

impl ChunkFragmenter {
    /// Gathers what a split needs.
    pub fn new(
        wr: SendWrRdma,
        qp_param: QpParams,
        base_psn: u32,
        chunk_size: u64,
        is_retry: bool,
    ) -> (r: Self)
        ensures
            r == (ChunkFragmenter { wr, qp_param, base_psn, chunk_size, is_retry }),
    {
        Self { wr, qp_param, base_psn, chunk_size, is_retry }
    }

    /// The fragments of the remote range, one per chunk.
    pub open spec fn fragments(self) -> Seq<Fragment> {
        Fragmenter {
            segment_size: self.chunk_size,
            align: spec_mtu_bytes(self.qp_param.pmtu) as u64,
            base_addr: self.wr.raddr,
            end_addr: (self.wr.raddr + self.wr.length) as u64,
        }.fragments()
    }

    /// Starts iterating over the chunks.
    pub fn into_iter(self) -> (it: ChunkIter)
        requires
            split_ok(self.wr, self.qp_param, self.base_psn, self.chunk_size),
        ensures
            it.wf(),
            it.remaining() == self.fragments(),
            it.base() == chunk_base(self.wr, self.qp_param),
            it.psn() == self.base_psn,
            it.laddr() == self.wr.laddr,
            it.pmtu() == spec_mtu_bytes(self.qp_param.pmtu),
            it.is_retry() == self.is_retry,
    {
        let builder = base_builder(&self.wr, self.qp_param);
        let pmtu: u64 = match convert_ibv_mtu_to_u16(self.qp_param.pmtu) {
            Some(m) => m as u64,
            None => vstd::pervasive::unreached(),
        };
        let f = Fragmenter::new(self.chunk_size, pmtu, self.wr.raddr(), self.wr.length() as u64);
        proof {
            lemma_num_segments_small(f);
        }
        ChunkIter {
            inner: f.into_iter(),
            psn: self.base_psn,
            base: builder.inner,
            laddr: self.wr.laddr(),
            pmtu,
            is_retry: self.is_retry,
        }
    }
}

/// Iterator over the chunks of a work request.
pub struct ChunkIter {
    inner: IntoIter,
    psn: u32,
    base: WrChunk,
    laddr: u64,
    pmtu: u64,
    is_retry: bool,
}

impl ChunkIter {
    /// Every remaining step stays within bounds.
    pub closed spec fn wf(&self) -> bool {
        &&& self.inner.wf()
        &&& 1 <= self.pmtu
        &&& self.inner.spec_seg() <= WR_CHUNK_SIZE
        &&& self.psn + self.inner.spec_seg() <= u32::MAX
        &&& self.inner.spec_current() <= self.inner.spec_end()
        &&& self.laddr + (self.inner.spec_end() - self.inner.spec_current()) <= u64::MAX
    }

    /// The fragments whose chunks are still to come.
    pub closed spec fn remaining(&self) -> Seq<Fragment> {
        self.inner.remaining()
    }

    /// The chunk every fragment starts from.
    pub closed spec fn base(&self) -> WrChunk {
        self.base
    }

    /// Packet sequence number of the next chunk.
    pub closed spec fn psn(&self) -> u32 {
        self.psn
    }

    /// Local address of the next chunk.
    pub closed spec fn laddr(&self) -> u64 {
        self.laddr
    }

    /// Path MTU in bytes.
    pub closed spec fn pmtu(&self) -> u64 {
        self.pmtu
    }

    /// The chunks are retransmissions.
    pub closed spec fn is_retry(&self) -> bool {
        self.is_retry
    }

    /// Yields the next chunk. The chunk after it starts as many packets later as the chunk
    /// needs, its packet sequence number wrapping at `PSN_MASK`, and as many bytes later
    /// locally as the chunk is long.
    pub fn next(&mut self) -> (r: Option<WrChunk>)
        requires
            old(self).wf(),
        ensures
            final(self).wf(),
            final(self).base() == old(self).base(),
            final(self).pmtu() == old(self).pmtu(),
            final(self).is_retry() == old(self).is_retry(),
            old(self).remaining().len() == 0 ==> r is None,
            old(self).remaining().len() > 0 ==> {
                let f = old(self).remaining()[0];
                &&& r == Some(
                    chunk_of(old(self).base(), old(self).psn(), old(self).laddr(), f, old(self).is_retry()),
                )
                &&& final(self).remaining() == old(self).remaining().drop_first()
                &&& final(self).psn() == (old(self).psn() + div_ceil_spec(
                    f.len as int,
                    old(self).pmtu() as int,
                )) % (PSN_MASK as int)
                &&& final(self).laddr() == old(self).laddr() + f.len
            },
    {
        let f = match self.inner.next() {
            Some(f) => f,
            None => return None,
        };
        let builder = WrChunkBuilder::<WithIbvParams> {
            inner: self.base,
            state: core::marker::PhantomData,
        };
        let builder = builder.set_chunk_meta(self.psn, self.laddr, f.addr(), f.len() as u32, f.pos);
        let chunk = if self.is_retry {
            builder.set_is_retry().build()
        } else {
            builder.build()
        };
        let q = f.len() / self.pmtu;
        let num_packets: u64 = if f.len() % self.pmtu != 0 {
            q + 1
        } else {
            q
        };
        proof {
            assert(q <= f.len) by (nonlinear_arith)
                requires
                    q == f.len / self.pmtu,
                    self.pmtu >= 1,
            {
            }
            assert(f.len % self.pmtu != 0 ==> q < f.len) by (nonlinear_arith)
                requires
                    q == f.len / self.pmtu,
                    self.pmtu >= 1,
            {
            }
        }
        self.psn = (self.psn + num_packets as u32) % PSN_MASK;
        self.laddr = self.laddr + f.len();
        Some(chunk)
    }
}

/// Splits a work request into chunks of at most `WR_CHUNK_SIZE` bytes.
#[derive(Debug)]
pub struct WrChunkFragmenter {
    /// The underlying split
    pub inner: ChunkFragmenter,
}

impl WrChunkFragmenter {
    /// Splits `wr` into chunks of at most `WR_CHUNK_SIZE` bytes, first packet at `base_psn`.
    pub fn new(wr: SendWrRdma, qp_param: QpParams, base_psn: u32) -> (r: Self)
        ensures
            r.inner == (ChunkFragmenter {
                wr,
                qp_param,
                base_psn,
                chunk_size: WR_CHUNK_SIZE as u64,
                is_retry: false,
            }),
    {
        Self { inner: ChunkFragmenter::new(wr, qp_param, base_psn, WR_CHUNK_SIZE as u64, false) }
    }

    /// Starts iterating over the chunks.
    pub fn into_iter(self) -> (it: ChunkIter)
        requires
            split_ok(self.inner.wr, self.inner.qp_param, self.inner.base_psn, self.inner.chunk_size),
        ensures
            it.wf(),
            it.remaining() == self.inner.fragments(),
            it.base() == chunk_base(self.inner.wr, self.inner.qp_param),
            it.psn() == self.inner.base_psn,
            it.laddr() == self.inner.wr.laddr,
            it.pmtu() == spec_mtu_bytes(self.inner.qp_param.pmtu),
            it.is_retry() == self.inner.is_retry,
    {
        self.inner.into_iter()
    }
}

/// Splits a work request into chunks of one path MTU each, marked as retransmissions.
#[derive(Debug)]
pub struct WrPacketFragmenter {
    /// The underlying split
    pub inner: ChunkFragmenter,
}

impl WrPacketFragmenter {
    /// Splits `wr` into one-packet chunks, first packet at `base_psn`. The path MTU of
    /// `qp_param` must be a valid `ibv_mtu` value.
    pub fn new(wr: SendWrRdma, qp_param: QpParams, base_psn: u32) -> (r: Self)
        requires
            1 <= qp_param.pmtu <= 5,
        ensures
            r.inner == (ChunkFragmenter {
                wr,
                qp_param,
                base_psn,
                chunk_size: spec_mtu_bytes(qp_param.pmtu) as u64,
                is_retry: true,
            }),
    {
        let pmtu: u64 = match convert_ibv_mtu_to_u16(qp_param.pmtu) {
            Some(m) => m as u64,
            None => vstd::pervasive::unreached(),
        };
        Self { inner: ChunkFragmenter::new(wr, qp_param, base_psn, pmtu, true) }
    }

    /// Starts iterating over the chunks.
    pub fn into_iter(self) -> (it: ChunkIter)
        requires
            split_ok(self.inner.wr, self.inner.qp_param, self.inner.base_psn, self.inner.chunk_size),
        ensures
            it.wf(),
            it.remaining() == self.inner.fragments(),
            it.base() == chunk_base(self.inner.wr, self.inner.qp_param),
            it.psn() == self.inner.base_psn,
            it.laddr() == self.inner.wr.laddr,
            it.pmtu() == spec_mtu_bytes(self.inner.qp_param.pmtu),
            it.is_retry() == self.inner.is_retry,
    {
        self.inner.into_iter()
    }
}

} // verus!
