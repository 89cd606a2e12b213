//! Decisions of the device context: register layouts, memory region registration, and the
//! queue pair entries the device is told about.
use vstd::prelude::*;

use crate::cmd::{MttUpdate, PgtUpdate};
use crate::constants::CARD_MAC_ADDRESS;
use crate::device_protocol::UpdateQp;
use crate::qp::QpAttr;

verus! {

/// Path MTU of 4096 bytes, as an `ibv_mtu` value.
pub const IBV_MTU_4096: u8 = 5;

/// UDP port that queue pairs use locally.
pub const LOCAL_UDP_PORT: u16 = 0x100;

/// Maximum number of page table entries copied to the device by one command: a `PCIe`
/// transaction of 128 bytes holds 16 entries of 8 bytes.
pub const MAX_NUM_PGT_ENTRY_PER_ALLOC: u32 = 16;

/// The low and high 32 bits of a ring buffer's base address, as its two registers hold them.
pub fn split_base_addr(phys_addr: u64) -> (r: (u32, u32))
    ensures
        r.0 == phys_addr % 0x1_0000_0000,
        r.1 == phys_addr / 0x1_0000_0000,
{
    let lo = phys_addr & 0xFFFF_FFFF;
    let hi = phys_addr >> 32u64;
    assert(lo == phys_addr % 0x1_0000_0000 && hi == phys_addr / 0x1_0000_0000) by (bit_vector)
        requires
            lo == phys_addr & 0xFFFF_FFFF,
            hi == phys_addr >> 32u64,
    ;
    (lo as u32, hi as u32)
}

/// The base address held by the low and high registers.
pub fn join_base_addr(lo: u32, hi: u32) -> (r: u64)
    ensures
        r == lo + hi * 0x1_0000_0000,
{
    let h = (hi as u64) << 32u64;
    assert(h == hi * 0x1_0000_0000) by (bit_vector)
        requires
            h == (hi as u64) << 32u64,
    ;
    lo as u64 + h
}

/// Splitting a base address into its registers and joining them gives it back.
pub proof fn lemma_base_addr_round_trip(phys_addr: u64)
    ensures
        (phys_addr % 0x1_0000_0000) + (phys_addr / 0x1_0000_0000) * 0x1_0000_0000 == phys_addr,
{
}

/// A register access sent to the emulated device.
#[derive(Debug, Clone, Copy, PartialEq, Eq, Structural)]
pub struct CsrAccessRpcMessage {
    /// The access writes, else it reads
    pub is_write: bool,
    /// Address of the register
    pub addr: usize,
    /// Value written, or read back in the response
    pub value: u32,
}

impl CsrAccessRpcMessage {
    /// The request that reads register `addr`.
    pub fn read_request(addr: usize) -> (r: Self)
        ensures
            r == (CsrAccessRpcMessage { is_write: false, addr, value: 0 }),
    {
        CsrAccessRpcMessage { is_write: false, addr, value: 0 }
    }

    /// The request that writes `value` to register `addr`.
    pub fn write_request(addr: usize, value: u32) -> (r: Self)
        ensures
            r == (CsrAccessRpcMessage { is_write: true, addr, value }),
    {
        CsrAccessRpcMessage { is_write: true, addr, value }
    }

    /// The value a response carries.
    pub fn value(&self) -> (r: u32)
        ensures
            r == self.value,
    {
        self.value
    }
}

/// The registers after the writes among `accesses`, applied in order; reads change nothing.
pub open spec fn apply_writes(regs: Map<usize, u32>, accesses: Seq<CsrAccessRpcMessage>) -> Map<
    usize,
    u32,
>
    decreases accesses.len(),
{
    if accesses.len() == 0 {
        regs
    } else {
        let prev = apply_writes(regs, accesses.drop_last());
        let a = accesses.last();
        if a.is_write {
            prev.insert(a.addr, a.value)
        } else {
            prev
        }
    }
}

/// The register writes that set a ring buffer's base address to `phys_addr`, in order: the
/// low 32 bits to register `low`, then the high 32 bits to register `high`.
pub fn base_addr_writes(low: usize, high: usize, phys_addr: u64) -> (r: Vec<CsrAccessRpcMessage>)
    ensures
        r@ == seq![
            CsrAccessRpcMessage {
                is_write: true,
                addr: low,
                value: (phys_addr % 0x1_0000_0000) as u32,
            },
            CsrAccessRpcMessage {
                is_write: true,
                addr: high,
                value: (phys_addr / 0x1_0000_0000) as u32,
            },
        ],
{
    let (lo, hi) = split_base_addr(phys_addr);
    let mut r: Vec<CsrAccessRpcMessage> = Vec::new();
    r.push(CsrAccessRpcMessage::write_request(low, lo));
    r.push(CsrAccessRpcMessage::write_request(high, hi));
    r
}

/// Once the base address writes are applied to registers that keep what is written, the
/// low and high registers join to the address written.
pub proof fn lemma_base_addr_write_read(regs: Map<usize, u32>, low: usize, high: usize, phys_addr: u64)
    requires
        low != high,
    ensures
        ({
            let w = seq![
                CsrAccessRpcMessage {
                    is_write: true,
                    addr: low,
                    value: (phys_addr % 0x1_0000_0000) as u32,
                },
                CsrAccessRpcMessage {
                    is_write: true,
                    addr: high,
                    value: (phys_addr / 0x1_0000_0000) as u32,
                },
            ];
            let after = apply_writes(regs, w);
            &&& after.dom().contains(low)
            &&& after.dom().contains(high)
            &&& after[low] + after[high] * 0x1_0000_0000 == phys_addr
        }),
{
    let w = seq![
        CsrAccessRpcMessage {
            is_write: true,
            addr: low,
            value: (phys_addr % 0x1_0000_0000) as u32,
        },
        CsrAccessRpcMessage {
            is_write: true,
            addr: high,
            value: (phys_addr / 0x1_0000_0000) as u32,
        },
    ];
    assert(w.drop_last().drop_last() =~= Seq::<CsrAccessRpcMessage>::empty());
    assert(w.drop_last().last() == w[0]);
    reveal_with_fuel(apply_writes, 3);
}

/// A ring whose base address register pair the emulated device setup writes.
#[derive(Debug, Clone, Copy, PartialEq, Eq, Structural)]
pub enum QueueRing {
    /// Send queue `n`
    Send(u8),
    /// Meta report queue `n`
    MetaReport(u8),
}

/// The base addresses that the emulated device setup writes, in order: send queue `n` gets
/// `sq_pas[n]` for `n` below 4; meta report queue 0 gets `mrq_pas[0]`, and meta report
/// queues 1, 2 and 3 all get `mrq_pas[1]`.
pub open spec fn spec_queue_base_addrs(sq_pas: Seq<u64>, mrq_pas: Seq<u64>) -> Seq<(QueueRing, u64)> {
    seq![
        (QueueRing::Send(0), sq_pas[0]),
        (QueueRing::Send(1), sq_pas[1]),
        (QueueRing::Send(2), sq_pas[2]),
        (QueueRing::Send(3), sq_pas[3]),
        (QueueRing::MetaReport(0), mrq_pas[0]),
        (QueueRing::MetaReport(1), mrq_pas[1]),
        (QueueRing::MetaReport(2), mrq_pas[1]),
        (QueueRing::MetaReport(3), mrq_pas[1]),
    ]
}

/// The base address each send and meta report queue of the emulated device is given, in
/// the order they are written; `base_addr_writes` gives the register writes of each.
pub fn queue_base_addr_writes(sq_pas: &Vec<u64>, mrq_pas: &Vec<u64>) -> (r: Vec<(QueueRing, u64)>)
    requires
        sq_pas.len() >= 4,
        mrq_pas.len() >= 2,
    ensures
        r@ == spec_queue_base_addrs(sq_pas@, mrq_pas@),
{
    let mut r: Vec<(QueueRing, u64)> = Vec::new();
    r.push((QueueRing::Send(0), sq_pas[0]));
    r.push((QueueRing::Send(1), sq_pas[1]));
    r.push((QueueRing::Send(2), sq_pas[2]));
    r.push((QueueRing::Send(3), sq_pas[3]));
    r.push((QueueRing::MetaReport(0), mrq_pas[0]));
    r.push((QueueRing::MetaReport(1), mrq_pas[1]));
    r.push((QueueRing::MetaReport(2), mrq_pas[1]));
    r.push((QueueRing::MetaReport(3), mrq_pas[1]));
    proof {
        assert(r@ =~= spec_queue_base_addrs(sq_pas@, mrq_pas@));
    }
    r
}

/// A run of page table entries: `count` entries from `index` on.
#[derive(Debug, Clone, Copy, PartialEq, Eq, Structural)]
pub struct PgtEntry {
    /// Index of the first entry
    pub index: u32,
    /// Number of entries
    pub count: u32,
}

/// The runs of at most `MAX_NUM_PGT_ENTRY_PER_ALLOC` entries that cover `entry`, in order.
pub open spec fn spec_pgt_chunks(entry: PgtEntry) -> Seq<PgtEntry> {
    let n = (entry.count + MAX_NUM_PGT_ENTRY_PER_ALLOC - 1) / (MAX_NUM_PGT_ENTRY_PER_ALLOC as int);
    Seq::new(
        n as nat,
        |k: int|
            {
                let start = entry.index + MAX_NUM_PGT_ENTRY_PER_ALLOC * k;
                let left = entry.index + entry.count - start;
                PgtEntry {
                    index: start as u32,
                    count: (if left < MAX_NUM_PGT_ENTRY_PER_ALLOC {
                        left
                    } else {
                        MAX_NUM_PGT_ENTRY_PER_ALLOC as int
                    }) as u32,
                }
            },
    )
}

/// Splits a run of page table entries into runs of at most `MAX_NUM_PGT_ENTRY_PER_ALLOC`.
pub fn pgt_chunks(entry: PgtEntry) -> (r: Vec<PgtEntry>)
    requires
        entry.index + entry.count <= u32::MAX,
    ensures
        r@ == spec_pgt_chunks(entry),
{
    let end: u64 = entry.index as u64 + entry.count as u64;
    let mut out: Vec<PgtEntry> = Vec::new();
    let mut idx: u64 = entry.index as u64;
    let ghost n = (entry.count + MAX_NUM_PGT_ENTRY_PER_ALLOC - 1) / (MAX_NUM_PGT_ENTRY_PER_ALLOC as int);
    while idx < end
        invariant
            end == entry.index + entry.count,
            end <= u32::MAX,
            idx == entry.index + MAX_NUM_PGT_ENTRY_PER_ALLOC * out@.len(),
            idx <= end + MAX_NUM_PGT_ENTRY_PER_ALLOC,
            n == (entry.count + MAX_NUM_PGT_ENTRY_PER_ALLOC - 1) / (MAX_NUM_PGT_ENTRY_PER_ALLOC as int),
            out@.len() <= n,
            idx < end ==> out@.len() < n,
            idx >= end ==> out@.len() == n,
            out@ == spec_pgt_chunks(entry).take(out@.len() as int),
        decreases end + MAX_NUM_PGT_ENTRY_PER_ALLOC - idx,
    {
        let left = end - idx;
        let count = if left < MAX_NUM_PGT_ENTRY_PER_ALLOC as u64 {
            left
        } else {
            MAX_NUM_PGT_ENTRY_PER_ALLOC as u64
        };
        let ghost k = out@.len() as int;
        out.push(PgtEntry { index: idx as u32, count: count as u32 });
        idx = idx + MAX_NUM_PGT_ENTRY_PER_ALLOC as u64;
        proof {
            let c = entry.count as int;
            assert(16 * k < c);
            assert((16 * (k + 1) < c ==> k + 1 < n) && (16 * (k + 1) >= c ==> k + 1 == n))
                by (nonlinear_arith)
                requires
                    16 * k < c,
                    n == (c + 15) / 16,
                    k >= 0,
            {
            }
            assert(out@ =~= spec_pgt_chunks(entry).take(k + 1));
        }
    }
    proof {
        assert(out@ =~= spec_pgt_chunks(entry));
    }
    out
}


/// The runs of a page table entry run tile it: the first starts where it starts, each
/// starts where the previous one ends, the last ends where it ends, and every run holds
/// between one and `MAX_NUM_PGT_ENTRY_PER_ALLOC` entries.
pub proof fn lemma_pgt_chunks_tile(entry: PgtEntry)
    requires
        entry.index + entry.count <= u32::MAX,
        entry.count > 0,
    ensures
        ({
            let c = spec_pgt_chunks(entry);
            let n = c.len() as int;
            &&& n >= 1
            &&& c[0].index == entry.index
            &&& forall|k: int| 0 <= k < n - 1 ==> #[trigger] c[k].index + c[k].count == c[k + 1].index
            &&& c[n - 1].index + c[n - 1].count == entry.index + entry.count
            &&& forall|k: int| 0 <= k < n ==> 0 < #[trigger] c[k].count <= MAX_NUM_PGT_ENTRY_PER_ALLOC
        }),
{
    let c = spec_pgt_chunks(entry);
    let cnt = entry.count as int;
    let n = (cnt + 15) / 16;
    assert(n >= 1 && 16 * (n - 1) < cnt && cnt <= 16 * n) by (nonlinear_arith)
        requires
            n == (cnt + 15) / 16,
            cnt > 0,
    {
    }
    assert forall|k: int| 0 <= k < n - 1 implies #[trigger] c[k].index + c[k].count == c[k
        + 1].index by {
        assert(16 * k + 16 <= 16 * (n - 1));
    }
    assert forall|k: int| 0 <= k < n implies 0 < #[trigger] c[k].count
        <= MAX_NUM_PGT_ENTRY_PER_ALLOC by {
        assert(16 * k <= 16 * (n - 1));
    }
}

/// Why registering a memory region failed.
#[derive(Debug, Clone, Copy, PartialEq, Eq, Structural)]
pub enum RegMrError {
    /// The region is longer than the device can describe
    InvalidInput,
    /// A page of the region has no physical address
    NotFound,
}

/// What registering a memory region tells the device.
#[derive(Debug)]
pub struct RegMrPlan {
    /// The registration of the region
    pub mtt_update: MttUpdate,
    /// One copy of page table entries per run of entries
    pub pgt_updates: Vec<PgtUpdate>,
    /// The physical page addresses each copy carries
    pub pgt_entries: Vec<Vec<u64>>,
}

/// Every page has a physical address.
pub open spec fn all_some(v: Seq<Option<u64>>) -> bool {
    forall|i: int| 0 <= i < v.len() ==> #[trigger] v[i] is Some
}

/// The physical addresses, every page having one.
pub open spec fn unwrap_all(v: Seq<Option<u64>>) -> Seq<u64> {
    Seq::new(v.len(), |i: int| v[i]->Some_0)
}

/// The smaller of two integers.
pub open spec fn min_int(a: int, b: int) -> int {
    if a < b {
        a
    } else {
        b
    }
}

/// What registering the region at `addr` of `length` bytes tells the device, given the key
/// and the run of page table entries the translation table gave it, and the physical
/// address of each page.
///
/// The region must fit a 32-bit length, else `InvalidInput`; every page must have a
/// physical address, else `NotFound`. The entries go out in runs of at most
/// `MAX_NUM_PGT_ENTRY_PER_ALLOC`, all through the buffer at `buffer_phys_addr`; a run takes
/// the next addresses in order, as many as remain.
pub fn reg_mr_plan(
    addr: u64,
    length: usize,
    mr_key: u32,
    pd_handle: u32,
    access: u8,
    pgt_entry: PgtEntry,
    phys_addrs: &Vec<Option<u64>>,
    buffer_phys_addr: u64,
) -> (r: Result<RegMrPlan, RegMrError>)
    requires
        pgt_entry.index + pgt_entry.count <= u32::MAX,
    ensures
        length > u32::MAX ==> r == Err::<RegMrPlan, RegMrError>(RegMrError::InvalidInput),
        length <= u32::MAX && !all_some(phys_addrs@) ==> r == Err::<RegMrPlan, RegMrError>(
            RegMrError::NotFound,
        ),
        length <= u32::MAX && all_some(phys_addrs@) ==> (r matches Ok(p) && {
            let chunks = spec_pgt_chunks(pgt_entry);
            let pages = unwrap_all(phys_addrs@);
            &&& p.mtt_update == (MttUpdate {
                mr_base_va: addr,
                mr_length: length as u32,
                mr_key,
                pd_handler: pd_handle,
                acc_flags: access,
                base_pgt_offset: pgt_entry.index,
            })
            &&& p.pgt_updates@.len() == chunks.len()
            &&& p.pgt_entries@.len() == chunks.len()
            &&& forall|k: int|
                0 <= k < chunks.len() ==> #[trigger] p.pgt_updates@[k] == (PgtUpdate {
                    dma_addr: buffer_phys_addr,
                    pgt_offset: chunks[k].index,
                    zero_based_entry_count: (chunks[k].count - 1) as u32,
                })
            &&& forall|k: int|
                0 <= k < chunks.len() ==> #[trigger] p.pgt_entries@[k]@ == pages.subrange(
                    min_int(MAX_NUM_PGT_ENTRY_PER_ALLOC * k, pages.len() as int),
                    min_int(MAX_NUM_PGT_ENTRY_PER_ALLOC * k + chunks[k].count, pages.len() as int),
                )
        }),
{
    if length > u32::MAX as usize {
        return Err(RegMrError::InvalidInput);
    }
    let n = phys_addrs.len();
    let mut pages: Vec<u64> = Vec::new();
    let mut i: usize = 0;
    while i < n
        invariant
            length <= u32::MAX,
            n == phys_addrs@.len(),
            i <= n,
            pages@.len() == i,
            forall|j: int| 0 <= j < i ==> #[trigger] phys_addrs@[j] == Some(pages@[j]),
        decreases n - i,
    {
        match phys_addrs[i] {
            Some(p) => pages.push(p),
            None => {
                return Err(RegMrError::NotFound);
            },
        }
        i = i + 1;
    }
    proof {
        assert(pages@ =~= unwrap_all(phys_addrs@));
    }
    let mtt_update = MttUpdate::new(addr, length as u32, mr_key, pd_handle, access, pgt_entry.index);
    let chunks = pgt_chunks(pgt_entry);
    let mut pgt_updates: Vec<PgtUpdate> = Vec::new();
    let mut pgt_entries: Vec<Vec<u64>> = Vec::new();
    let mut pos: usize = 0;
    let mut k: usize = 0;
    while k < chunks.len()
        invariant
            chunks@ == spec_pgt_chunks(pgt_entry),
            pages@ == unwrap_all(phys_addrs@),
            pages@.len() == n,
            k <= chunks@.len(),
            k < chunks@.len() ==> pos == min_int(MAX_NUM_PGT_ENTRY_PER_ALLOC * k, n as int),
            pos <= n,
            pgt_updates@.len() == k,
            pgt_entries@.len() == k,
            forall|j: int|
                0 <= j < k ==> #[trigger] pgt_updates@[j] == (PgtUpdate {
                    dma_addr: buffer_phys_addr,
                    pgt_offset: chunks@[j].index,
                    zero_based_entry_count: (chunks@[j].count - 1) as u32,
                }),
            forall|j: int|
                0 <= j < k ==> #[trigger] pgt_entries@[j]@ == pages@.subrange(
                    min_int(MAX_NUM_PGT_ENTRY_PER_ALLOC * j, n as int),
                    min_int(MAX_NUM_PGT_ENTRY_PER_ALLOC * j + chunks@[j].count, n as int),
                ),
        decreases chunks@.len() - k,
    {
        let c = chunks[k];
        proof {
            assert(c.count >= 1);
            assert(k + 1 < chunks@.len() ==> c.count == MAX_NUM_PGT_ENTRY_PER_ALLOC);
        }
        let end: usize = if n - pos < c.count as usize {
            n
        } else {
            pos + c.count as usize
        };
        let mut entries: Vec<u64> = Vec::new();
        let mut j: usize = pos;
        while j < end
            invariant
                pos <= j <= end,
                end <= n,
                pages@.len() == n,
                entries@ == pages@.subrange(pos as int, j as int),
            decreases end - j,
        {
            entries.push(pages[j]);
            j = j + 1;
        }
        pgt_updates.push(PgtUpdate::new(buffer_phys_addr, c.index, c.count - 1));
        pgt_entries.push(entries);
        pos = end;
        k = k + 1;
    }
    Ok(RegMrPlan { mtt_update, pgt_updates, pgt_entries })
}

/// The attributes of a new queue pair and its entry for the device: the card's MAC address,
/// a 4096-byte path MTU, and the local UDP port.
pub fn create_qp_attr(
    current: QpAttr,
    qpn: u32,
    qp_type: u8,
    send_cq: Option<u32>,
    recv_cq: Option<u32>,
) -> (r: (QpAttr, UpdateQp))
    ensures
        r.0 == (QpAttr {
            qpn,
            qp_type,
            send_cq,
            recv_cq,
            mac_addr: CARD_MAC_ADDRESS,
            pmtu: IBV_MTU_4096,
            ..current
        }),
        r.1 == (UpdateQp {
            ip_addr: 0,
            qpn,
            peer_qpn: 0,
            rq_access_flags: 0,
            qp_type,
            pmtu: 0,
            local_udp_port: LOCAL_UDP_PORT,
            peer_mac_addr: 0,
        }),
{
    let mut attr = current;
    attr.qpn = qpn;
    attr.qp_type = qp_type;
    attr.send_cq = send_cq;
    attr.recv_cq = recv_cq;
    attr.mac_addr = CARD_MAC_ADDRESS;
    attr.pmtu = IBV_MTU_4096;
    let mut entry = UpdateQp::default();
    entry.ip_addr = 0;
    entry.peer_mac_addr = 0;
    entry.local_udp_port = LOCAL_UDP_PORT;
    entry.qp_type = qp_type;
    entry.qpn = qpn;
    (attr, entry)
}

/// The entry of a new queue pair of type `qp_type`, every other field zero.
pub fn new_qp_entry(qpn: u32, qp_type: u8) -> (r: UpdateQp)
    ensures
        r == (UpdateQp {
            ip_addr: 0,
            qpn,
            peer_qpn: 0,
            rq_access_flags: 0,
            qp_type,
            pmtu: 0,
            local_udp_port: 0,
            peer_mac_addr: 0,
        }),
{
    let mut entry = UpdateQp::default();
    entry.qp_type = qp_type;
    entry.qpn = qpn;
    entry
}

/// Attributes changed on a queue pair; `None` leaves one as it was.
#[derive(Debug, Clone, Copy, PartialEq, Eq, Structural)]
pub struct QpAttrChange {
    /// Peer IP address
    pub dest_qp_ip: Option<u32>,
    /// Peer queue pair number
    pub dest_qp_num: Option<u32>,
    /// Access flags
    pub qp_access_flags: Option<u32>,
    /// Path MTU, as an `ibv_mtu` value
    pub path_mtu: Option<u32>,
}

/// `ibv_qp_attr_mask` bit: the access flags are set.
pub const IBV_QP_ACCESS_FLAGS: u32 = 0x8;

/// `ibv_qp_attr_mask` bit: the address vector, with the peer's GID, is set.
pub const IBV_QP_AV: u32 = 0x80;

/// `ibv_qp_attr_mask` bit: the path MTU is set.
pub const IBV_QP_PATH_MTU: u32 = 0x100;

/// `ibv_qp_attr_mask` bit: the peer queue pair number is set.
pub const IBV_QP_DEST_QPN: u32 = 0x10_0000;

/// The IPv4 address of a GID of the form `::ffff:a.b.c.d`, as a big-endian number; `None`
/// for any other GID.
pub open spec fn spec_ipv4_of_gid(gid: Seq<u8>) -> Option<u32> {
    if (forall|i: int| 0 <= i < 10 ==> gid[i] == 0) && gid[10] == 0xff && gid[11] == 0xff {
        Some((gid[12] * 0x100_0000 + gid[13] * 0x1_0000 + gid[14] * 0x100 + gid[15]) as u32)
    } else {
        None
    }
}

/// The IPv4 address that an IPv4-mapped GID carries.
pub fn ipv4_of_gid(gid: [u8; 16]) -> (r: Option<u32>)
    ensures
        r == spec_ipv4_of_gid(gid@),
{
    let mut i: usize = 0;
    while i < 10
        invariant
            i <= 10,
            forall|j: int| 0 <= j < i ==> gid@[j] == 0,
        decreases 10 - i,
    {
        if gid[i] != 0 {
            return None;
        }
        i = i + 1;
    }
    if gid[10] != 0xff || gid[11] != 0xff {
        return None;
    }
    let a: u32 = gid[12] as u32;
    let b: u32 = gid[13] as u32;
    let c: u32 = gid[14] as u32;
    let d: u32 = gid[15] as u32;
    Some(a * 0x100_0000 + b * 0x1_0000 + c * 0x100 + d)
}

/// The attribute value when `bit` is set in `attr_mask`.
pub open spec fn masked(attr_mask: u32, bit: u32, value: u32) -> Option<u32> {
    if attr_mask & bit != 0 {
        Some(value)
    } else {
        None
    }
}

/// The change of queue pair attributes that `ibv_modify_qp` asks for: each attribute whose
/// bit is set in `attr_mask`, and the peer's IP address from the GID of the address vector
/// when that is set and the GID maps an IPv4 address.
pub fn qp_attr_change(
    attr_mask: u32,
    dgid: [u8; 16],
    dest_qp_num: u32,
    qp_access_flags: u32,
    path_mtu: u32,
) -> (r: QpAttrChange)
    ensures
        r.dest_qp_ip == (if attr_mask & IBV_QP_AV != 0 {
            spec_ipv4_of_gid(dgid@)
        } else {
            None
        }),
        r.dest_qp_num == masked(attr_mask, IBV_QP_DEST_QPN, dest_qp_num),
        r.qp_access_flags == masked(attr_mask, IBV_QP_ACCESS_FLAGS, qp_access_flags),
        r.path_mtu == masked(attr_mask, IBV_QP_PATH_MTU, path_mtu),
{
    let dest_qp_ip = if attr_mask & IBV_QP_AV != 0 {
        ipv4_of_gid(dgid)
    } else {
        None
    };
    QpAttrChange {
        dest_qp_ip,
        dest_qp_num: if attr_mask & IBV_QP_DEST_QPN != 0 {
            Some(dest_qp_num)
        } else {
            None
        },
        qp_access_flags: if attr_mask & IBV_QP_ACCESS_FLAGS != 0 {
            Some(qp_access_flags)
        } else {
            None
        },
        path_mtu: if attr_mask & IBV_QP_PATH_MTU != 0 {
            Some(path_mtu)
        } else {
            None
        },
    }
}

/// The peer IP address after a change: the new one, else the current one.
pub open spec fn merged_ip(current: u32, new_ip: Option<u32>) -> u32 {
    match new_ip {
        Some(ip) => ip,
        None => current,
    }
}

/// The entry of `qpn` for the device after `change`, and the attributes to keep: each
/// attribute the change carries replaces the current one, flags and MTU cut to a byte.
pub fn update_qp_attr(current: QpAttr, qpn: u32, change: QpAttrChange) -> (r: (QpAttr, UpdateQp))
    ensures
        ({
            let ip = merged_ip(current.dqp_ip, change.dest_qp_ip);
            let peer_qpn = match change.dest_qp_num {
                Some(n) => n,
                None => current.dqpn,
            };
            let flags = match change.qp_access_flags {
                Some(f) => f as u8,
                None => current.access_flags,
            };
            let pmtu = match change.path_mtu {
                Some(m) => m as u8,
                None => current.pmtu,
            };
            &&& r.1 == (UpdateQp {
                ip_addr: ip,
                qpn,
                peer_qpn,
                rq_access_flags: flags,
                qp_type: current.qp_type,
                pmtu,
                local_udp_port: LOCAL_UDP_PORT,
                peer_mac_addr: CARD_MAC_ADDRESS,
            })
            &&& r.0 == (QpAttr {
                dqpn: peer_qpn,
                access_flags: flags,
                pmtu,
                dqp_ip: ip,
                ..current
            })
        }),
{
    let current_ip = if current.dqp_ip != 0 {
        Some(current.dqp_ip)
    } else {
        None
    };
    let ip_addr = match change.dest_qp_ip {
        Some(ip) => ip,
        None => match current_ip {
            Some(ip) => ip,
            None => 0,
        },
    };
    let peer_qpn = match change.dest_qp_num {
        Some(n) => n,
        None => current.dqpn,
    };
    let rq_access_flags = match change.qp_access_flags {
        Some(f) => f as u8,
        None => current.access_flags,
    };
    let pmtu = match change.path_mtu {
        Some(m) => m as u8,
        None => current.pmtu,
    };
    let entry = UpdateQp {
        ip_addr,
        qpn,
        peer_qpn,
        rq_access_flags,
        qp_type: current.qp_type,
        pmtu,
        local_udp_port: LOCAL_UDP_PORT,
        peer_mac_addr: CARD_MAC_ADDRESS,
    };
    let mut attr = current;
    attr.dqpn = peer_qpn;
    attr.access_flags = rq_access_flags;
    attr.pmtu = pmtu;
    attr.dqp_ip = ip_addr;
    (attr, entry)
}

/// Whether a queue pair now needs a channel for posted receives: it knows its peer and has
/// none yet.
pub fn needs_post_recv_channel(attr: &QpAttr, has_channel: bool) -> (r: bool)
    ensures
        r == (attr.dqpn != 0 && attr.dqp_ip != 0 && !has_channel),
{
    attr.dqpn != 0 && attr.dqp_ip != 0 && !has_channel
}

/// The entry a change of queue pair attributes gives the device: the peer IP address is the
/// little-endian value of the last four bytes of the destination GID, type, flags and MTU
/// are cut to a byte, and the local UDP port is the port number.
pub fn modify_qp_entry(
    qpn: u32,
    qp_type: u32,
    dgid: [u8; 16],
    dest_qp_num: u32,
    qp_access_flags: u32,
    path_mtu: u32,
    port_num: u8,
) -> (r: UpdateQp)
    ensures
        r == (UpdateQp {
            ip_addr: (dgid@[12] + 0x100 * dgid@[13] + 0x1_0000 * dgid@[14] + 0x100_0000 * dgid@[15])
                as u32,
            qpn,
            peer_qpn: dest_qp_num,
            rq_access_flags: qp_access_flags as u8,
            qp_type: qp_type as u8,
            pmtu: path_mtu as u8,
            local_udp_port: port_num as u16,
            peer_mac_addr: 0,
        }),
{
    let b0 = dgid[12] as u32;
    let b1 = dgid[13] as u32;
    let b2 = dgid[14] as u32;
    let b3 = dgid[15] as u32;
    let ip_addr = b0 + 0x100 * b1 + 0x1_0000 * b2 + 0x100_0000 * b3;
    UpdateQp {
        ip_addr,
        qpn,
        peer_qpn: dest_qp_num,
        rq_access_flags: qp_access_flags as u8,
        qp_type: qp_type as u8,
        pmtu: path_mtu as u8,
        local_udp_port: port_num as u16,
        peer_mac_addr: 0,
    }
}

} // verus!
