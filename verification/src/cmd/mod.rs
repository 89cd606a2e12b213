//! Commands that configure the device, and the descriptors that carry them.
use vstd::prelude::*;

use crate::constants::CARD_MAC_ADDRESS;
use crate::desc::bits::field_get;
use crate::desc::cmd::{
    CmdQueueDescOperators, CmdQueueReqDescQpManagement, CmdQueueReqDescSetNetworkParam,
    CmdQueueReqDescSetRawPacketReceiveMeta, CmdQueueReqDescUpdateMrTable,
    CmdQueueReqDescUpdatePGT,
};
use crate::device_protocol::{RecvBufferMeta, UpdateQp};

pub mod net;

verus! {

/// Registration of a memory region.
#[derive(Debug, Clone, Copy, PartialEq, Eq, Structural)]
pub struct MttUpdate {
    /// Virtual address of the region
    pub mr_base_va: u64,
    /// Length of the region in bytes
    pub mr_length: u32,
    /// Key of the region
    pub mr_key: u32,
    /// Protection domain
    pub pd_handler: u32,
    /// Access flags
    pub acc_flags: u8,
    /// Index of the region's first page table entry
    pub base_pgt_offset: u32,
}

impl MttUpdate {
    /// Describes the registration of a region.
    pub fn new(
        mr_base_va: u64,
        mr_length: u32,
        mr_key: u32,
        pd_handler: u32,
        acc_flags: u8,
        base_pgt_offset: u32,
    ) -> (r: Self)
        ensures
            r == (MttUpdate { mr_base_va, mr_length, mr_key, pd_handler, acc_flags, base_pgt_offset }),
    {
        Self { mr_base_va, mr_length, mr_key, pd_handler, acc_flags, base_pgt_offset }
    }
}

/// A copy of page table entries from host memory into the device.
#[derive(Debug, Clone, Copy, PartialEq, Eq, Structural)]
pub struct PgtUpdate {
    /// Physical address of the entries in host memory
    pub dma_addr: u64,
    /// Index of the first entry in the device's table
    pub pgt_offset: u32,
    /// Number of entries, minus one
    pub zero_based_entry_count: u32,
}

impl PgtUpdate {
    /// Describes a copy of page table entries.
    pub fn new(dma_addr: u64, pgt_offset: u32, zero_based_entry_count: u32) -> (r: Self)
        ensures
            r == (PgtUpdate { dma_addr, pgt_offset, zero_based_entry_count }),
    {
        Self { dma_addr, pgt_offset, zero_based_entry_count }
    }
}

/// The address of the card on the network.
#[derive(Debug, Clone, Copy, PartialEq, Eq, Structural)]
pub struct NetworkConfig {
    /// IPv4 address of the card
    pub ip: u32,
    /// Length of the network prefix, at most 32
    pub prefix_len: u8,
    /// Gateway, if there is one
    pub gateway: Option<u32>,
}

/// The netmask of a prefix of `len` bits: the `len` high bits set.
pub open spec fn spec_netmask(len: u8) -> u32 {
    if len == 0 {
        0
    } else {
        (0xffff_ffffu32 << ((32 - len) as u32)) as u32
    }
}

impl NetworkConfig {
    /// The netmask of the network.
    pub fn mask(&self) -> (r: u32)
        requires
            self.prefix_len <= 32,
        ensures
            r == spec_netmask(self.prefix_len),
    {
        if self.prefix_len == 0 {
            0
        } else {
            0xffff_ffffu32 << ((32 - self.prefix_len) as u32)
        }
    }
}

/// A command for the command queue.
#[derive(Debug, Clone, Copy)]
pub enum CmdQueueDesc {
    /// Registers a memory region
    UpdateMrTable(CmdQueueReqDescUpdateMrTable),
    /// Writes page table entries
    UpdatePGT(CmdQueueReqDescUpdatePGT),
    /// Writes the entry of a queue pair
    ManageQP(CmdQueueReqDescQpManagement),
    /// Sets the address of the card
    SetNetworkParam(CmdQueueReqDescSetNetworkParam),
    /// Sets where raw packets are received
    SetRawPacketReceiveMeta(CmdQueueReqDescSetRawPacketReceiveMeta),
}

impl CmdQueueDesc {
    /// The four words of the descriptor.
    pub open spec fn spec_words(self) -> (u64, u64, u64, u64) {
        match self {
            CmdQueueDesc::UpdateMrTable(d) => (d.c0, d.c1, d.c2, d.c3),
            CmdQueueDesc::UpdatePGT(d) => (d.c0, d.c1, d.c2, d.c3),
            CmdQueueDesc::ManageQP(d) => (d.c0, d.c1, d.c2, d.c3),
            CmdQueueDesc::SetNetworkParam(d) => (d.c0, d.c1, d.c2, d.c3),
            CmdQueueDesc::SetRawPacketReceiveMeta(d) => (d.c0, d.c1, d.c2, d.c3),
        }
    }

    /// The 32 bytes of the descriptor, as the device reads them.
    pub fn to_bytes(&self) -> (r: [u8; 32])
        ensures
            crate::desc::le_word(r@, 0) == self.spec_words().0,
            crate::desc::le_word(r@, 8) == self.spec_words().1,
            crate::desc::le_word(r@, 16) == self.spec_words().2,
            crate::desc::le_word(r@, 24) == self.spec_words().3,
    {
        match self {
            CmdQueueDesc::UpdateMrTable(d) => crate::desc::words_to_bytes(d.c0, d.c1, d.c2, d.c3),
            CmdQueueDesc::UpdatePGT(d) => crate::desc::words_to_bytes(d.c0, d.c1, d.c2, d.c3),
            CmdQueueDesc::ManageQP(d) => crate::desc::words_to_bytes(d.c0, d.c1, d.c2, d.c3),
            CmdQueueDesc::SetNetworkParam(d) => crate::desc::words_to_bytes(d.c0, d.c1, d.c2, d.c3),
            CmdQueueDesc::SetRawPacketReceiveMeta(d) => crate::desc::words_to_bytes(
                d.c0,
                d.c1,
                d.c2,
                d.c3,
            ),
        }
    }
}

/// The command that registers a memory region. The page table offset must fit in the
/// descriptor's seventeen bits.
pub fn update_mtt_desc(update: &MttUpdate) -> (r: CmdQueueDesc)
    requires
        update.base_pgt_offset < 0x2_0000,
    ensures
        r matches CmdQueueDesc::UpdateMrTable(d) && {
            &&& field_get(d.c0, 8, 8) == CmdQueueDescOperators::UpdateMrTable.spec_value() as u64
            &&& field_get(d.c0, 16, 8) == 0
            &&& d.c1 == update.mr_base_va
            &&& field_get(d.c2, 0, 32) == update.mr_length as u64
            &&& field_get(d.c2, 32, 32) == update.mr_key as u64
            &&& field_get(d.c3, 0, 32) == update.pd_handler as u64
            &&& field_get(d.c3, 32, 8) == update.acc_flags as u64
            &&& field_get(d.c3, 40, 17) == update.base_pgt_offset as u64
        },
{
    CmdQueueDesc::UpdateMrTable(
        CmdQueueReqDescUpdateMrTable::new(
            0,
            update.mr_base_va,
            update.mr_length,
            update.mr_key,
            update.pd_handler,
            update.acc_flags,
            update.base_pgt_offset,
        ),
    )
}

/// The command that copies page table entries into the device.
pub fn update_pgt_desc(update: &PgtUpdate) -> (r: CmdQueueDesc)
    ensures
        r matches CmdQueueDesc::UpdatePGT(d) && {
            &&& field_get(d.c0, 8, 8) == CmdQueueDescOperators::UpdatePgt.spec_value() as u64
            &&& field_get(d.c0, 16, 8) == 0
            &&& d.c1 == update.dma_addr
            &&& field_get(d.c2, 0, 32) == update.pgt_offset as u64
            &&& field_get(d.c2, 32, 32) == update.zero_based_entry_count as u64
        },
{
    CmdQueueDesc::UpdatePGT(
        CmdQueueReqDescUpdatePGT::new(
            0,
            update.dma_addr,
            update.pgt_offset,
            update.zero_based_entry_count,
        ),
    )
}

/// The command that writes the entry of a queue pair, marked valid and not in error.
///
/// The descriptor's constructor puts its error argument in the valid bit and the reverse,
/// so the valid bit ends up clear and the error bit set.
pub fn update_qp_desc(entry: &UpdateQp) -> (r: CmdQueueDesc)
    ensures
        r matches CmdQueueDesc::ManageQP(d) && {
            &&& field_get(d.c0, 8, 8) == CmdQueueDescOperators::ManageQp.spec_value() as u64
            &&& field_get(d.c0, 16, 8) == 0
            &&& field_get(d.c0, 32, 32) == entry.ip_addr as u64
            &&& field_get(d.c1, 0, 1) == 0
            &&& field_get(d.c1, 1, 1) == 1
            &&& field_get(d.c1, 8, 24) == entry.qpn as u64 & 0xff_ffff
            &&& field_get(d.c2, 0, 24) == entry.peer_qpn as u64 & 0xff_ffff
            &&& field_get(d.c2, 24, 8) == entry.rq_access_flags as u64
            &&& field_get(d.c2, 32, 4) == entry.qp_type as u64 & 0xf
            &&& field_get(d.c2, 40, 3) == entry.pmtu as u64 & 0x7
            &&& field_get(d.c3, 0, 16) == entry.local_udp_port as u64
            &&& field_get(d.c3, 16, 48) == entry.peer_mac_addr & 0xffff_ffff_ffff
        },
{
    CmdQueueDesc::ManageQP(
        CmdQueueReqDescQpManagement::new(
            0,
            entry.ip_addr,
            entry.qpn,
            false,
            true,
            entry.peer_qpn,
            entry.rq_access_flags,
            entry.qp_type,
            entry.pmtu,
            entry.local_udp_port,
            entry.peer_mac_addr,
        ),
    )
}

/// The command that sets the address of the card: its gateway (zero when there is none),
/// netmask, IP address and the card's MAC address.
pub fn set_network_desc(param: &NetworkConfig) -> (r: CmdQueueDesc)
    requires
        param.prefix_len <= 32,
    ensures
        r matches CmdQueueDesc::SetNetworkParam(d) && {
            &&& field_get(d.c0, 8, 8) == CmdQueueDescOperators::SetNetworkParam.spec_value() as u64
            &&& field_get(d.c0, 16, 8) == 0
            &&& field_get(d.c1, 0, 32) == (match param.gateway {
                Some(g) => g,
                None => 0,
            }) as u64
            &&& field_get(d.c1, 32, 32) == spec_netmask(param.prefix_len) as u64
            &&& field_get(d.c2, 0, 32) == param.ip as u64
            &&& field_get(d.c3, 0, 48) == CARD_MAC_ADDRESS & 0xffff_ffff_ffff
        },
{
    let gateway = match param.gateway {
        Some(g) => g,
        None => 0,
    };
    CmdQueueDesc::SetNetworkParam(
        CmdQueueReqDescSetNetworkParam::new(0, gateway, param.mask(), param.ip, CARD_MAC_ADDRESS),
    )
}

/// The command that points raw packet reception at the buffer of `meta`.
pub fn set_raw_packet_recv_buffer_desc(meta: &RecvBufferMeta) -> (r: CmdQueueDesc)
    ensures
        r matches CmdQueueDesc::SetRawPacketReceiveMeta(d) && {
            &&& field_get(d.c0, 8, 8) == CmdQueueDescOperators::SetRawPacketReceiveMeta.spec_value()
                as u64
            &&& field_get(d.c0, 16, 8) == 0
            &&& d.c1 == meta.phys_addr
        },
{
    CmdQueueDesc::SetRawPacketReceiveMeta(
        CmdQueueReqDescSetRawPacketReceiveMeta::new(0, meta.phys_addr),
    )
}

/// The command queue pair: commands waiting to be written to the request ring.
#[derive(Debug)]
pub struct CmdQp {
    /// Commands not yet written to the request ring, oldest first
    pub req_queue: Vec<CmdQueueDesc>,
}

impl CmdQp {
    /// A command queue pair over `req_queue`.
    pub fn new(req_queue: Vec<CmdQueueDesc>) -> (r: Self)
        ensures
            r.req_queue@ == req_queue@,
    {
        Self { req_queue }
    }

    /// Starts a batch of commands, none of them answered yet.
    pub fn update(&mut self) -> (r: QpUpdate)
        ensures
            r.num == 0,
            final(self).req_queue@ == old(self).req_queue@,
    {
        QpUpdate { num: 0 }
    }
}

/// A batch of commands: how many still wait for their response.
#[derive(Debug)]
pub struct QpUpdate {
    /// Number of commands waiting for their response
    pub num: usize,
}

impl QpUpdate {
    /// Pushes a command onto the queue pair; one more response is awaited.
    pub fn push(&mut self, qp: &mut CmdQp, desc: CmdQueueDesc)
        ensures
            final(self).num == old(self).num.wrapping_add(1),
            final(qp).req_queue@ == old(qp).req_queue@.push(desc),
    {
        self.num = self.num.wrapping_add(1);
        qp.req_queue.push(desc);
    }

    /// Records a response; returns whether responses are still awaited.
    pub fn on_response(&mut self) -> (r: bool)
        ensures
            final(self).num == old(self).num.wrapping_sub(1),
            r == (final(self).num != 0),
    {
        self.num = self.num.wrapping_sub(1);
        self.num != 0
    }

    /// Whether responses are still awaited.
    pub fn waiting(&self) -> (r: bool)
        ensures
            r == (self.num != 0),
    {
        self.num != 0
    }
}

} // verus!
