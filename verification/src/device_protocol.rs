//! Types shared between the driver and the device protocol.
use core::marker::PhantomData;

use vstd::prelude::*;

use crate::qp::{convert_ibv_mtu_to_u16, spec_mtu_bytes};

pub use crate::desc::send::WorkReqOpCode;

verus! {

/// Position of a chunk (or packet) inside a work request.
#[derive(Debug, Clone, Copy, PartialEq, Eq, Structural)]
pub enum ChunkPos {
    /// First chunk of several
    First,
    /// Neither first nor last
    Middle,
    /// Last chunk of several
    Last,
    /// The only chunk
    Only,
}

impl ChunkPos {
    /// Position of the chunk following a chunk at `self`, when more chunks follow.
    pub fn next(self) -> (r: Self)
        ensures
            r == (match self {
                ChunkPos::First | ChunkPos::Middle => ChunkPos::Middle,
                ChunkPos::Last => ChunkPos::Last,
                ChunkPos::Only => ChunkPos::Only,
            }),
    {
        match self {
            ChunkPos::First | ChunkPos::Middle => ChunkPos::Middle,
            ChunkPos::Last => ChunkPos::Last,
            ChunkPos::Only => ChunkPos::Only,
        }
    }
}


/// Position of a packet inside a message.
#[derive(Debug, Clone, Copy, PartialEq, Eq, Structural)]
pub enum PacketPos {
    /// First packet of several
    First,
    /// Neither first nor last
    Middle,
    /// Last packet of several
    Last,
    /// The only packet
    Only,
}

/// The entry of a queue pair as the device holds it.
#[derive(Debug, Clone, Copy, PartialEq, Eq, Structural)]
pub struct UpdateQp {
    /// Peer IP address
    pub ip_addr: u32,
    /// Queue pair number
    pub qpn: u32,
    /// Peer queue pair number
    pub peer_qpn: u32,
    /// Access flags of the receive queue
    pub rq_access_flags: u8,
    /// Queue pair type
    pub qp_type: u8,
    /// Path MTU, as an `ibv_mtu` value
    pub pmtu: u8,
    /// Local UDP port
    pub local_udp_port: u16,
    /// Peer MAC address
    pub peer_mac_addr: u64,
}

impl Default for UpdateQp {
    fn default() -> (r: Self)
        ensures
            r == (UpdateQp {
                ip_addr: 0,
                qpn: 0,
                peer_qpn: 0,
                rq_access_flags: 0,
                qp_type: 0,
                pmtu: 0,
                local_udp_port: 0,
                peer_mac_addr: 0,
            }),
    {
        UpdateQp {
            ip_addr: 0,
            qpn: 0,
            peer_qpn: 0,
            rq_access_flags: 0,
            qp_type: 0,
            pmtu: 0,
            local_udp_port: 0,
            peer_mac_addr: 0,
        }
    }
}

/// Where the device writes raw packets it receives.
#[derive(Debug, Clone, Copy, PartialEq, Eq, Structural)]
pub struct RecvBufferMeta {
    /// Physical address of the receive buffer
    pub phys_addr: u64,
}

impl RecvBufferMeta {
    /// Describes the receive buffer at `phys_addr`.
    pub fn new(phys_addr: u64) -> (r: Self)
        ensures
            r.phys_addr == phys_addr,
    {
        Self { phys_addr }
    }
}

/// Kind of a received packet that carries a message.
#[derive(Debug, Clone, Copy, PartialEq, Eq, Structural)]
pub enum HeaderType {
    /// An RDMA write
    Write,
    /// An RDMA write with immediate data
    WriteWithImm,
    /// A send
    Send,
    /// A send with immediate data
    SendWithImm,
    /// A response to an RDMA read
    ReadResp,
}

/// Header of an RDMA write packet, as the meta report queue describes it.
#[derive(Debug, Clone, Copy, PartialEq, Eq, Structural)]
pub struct HeaderWriteMeta {
    /// Position of the packet in its message
    pub pos: PacketPos,
    /// Message sequence number
    pub msn: u16,
    /// Packet sequence number
    pub psn: u32,
    /// The sender asks for a solicited event
    pub solicited: bool,
    /// The sender asks for an acknowledgement
    pub ack_req: bool,
    /// The packet is a retransmission
    pub is_retry: bool,
    /// Destination queue pair number
    pub dqpn: u32,
    /// Length of the whole message
    pub total_len: u32,
    /// Remote address
    pub raddr: u64,
    /// Remote key
    pub rkey: u32,
    /// Immediate data
    pub imm: u32,
    /// Kind of the packet
    pub header_type: HeaderType,
}

/// Header of an RDMA read request.
#[derive(Debug, Clone, Copy, PartialEq, Eq, Structural)]
pub struct HeaderReadMeta {
    /// Remote address
    pub raddr: u64,
    /// Remote key
    pub rkey: u32,
    /// Length to read
    pub total_len: u32,
    /// Local address
    pub laddr: u64,
    /// Local key
    pub lkey: u32,
}

/// A congestion notification.
#[derive(Debug, Clone, Copy, PartialEq, Eq, Structural)]
pub struct CnpMeta {
    /// The initiator's queue pair number
    pub qpn: u32,
}

/// A positive acknowledgement.
#[derive(Debug, Clone, Copy, PartialEq, Eq, Structural)]
pub struct AckMeta {
    /// Queue pair number
    pub qpn: u32,
    /// Message sequence number
    pub msn: u16,
    /// Packet sequence number the bitmap ends at
    pub psn_now: u32,
    /// Bitmap of received packets
    pub now_bitmap: u128,
    /// The window of received packets moved
    pub is_window_slided: bool,
    /// The local hardware sent the acknowledgement
    pub is_send_by_local_hw: bool,
    /// The driver sent the acknowledgement
    pub is_send_by_driver: bool,
}

/// A negative acknowledgement.
#[derive(Debug, Clone, Copy, PartialEq, Eq, Structural)]
pub struct NakMeta {
    /// Queue pair number
    pub qpn: u32,
    /// Message sequence number
    pub msn: u16,
    /// Packet sequence number the current bitmap ends at
    pub psn_now: u32,
    /// Current bitmap of received packets
    pub now_bitmap: u128,
    /// Bitmap before the window moved
    pub pre_bitmap: u128,
    /// Packet sequence number the previous bitmap ends at
    pub psn_before_slide: u32,
    /// The local hardware sent the acknowledgement
    pub is_send_by_local_hw: bool,
    /// The driver sent the acknowledgement
    pub is_send_by_driver: bool,
}

/// What the meta report queue reports.
#[derive(Debug, Clone, Copy, PartialEq, Eq, Structural)]
pub enum ReportMeta {
    /// Header of a write
    Write(HeaderWriteMeta),
    /// Header of a read request
    Read(HeaderReadMeta),
    /// Congestion notification
    Cnp(CnpMeta),
    /// Positive acknowledgement
    Ack(AckMeta),
    /// Negative acknowledgement
    Nak(NakMeta),
}

/// Builder state: nothing set yet.
#[derive(Clone, Copy, Debug)]
pub struct Initial;

/// Builder state: queue pair parameters set.
#[derive(Clone, Copy, Debug)]
pub struct WithQpParams;

/// Builder state: work request parameters set.
#[derive(Clone, Copy, Debug)]
pub struct WithIbvParams;

/// Builder state: chunk set, ready to build.
#[derive(Clone, Copy, Debug)]
pub struct WithChunkInfo;

/// One chunk of a work request, as the send queue takes it.
#[derive(Clone, Copy, Debug, PartialEq, Eq, Structural)]
pub struct WrChunk {
    /// Operation
    pub opcode: WorkReqOpCode,
    /// Queue pair type
    pub qp_type: u8,
    /// Source queue pair number
    pub sqpn: u32,
    /// Local MAC address
    pub mac_addr: u64,
    /// Destination queue pair number
    pub dqpn: u32,
    /// Destination IP address
    pub dqp_ip: u32,
    /// Path MTU, as an `ibv_mtu` value
    pub pmtu: u8,
    /// Send flags
    pub flags: u8,
    /// Remote address of the chunk
    pub raddr: u64,
    /// Remote key
    pub rkey: u32,
    /// Length of the whole work request
    pub total_len: u32,
    /// Local key
    pub lkey: u32,
    /// Immediate data
    pub imm: u32,
    /// Local address of the chunk
    pub laddr: u64,
    /// Length of the chunk
    pub len: u32,
    /// The chunk is the first of its request
    pub is_first: bool,
    /// The chunk is the last of its request
    pub is_last: bool,
    /// Message sequence number
    pub msn: u16,
    /// Packet sequence number of the chunk's first packet
    pub psn: u32,
    /// The chunk is a retransmission
    pub is_retry: bool,
    /// Explicit congestion notification is enabled
    pub enable_ecn: bool,
}

impl WrChunk {
    /// The chunk with every field zero or false, of operation RDMA write.
    pub open spec fn spec_default() -> Self {
        WrChunk {
            opcode: WorkReqOpCode::RdmaWrite,
            qp_type: 0,
            sqpn: 0,
            mac_addr: 0,
            dqpn: 0,
            dqp_ip: 0,
            pmtu: 0,
            flags: 0,
            raddr: 0,
            rkey: 0,
            total_len: 0,
            lkey: 0,
            imm: 0,
            laddr: 0,
            len: 0,
            is_first: false,
            is_last: false,
            msn: 0,
            psn: 0,
            is_retry: false,
            enable_ecn: false,
        }
    }

    /// Marks the chunk as a retransmission.
    pub fn set_is_retry(&mut self)
        ensures
            *final(self) == (WrChunk { is_retry: true, ..*old(self) }),
    {
        self.is_retry = true;
    }
}

impl Default for WrChunk {
    fn default() -> (r: Self)
        ensures
            r == WrChunk::spec_default(),
    {
        WrChunk {
            opcode: WorkReqOpCode::RdmaWrite,
            qp_type: 0,
            sqpn: 0,
            mac_addr: 0,
            dqpn: 0,
            dqp_ip: 0,
            pmtu: 0,
            flags: 0,
            raddr: 0,
            rkey: 0,
            total_len: 0,
            lkey: 0,
            imm: 0,
            laddr: 0,
            len: 0,
            is_first: false,
            is_last: false,
            msn: 0,
            psn: 0,
            is_retry: false,
            enable_ecn: false,
        }
    }
}

/// Parameters of a queue pair that every chunk carries.
#[derive(Debug, Clone, Copy, PartialEq, Eq, Structural)]
pub struct QpParams {
    /// Message sequence number
    pub msn: u16,
    /// Queue pair type
    pub qp_type: u8,
    /// Source queue pair number
    pub sqpn: u32,
    /// Local MAC address
    pub mac_addr: u64,
    /// Destination queue pair number
    pub dqpn: u32,
    /// Destination IP address
    pub dqp_ip: u32,
    /// Path MTU, as an `ibv_mtu` value
    pub pmtu: u8,
}

impl QpParams {
    /// Gathers the parameters.
    pub fn new(
        msn: u16,
        qp_type: u8,
        sqpn: u32,
        mac_addr: u64,
        dqpn: u32,
        dqp_ip: u32,
        pmtu: u8,
    ) -> (r: Self)
        ensures
            r == (QpParams { msn, qp_type, sqpn, mac_addr, dqpn, dqp_ip, pmtu }),
    {
        Self { msn, qp_type, sqpn, mac_addr, dqpn, dqp_ip, pmtu }
    }
}

/// Builds a `WrChunk` in steps: queue pair parameters, then work request parameters, then
/// the chunk itself.
#[derive(Debug)]
pub struct WrChunkBuilder<S> {
    /// The chunk built so far
    pub inner: WrChunk,
    /// The step reached
    pub state: PhantomData<S>,
}

impl WrChunkBuilder<Initial> {
    /// Starts a chunk of an RDMA write.
    pub fn new() -> (r: Self)
        ensures
            r.inner == WrChunk::spec_default(),
    {
        Self { inner: WrChunk::default(), state: PhantomData }
    }

    /// Starts a chunk of operation `opcode`.
    pub fn new_with_opcode(opcode: WorkReqOpCode) -> (r: Self)
        ensures
            r.inner == (WrChunk { opcode, ..WrChunk::spec_default() }),
    {
        let mut inner = WrChunk::default();
        inner.opcode = opcode;
        Self { inner, state: PhantomData }
    }

    /// Starts a chunk of an RDMA read response.
    pub fn new_read_resp() -> (r: Self)
        ensures
            r.inner == (WrChunk { opcode: WorkReqOpCode::RdmaReadResp, ..WrChunk::spec_default() }),
    {
        Self::new_with_opcode(WorkReqOpCode::RdmaReadResp)
    }

    /// Sets the queue pair parameters. Every other field starts over from its default, the
    /// operation included.
    pub fn set_qp_params(self, qp_params: QpParams) -> (r: WrChunkBuilder<WithQpParams>)
        ensures
            r.inner == (WrChunk {
                qp_type: qp_params.qp_type,
                sqpn: qp_params.sqpn,
                mac_addr: qp_params.mac_addr,
                dqpn: qp_params.dqpn,
                dqp_ip: qp_params.dqp_ip,
                pmtu: qp_params.pmtu,
                msn: qp_params.msn,
                ..WrChunk::spec_default()
            }),
    {
        let mut inner = WrChunk::default();
        inner.qp_type = qp_params.qp_type;
        inner.sqpn = qp_params.sqpn;
        inner.mac_addr = qp_params.mac_addr;
        inner.dqpn = qp_params.dqpn;
        inner.dqp_ip = qp_params.dqp_ip;
        inner.pmtu = qp_params.pmtu;
        inner.msn = qp_params.msn;
        WrChunkBuilder { inner, state: PhantomData }
    }
}

impl WrChunkBuilder<WithQpParams> {
    /// Sets the parameters of the work request.
    pub fn set_ibv_params(self, flags: u8, rkey: u32, total_len: u32, lkey: u32, imm: u32) -> (r:
        WrChunkBuilder<WithIbvParams>)
        ensures
            r.inner == (WrChunk { flags, rkey, total_len, lkey, imm, ..self.inner }),
    {
        let mut inner = self.inner;
        inner.flags = flags;
        inner.rkey = rkey;
        inner.total_len = total_len;
        inner.lkey = lkey;
        inner.imm = imm;
        WrChunkBuilder { inner, state: PhantomData }
    }

    /// Path MTU in bytes.
    pub fn pmtu(&self) -> (r: u16)
        requires
            1 <= self.inner.pmtu <= 5,
        ensures
            r == spec_mtu_bytes(self.inner.pmtu),
    {
        match convert_ibv_mtu_to_u16(self.inner.pmtu) {
            Some(m) => m,
            None => vstd::pervasive::unreached(),
        }
    }
}

/// The chunk with its addresses, length and position set.
pub open spec fn with_chunk_meta(c: WrChunk, psn: u32, laddr: u64, raddr: u64, len: u32, pos: ChunkPos) -> WrChunk {
    WrChunk {
        psn,
        laddr,
        raddr,
        len,
        is_first: c.is_first || pos == ChunkPos::First || pos == ChunkPos::Only,
        is_last: c.is_last || pos == ChunkPos::Last || pos == ChunkPos::Only,
        ..c
    }
}

impl WrChunkBuilder<WithIbvParams> {
    /// Sets the chunk: its first packet sequence number, addresses, length and position.
    pub fn set_chunk_meta(self, psn: u32, laddr: u64, raddr: u64, len: u32, pos: ChunkPos) -> (r:
        WrChunkBuilder<WithChunkInfo>)
        ensures
            r.inner == with_chunk_meta(self.inner, psn, laddr, raddr, len, pos),
            r.inner.is_first == (self.inner.is_first || pos == ChunkPos::First || pos
                == ChunkPos::Only),
            r.inner.is_last == (self.inner.is_last || pos == ChunkPos::Last || pos
                == ChunkPos::Only),
    {
        let mut inner = self.inner;
        inner.psn = psn;
        inner.laddr = laddr;
        inner.raddr = raddr;
        inner.len = len;
        match pos {
            ChunkPos::First => inner.is_first = true,
            ChunkPos::Last => inner.is_last = true,
            ChunkPos::Middle => {},
            ChunkPos::Only => {
                inner.is_first = true;
                inner.is_last = true;
            },
        }
        WrChunkBuilder { inner, state: PhantomData }
    }

    /// Path MTU in bytes.
    pub fn pmtu(&self) -> (r: u16)
        requires
            1 <= self.inner.pmtu <= 5,
        ensures
            r == spec_mtu_bytes(self.inner.pmtu),
    {
        match convert_ibv_mtu_to_u16(self.inner.pmtu) {
            Some(m) => m,
            None => vstd::pervasive::unreached(),
        }
    }
}

impl WrChunkBuilder<WithChunkInfo> {
    /// Marks the chunk as a retransmission.
    pub fn set_is_retry(self) -> (r: Self)
        ensures
            r.inner == (WrChunk { is_retry: true, ..self.inner }),
    {
        let mut inner = self.inner;
        inner.is_retry = true;
        WrChunkBuilder { inner, state: PhantomData }
    }

    /// Enables explicit congestion notification.
    pub fn set_enable_ecn(self) -> (r: Self)
        ensures
            r.inner == (WrChunk { enable_ecn: true, ..self.inner }),
    {
        let mut inner = self.inner;
        inner.enable_ecn = true;
        WrChunkBuilder { inner, state: PhantomData }
    }

    /// Turns the chunk into one of an RDMA read response.
    pub fn set_is_read_resp(self) -> (r: Self)
        ensures
            r.inner == (WrChunk { opcode: WorkReqOpCode::RdmaReadResp, ..self.inner }),
    {
        let mut inner = self.inner;
        inner.opcode = WorkReqOpCode::RdmaReadResp;
        WrChunkBuilder { inner, state: PhantomData }
    }

    /// The chunk.
    pub fn build(self) -> (r: WrChunk)
        ensures
            r == self.inner,
    {
        self.inner
    }
}

} // verus!
