//! Queue pair attributes.
use vstd::prelude::*;

verus! {

/// Attributes of a queue pair.
#[derive(Debug, Clone, Copy, PartialEq, Eq, Structural)]
pub struct QpAttr {
    /// Queue pair number
    pub qpn: u32,
    /// Queue pair type
    pub qp_type: u8,
    /// Completion queue of the sending side
    pub send_cq: Option<u32>,
    /// Completion queue of the receiving side
    pub recv_cq: Option<u32>,
    /// Local MAC address
    pub mac_addr: u64,
    /// Path MTU, as an `ibv_mtu` value
    pub pmtu: u8,
    /// Peer queue pair number
    pub dqpn: u32,
    /// Access flags of the receive queue
    pub access_flags: u8,
    /// Peer IP address
    pub dqp_ip: u32,
    /// Local IP address
    pub ip: u32,
}

impl Default for QpAttr {
    fn default() -> (r: Self)
        ensures
            r == (QpAttr {
                qpn: 0,
                qp_type: 0,
                send_cq: None,
                recv_cq: None,
                mac_addr: 0,
                pmtu: 0,
                dqpn: 0,
                access_flags: 0,
                dqp_ip: 0,
                ip: 0,
            }),
    {
        QpAttr {
            qpn: 0,
            qp_type: 0,
            send_cq: None,
            recv_cq: None,
            mac_addr: 0,
            pmtu: 0,
            dqpn: 0,
            access_flags: 0,
            dqp_ip: 0,
            ip: 0,
        }
    }
}


/// Bytes of a path MTU given as an `ibv_mtu` value from 1 (256 bytes) to 5 (4096 bytes).
pub open spec fn spec_mtu_bytes(mtu: u8) -> u16 {
    match mtu {
        1 => 256,
        2 => 512,
        3 => 1024,
        4 => 2048,
        _ => 4096,
    }
}

/// Bytes of a path MTU given as an `ibv_mtu` value, or `None` for a value outside 1 to 5.
pub fn convert_ibv_mtu_to_u16(mtu: u8) -> (r: Option<u16>)
    ensures
        r is Some <==> 1 <= mtu <= 5,
        r matches Some(m) ==> m == spec_mtu_bytes(mtu),
{
    match mtu {
        1 => Some(256),
        2 => Some(512),
        3 => Some(1024),
        4 => Some(2048),
        5 => Some(4096),
        _ => None,
    }
}

} // verus!
