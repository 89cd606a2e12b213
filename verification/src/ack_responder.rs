//! Acknowledgements that the driver answers to its peers.
use vstd::prelude::*;

verus! {

/// An acknowledgement to send to the peer of a queue pair.
#[derive(Debug, Clone, Copy, PartialEq, Eq, Structural)]
pub enum AckResponse {
    /// Positive acknowledgement up to `last_psn` of message `msn`
    Ack { qpn: u32, msn: u16, last_psn: u32 },
    /// Negative acknowledgement of the request packet `ack_req_packet_psn`
    Nak { qpn: u32, base_psn: u32, ack_req_packet_psn: u32 },
}

} // verus!
