//! Send work requests, as the fragmenters read them.
use vstd::prelude::*;

use crate::device_protocol::WorkReqOpCode;

verus! {

/// An RDMA work request whose local and remote buffers are both known.
#[derive(Debug, Clone, Copy, PartialEq, Eq, Structural)]
pub struct SendWrRdma {
    /// Operation
    pub opcode: WorkReqOpCode,
    /// Remote address
    pub raddr: u64,
    /// Remote key
    pub rkey: u32,
    /// Local address
    pub laddr: u64,
    /// Local key
    pub lkey: u32,
    /// Length in bytes
    pub length: u32,
    /// Immediate data
    pub imm: u32,
    /// Send flags, as `ibv_send_flags`
    pub send_flags: u32,
}

impl SendWrRdma {
    /// Operation.
    pub fn opcode(&self) -> (r: WorkReqOpCode)
        ensures
            r == self.opcode,
    {
        self.opcode
    }

    /// Remote address.
    pub fn raddr(&self) -> (r: u64)
        ensures
            r == self.raddr,
    {
        self.raddr
    }

    /// Remote key.
    pub fn rkey(&self) -> (r: u32)
        ensures
            r == self.rkey,
    {
        self.rkey
    }

    /// Local address.
    pub fn laddr(&self) -> (r: u64)
        ensures
            r == self.laddr,
    {
        self.laddr
    }

    /// Local key.
    pub fn lkey(&self) -> (r: u32)
        ensures
            r == self.lkey,
    {
        self.lkey
    }

    /// Length in bytes.
    pub fn length(&self) -> (r: u32)
        ensures
            r == self.length,
    {
        self.length
    }

    /// Immediate data.
    pub fn imm(&self) -> (r: u32)
        ensures
            r == self.imm,
    {
        self.imm
    }

    /// Send flags.
    pub fn send_flags(&self) -> (r: u32)
        ensures
            r == self.send_flags,
    {
        self.send_flags
    }
}

} // verus!
