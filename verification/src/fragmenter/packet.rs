//! Splitting a work request into packets, each sent again as a retransmission.
use vstd::prelude::*;

use super::chunk::{chunk_base, chunk_of, lemma_num_segments_small};
use super::{div_ceil_spec, lemma_fragment_positions, Fragment, Fragmenter, IntoIter};
use crate::constants::PSN_MASK;
use crate::device_protocol::{QpParams, WithIbvParams, WorkReqOpCode, WrChunk, WrChunkBuilder};
use crate::qp::{convert_ibv_mtu_to_u16, spec_mtu_bytes};
use crate::send::SendWrRdma;

verus! {

/// Splits a work request into packets of one path MTU each.
#[derive(Debug)]
pub struct PacketFragmenter {
    /// The work request
    pub wr: SendWrRdma,
    /// Operation the packets are built for
    pub opcode: WorkReqOpCode,
    /// Parameters of the queue pair
    pub qp_param: QpParams,
    /// Packet sequence number of the first packet
    pub base_psn: u32,
}

impl PacketFragmenter {
    /// Gathers what a split needs.
    pub fn new(wr: SendWrRdma, opcode: WorkReqOpCode, qp_param: QpParams, base_psn: u32) -> (r:
        Self)
        ensures
            r == (PacketFragmenter { wr, opcode, qp_param, base_psn }),
    {
        Self { wr, opcode, qp_param, base_psn }
    }

    /// The fragments of the remote range, one per packet.
    pub open spec fn fragments(self) -> Seq<Fragment> {
        Fragmenter {
            segment_size: spec_mtu_bytes(self.qp_param.pmtu) as u64,
            align: spec_mtu_bytes(self.qp_param.pmtu) as u64,
            base_addr: self.wr.raddr,
            end_addr: (self.wr.raddr + self.wr.length) as u64,
        }.fragments()
    }

    /// Starts iterating over the packets.
    pub fn into_iter(self) -> (it: PacketIter)
        requires
            1 <= self.qp_param.pmtu <= 5,
            self.wr.raddr + self.wr.length + spec_mtu_bytes(self.qp_param.pmtu) <= u64::MAX,
            self.wr.laddr + self.wr.length <= u64::MAX,
        ensures
            it.wf(),
            it.remaining() == self.fragments(),
            it.base() == chunk_base(self.wr, self.qp_param),
            it.psn() == self.base_psn,
            it.laddr() == self.wr.laddr,
    {
        let pmtu: u64 = match convert_ibv_mtu_to_u16(self.qp_param.pmtu) {
            Some(m) => m as u64,
            None => vstd::pervasive::unreached(),
        };
        let f = Fragmenter::new(pmtu, pmtu, self.wr.raddr(), self.wr.length() as u64);
        proof {
            lemma_num_segments_small(f);
        }
        let builder = WrChunkBuilder::new_with_opcode(self.opcode).set_qp_params(
            self.qp_param,
        ).set_ibv_params(
            self.wr.send_flags() as u8,
            self.wr.rkey(),
            self.wr.length(),
            self.wr.lkey(),
            self.wr.imm(),
        );
        PacketIter {
            inner: f.into_iter(),
            psn: self.base_psn,
            base: builder.inner,
            laddr: self.wr.laddr(),
        }
    }
}

/// Of the packets of a work request that is not empty, exactly the first starts the message
/// and exactly the last ends it; a work request of one packet gives a packet that does both.
pub proof fn lemma_packet_first_last(frag: PacketFragmenter, psn: u32, laddr: u64)
    requires
        frag.wr.length > 0,
        1 <= frag.qp_param.pmtu <= 5,
        frag.wr.raddr + frag.wr.length <= u64::MAX,
    ensures
        ({
            let fs = frag.fragments();
            let b = chunk_base(frag.wr, frag.qp_param);
            &&& fs.len() >= 1
            &&& forall|k: int|
                0 <= k < fs.len() ==> {
                    &&& (#[trigger] chunk_of(b, psn, laddr, fs[k], true)).is_last <==> k
                        == fs.len() - 1
                    &&& chunk_of(b, psn, laddr, fs[k], true).is_first <==> k == 0
                }
        }),
{
    let mtu = spec_mtu_bytes(frag.qp_param.pmtu) as u64;
    let f = Fragmenter {
        segment_size: mtu,
        align: mtu,
        base_addr: frag.wr.raddr,
        end_addr: (frag.wr.raddr + frag.wr.length) as u64,
    };
    let first_aligned = super::align_down((f.base_addr + f.segment_size) as u64, f.align);
    let remaining: int = if f.end_addr >= first_aligned {
        f.end_addr - first_aligned
    } else {
        0
    };
    assert(f.segment_size > 0);
    vstd::arithmetic::div_mod::lemma_div_pos_is_pos(remaining, f.segment_size as int);
    assert(div_ceil_spec(remaining, f.segment_size as int) >= 0);
    assert(f.spec_num_segments() >= 1);
    lemma_fragment_positions(f);
}

/// Iterator over the packets of a work request.
pub struct PacketIter {
    inner: IntoIter,
    psn: u32,
    base: WrChunk,
    laddr: u64,
}

impl PacketIter {
    /// Every remaining step stays within bounds.
    pub closed spec fn wf(&self) -> bool {
        &&& self.inner.wf()
        &&& self.inner.spec_current() <= self.inner.spec_end()
        &&& self.laddr + (self.inner.spec_end() - self.inner.spec_current()) <= u64::MAX
    }

    /// The fragments whose packets are still to come.
    pub closed spec fn remaining(&self) -> Seq<Fragment> {
        self.inner.remaining()
    }

    /// The chunk every packet starts from.
    pub closed spec fn base(&self) -> WrChunk {
        self.base
    }

    /// Packet sequence number of the next packet.
    pub closed spec fn psn(&self) -> u32 {
        self.psn
    }

    /// Local address of the next packet.
    pub closed spec fn laddr(&self) -> u64 {
        self.laddr
    }

    /// Yields the next packet, marked as a retransmission. The packet after it has the next
    /// sequence number, wrapping at `PSN_MASK`.
    pub fn next(&mut self) -> (r: Option<WrChunk>)
        requires
            old(self).wf(),
        ensures
            final(self).wf(),
            final(self).base() == old(self).base(),
            old(self).remaining().len() == 0 ==> r is None,
            old(self).remaining().len() > 0 ==> {
                let f = old(self).remaining()[0];
                &&& r == Some(chunk_of(old(self).base(), old(self).psn(), old(self).laddr(), f, true))
                &&& final(self).remaining() == old(self).remaining().drop_first()
                &&& final(self).psn() == (old(self).psn() + 1) % (PSN_MASK as int)
                &&& final(self).laddr() == old(self).laddr() + f.len
            },
    {
        let f = match self.inner.next() {
            Some(f) => f,
            None => return None,
        };
        let builder = WrChunkBuilder::<WithIbvParams> {
            inner: self.base,
            state: core::marker::PhantomData,
        };
        let chunk = builder.set_chunk_meta(self.psn, self.laddr, f.addr(), f.len() as u32, f.pos)
            .set_is_retry().build();
        self.psn = ((self.psn as u64 + 1) % (PSN_MASK as u64)) as u32;
        self.laddr = self.laddr + f.len();
        Some(chunk)
    }
}

} // verus!
