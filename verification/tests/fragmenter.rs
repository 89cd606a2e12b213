use blue_rdma_driver::device_protocol::{ChunkPos, QpParams, WorkReqOpCode, WrChunk};
use blue_rdma_driver::fragmenter::chunk::{ChunkIter, WrChunkFragmenter, WrPacketFragmenter};
use blue_rdma_driver::fragmenter::packet::{PacketFragmenter, PacketIter};
use blue_rdma_driver::fragmenter::{Fragment, Fragmenter};
use blue_rdma_driver::send::SendWrRdma;

fn fragments(f: Fragmenter) -> Vec<Fragment> {
    let mut it = f.into_iter();
    let mut out = Vec::new();
    while let Some(x) = it.next() {
        out.push(x);
    }
    out
}

fn chunks(mut it: ChunkIter) -> Vec<WrChunk> {
    let mut out = Vec::new();
    while let Some(x) = it.next() {
        out.push(x);
    }
    out
}

fn packets(mut it: PacketIter) -> Vec<WrChunk> {
    let mut out = Vec::new();
    while let Some(x) = it.next() {
        out.push(x);
    }
    out
}

#[test]
fn fragmentation() {
    let f = Fragmenter::new(1024, 256, 0x1, 2048);
    let expect = [
        Fragment {
            addr: 0x1,
            len: 1023,
            pos: ChunkPos::First,
        },
        Fragment {
            addr: 0x400,
            len: 1024,
            pos: ChunkPos::Middle,
        },
        Fragment {
            addr: 0x800,
            len: 1,
            pos: ChunkPos::Last,
        },
    ];
    assert!(fragments(f).into_iter().zip(expect).all(|(x, y)| x == y));
}

#[test]
fn fragmentation_len() {
    let f = Fragmenter::new(256, 256, 0x0, 4096);
    assert_eq!(f.into_iter().len(), 16);
    let f = Fragmenter::new(256, 256, 0x1, 4096);
    assert_eq!(f.into_iter().len(), 17);
    let f = Fragmenter::new(256, 256, 0x01, 4097);
    assert_eq!(f.into_iter().len(), 17);
    let f = Fragmenter::new(256, 256, 0xff, 4096);
    assert_eq!(f.into_iter().len(), 17);
    let f = Fragmenter::new(1024, 256, 0x0, 4096);
    assert_eq!(f.into_iter().len(), 4);
    let f = Fragmenter::new(1024, 256, 0x1, 4096);
    assert_eq!(f.into_iter().len(), 5);
    let f = Fragmenter::new(1024, 256, 0x3ff, 4096);
    assert_eq!(f.into_iter().len(), 5);
}

#[test]
fn fragments_tile_the_range() {
    let f = Fragmenter::new(1024, 256, 0x13, 5000);
    let fs = fragments(f);
    assert_eq!(fs[0].addr, 0x13);
    for w in fs.windows(2) {
        assert_eq!(w[0].addr + w[0].len, w[1].addr);
        assert_eq!(w[1].addr % 256, 0);
    }
    let last = fs[fs.len() - 1];
    assert_eq!(last.addr + last.len, 0x13 + 5000);
    assert!(fs.iter().all(|x| x.len > 0 && x.len <= 1024));
    assert_eq!(fs[0].pos, ChunkPos::First);
    assert_eq!(last.pos, ChunkPos::Last);
}

#[test]
fn single_fragment_is_only() {
    let f = Fragmenter::new(1024, 256, 0x10, 100);
    let fs = fragments(f);
    assert_eq!(
        fs,
        vec![Fragment {
            addr: 0x10,
            len: 100,
            pos: ChunkPos::Only
        }]
    );
    assert_eq!(fragments(Fragmenter::new(1024, 256, 0x10, 0)), vec![]);
}

#[test]
fn fragment_getters() {
    let f = Fragment {
        addr: 7,
        len: 9,
        pos: ChunkPos::Middle,
    };
    assert_eq!(f.addr(), 7);
    assert_eq!(f.len(), 9);
}

#[test]
fn chunk_pos_next() {
    assert_eq!(ChunkPos::First.next(), ChunkPos::Middle);
    assert_eq!(ChunkPos::Middle.next(), ChunkPos::Middle);
    assert_eq!(ChunkPos::Last.next(), ChunkPos::Last);
    assert_eq!(ChunkPos::Only.next(), ChunkPos::Only);
}

fn wr(opcode: WorkReqOpCode, raddr: u64, length: u32) -> SendWrRdma {
    SendWrRdma {
        opcode,
        raddr,
        rkey: 0x55,
        laddr: 0x9000_0000,
        lkey: 0x66,
        length,
        imm: 0x77,
        send_flags: 0x102,
    }
}

fn qp(pmtu: u8) -> QpParams {
    QpParams::new(3, 2, 0x12, 0xAABB_CCDD_EE0A, 0x34, 0x0a00_0001, pmtu)
}

#[test]
fn chunk_fragmenter_splits_and_advances_psn() {
    let it = WrChunkFragmenter::new(wr(WorkReqOpCode::Send, 0x1000, 0x18000), qp(5), 100)
        .into_iter();
    let cs = chunks(it);
    assert_eq!(cs.len(), 2);
    assert_eq!(cs[0].raddr, 0x1000);
    assert_eq!(cs[0].len, 0x10000);
    assert_eq!(cs[0].psn, 100);
    assert_eq!(cs[0].laddr, 0x9000_0000);
    assert!(cs[0].is_first && !cs[0].is_last);
    assert_eq!(cs[1].raddr, 0x11000);
    assert_eq!(cs[1].len, 0x8000);
    assert_eq!(cs[1].psn, 116);
    assert_eq!(cs[1].laddr, 0x9001_0000);
    assert!(!cs[1].is_first && cs[1].is_last);
    for c in &cs {
        assert_eq!(c.opcode, WorkReqOpCode::RdmaWrite);
        assert_eq!(c.flags, 0x02);
        assert_eq!(c.total_len, 0x18000);
        assert_eq!(c.rkey, 0x55);
        assert_eq!(c.lkey, 0x66);
        assert_eq!(c.imm, 0x77);
        assert_eq!(c.sqpn, 0x12);
        assert_eq!(c.dqpn, 0x34);
        assert_eq!(c.msn, 3);
        assert!(!c.is_retry);
    }
}

#[test]
fn chunk_psn_wraps_at_mask() {
    let it = WrChunkFragmenter::new(wr(WorkReqOpCode::RdmaWrite, 0, 0x20000), qp(5), 0xff_fffe)
        .into_iter();
    let cs = chunks(it);
    assert_eq!(cs.len(), 2);
    assert_eq!(cs[0].psn, 0xff_fffe);
    assert_eq!(cs[1].psn, (0xff_fffe + 16) % 0xff_ffff);
}

#[test]
fn packet_fragmenter_marks_retries() {
    let it = WrPacketFragmenter::new(wr(WorkReqOpCode::RdmaWrite, 0, 2049), qp(3), 7).into_iter();
    let ps = chunks(it);
    assert_eq!(ps.len(), 3);
    assert_eq!(ps.iter().map(|p| p.psn).collect::<Vec<_>>(), vec![7, 8, 9]);
    assert_eq!(ps.iter().map(|p| p.len).collect::<Vec<_>>(), vec![1024, 1024, 1]);
    assert!(ps.iter().all(|p| p.is_retry));
    assert!(ps[0].is_first && ps[2].is_last);
}

#[test]
fn packet_iter_psn_wraps() {
    let f = PacketFragmenter::new(wr(WorkReqOpCode::Send, 0, 600), WorkReqOpCode::Send, qp(1), 0xff_fffe);
    let ps = packets(f.into_iter());
    assert_eq!(ps.len(), 3);
    assert_eq!(ps.iter().map(|p| p.psn).collect::<Vec<_>>(), vec![0xff_fffe, 0, 1]);
    assert_eq!(ps.iter().map(|p| p.laddr).collect::<Vec<_>>(), vec![0x9000_0000, 0x9000_0100, 0x9000_0200]);
    assert!(ps.iter().all(|p| p.is_retry && p.opcode == WorkReqOpCode::RdmaWrite));
}
