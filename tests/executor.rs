use imxrt_dcp::channels::{Ch0, Ch1, Ch2, Ch3, Channel};
use imxrt_dcp::config::Region;
use imxrt_dcp::dcp::{Unclocked, DCP};
use imxrt_dcp::ex::{Executor, Scheduler, SingleChannel, SlotsFull};
use imxrt_dcp::packet::{Control0, Control0Flag, ControlPacket};
use imxrt_dcp::regs::{RegWrite, RegisterBlock};

const ALL: u32 = 0xffff_ffff;

fn active() -> DCP {
    let mut ccgr0: u32 = 0;
    let dcp = Unclocked::take(RegisterBlock::new()).clock(&mut ccgr0).build();
    assert_eq!(ccgr0, 0b11 << 10);
    dcp
}

fn memcopy_packet(tag: u8) -> ControlPacket {
    let mut p = ControlPacket::zeroed();
    p.control0 = Control0::memcopy();
    p.control0.tag = tag;
    p
}

#[test]
fn lifecycle_register_sequences() {
    let mut ccgr0: u32 = 0x1;
    let builder = Unclocked::take(RegisterBlock::new()).clock(&mut ccgr0);
    assert_eq!(ccgr0, 0x1 | 0xc00);
    let mut dcp = builder.build();
    assert_eq!(
        dcp.0.drain(),
        vec![
            RegWrite::CtrlClr(0x4000_0000),
            RegWrite::CtrlSet(0x8000_0000),
            RegWrite::CtrlClr(0x8000_0000),
            RegWrite::StatClr(0xf),
            RegWrite::CtrlSet(0x00c0_0000),
        ]
    );
    assert_eq!(dcp.deref().state.ctrl, 0x00c0_0000);
    let unclocked = dcp.unclock(&mut ccgr0);
    assert_eq!(ccgr0, 0x1);
    let regs = unclocked.release();
    assert_eq!(regs.journal, vec![RegWrite::StatClr(0xf), RegWrite::CtrlSet(0x8000_0000)]);
    assert_eq!(regs.state.ctrl, 0x80c0_0000);
}

#[test]
fn single_channel_take_enables_its_channel() {
    let mut dcp = active();
    dcp.0.drain();
    let mut ex = SingleChannel::<Ch2>::take(dcp).unwrap();
    assert_eq!(
        ex.inst.0.drain(),
        vec![RegWrite::ChStatClr(2, ALL), RegWrite::ChannelCtrlSet(4), RegWrite::ChStatClr(2, ALL)]
    );
    assert!(Ch2::enabled(&ex.inst.0));
    let again = SingleChannel::<Ch2>::take(ex.inst);
    assert!(again.is_none());
}

#[test]
fn single_channel_submission_writes_in_order() {
    let mut ex = SingleChannel::<Ch0>::take(active()).unwrap();
    ex.inst.0.drain();
    let mut p = memcopy_packet(1);
    assert_eq!(ex.exec_one(&mut p, 0x2000_0000), Ok(()));
    assert_eq!(
        ex.inst.0.drain(),
        vec![RegWrite::ChStatClr(0, ALL), RegWrite::CmdPtr(0, 0x2000_0000), RegWrite::Sema(0, 1)]
    );
    assert_eq!(p.control0.flags, 0x10 | 0x2);
    assert!(ex.busy());
}

#[test]
fn busy_single_channel_refuses_and_leaves_registers() {
    let mut ex = SingleChannel::<Ch1>::take(active()).unwrap();
    let mut first = memcopy_packet(1);
    assert_eq!(ex.exec_one(&mut first, 0x2000_0000), Ok(()));
    let before = ex.inst.0.state;
    let journal_len = ex.inst.0.journal.len();
    let mut second = memcopy_packet(2);
    let second_before = second;
    assert_eq!(ex.exec_one(&mut second, 0x2000_0020), Err(SlotsFull));
    assert_eq!(ex.inst.0.state, before);
    assert_eq!(ex.inst.0.state.ch1.cmdptr, 0x2000_0000);
    assert_eq!(ex.inst.0.state.ch1.sema, 1);
    assert_eq!(ex.inst.0.journal.len(), journal_len);
    assert_eq!(second, second_before);
    let mut slice = vec![memcopy_packet(3), memcopy_packet(4)];
    assert_eq!(ex.exec_slice(&mut slice, 0x2000_0100), Err(SlotsFull));
    assert_eq!(slice, vec![memcopy_packet(3), memcopy_packet(4)]);
    assert_eq!(ex.inst.0.state, before);
}

#[test]
fn single_channel_release_only_when_idle() {
    let mut ex = SingleChannel::<Ch3>::take(active()).unwrap();
    let mut p = memcopy_packet(1);
    ex.exec_one(&mut p, 0x2000_0000).unwrap();
    let mut ex = match ex.release() {
        Ok(_) => panic!("released while busy"),
        Err(ex) => ex,
    };
    ex.inst.0.observe(3, 0, 1);
    ex.inst.0.drain();
    let mut dcp = match ex.release() {
        Ok(d) => d,
        Err(_) => panic!("idle channel not released"),
    };
    assert_eq!(dcp.0.drain(), vec![RegWrite::ChStatClr(3, ALL), RegWrite::ChannelCtrlClr(8)]);
    assert!(!Ch3::enabled(&dcp.0));
}

#[test]
fn single_channel_from_builder_runs_setup() {
    let mut ccgr0: u32 = 0;
    let builder = Unclocked::take(RegisterBlock::new()).clock(&mut ccgr0);
    let mut ex = SingleChannel::<Ch1>::new(builder);
    assert_eq!(
        ex.inst.0.drain(),
        vec![
            RegWrite::CtrlSet(0x8000_0000),
            RegWrite::CtrlClr(0x8000_0000),
            RegWrite::CtrlSet(0x00c0_0000),
            RegWrite::StatClr(0xf),
            RegWrite::ChStatClr(1, ALL),
            RegWrite::ChannelCtrlSet(2),
            RegWrite::ChStatClr(1, ALL),
        ]
    );
}

#[test]
fn scheduler_registers_context_buffer() {
    let mut dcp = active();
    dcp.0.drain();
    let mut s = Scheduler::new(dcp, Region { addr: 0x2000_4000, len: 208 });
    assert_eq!(
        s.drain_writes(),
        vec![
            RegWrite::ChannelCtrlSet(1),
            RegWrite::ChStatClr(0, ALL),
            RegWrite::ChannelCtrlSet(2),
            RegWrite::ChStatClr(1, ALL),
            RegWrite::ChannelCtrlSet(4),
            RegWrite::ChStatClr(2, ALL),
            RegWrite::ChannelCtrlSet(8),
            RegWrite::ChStatClr(3, ALL),
            RegWrite::CtrlSet(0x0020_0000),
            RegWrite::Context(0x2000_4000),
        ]
    );
    assert_eq!(s.registers().state.channelctrl, 0xf);
    assert!(Ch0::enabled(s.registers()) && Ch1::enabled(s.registers()));
}

#[test]
fn scheduler_exhausted_only_when_all_four_busy() {
    let mut s = Scheduler::new(active(), Region { addr: 0x2000_4000, len: 208 });
    for i in 0..4u32 {
        assert!(s.has_free_channel());
        let mut p = memcopy_packet(i as u8);
        assert_eq!(s.exec_one(&mut p, 0x2000_0000 + 32 * i), Ok(()));
    }
    assert!(s.busy());
    assert!(!s.has_free_channel());
    let before = s.registers().state;
    let mut p = memcopy_packet(9);
    assert_eq!(s.exec_one(&mut p, 0x2000_0100), Err(SlotsFull));
    assert_eq!(s.registers().state, before);
    s.observe(1, 0, 1);
    assert!(s.has_free_channel());
    s.drain_writes();
    assert_eq!(s.exec_one(&mut p, 0x2000_0100), Ok(()));
    assert_eq!(
        s.drain_writes(),
        vec![RegWrite::ChStatClr(1, ALL), RegWrite::CmdPtr(1, 0x2000_0100), RegWrite::Sema(1, 1)]
    );
}

#[test]
fn scheduler_picks_highest_free_channel_every_time() {
    let mut s = Scheduler::new(active(), Region { addr: 0x2000_4000, len: 208 });
    // channels 1 and 3 busy, 0 and 2 free
    s.observe(1, 1, 0);
    s.observe(3, 1, 0);
    for round in 0..3u32 {
        s.drain_writes();
        let mut p = memcopy_packet(round as u8);
        assert_eq!(s.exec_one(&mut p, 0x2000_0000), Ok(()));
        let w = s.drain_writes();
        assert_eq!(w[1], RegWrite::CmdPtr(2, 0x2000_0000));
        // the hardware finishes channel 2 before the next round
        s.observe(2, 0, 1);
    }
    let mut order = Vec::new();
    for i in 0..4u32 {
        let mut p = memcopy_packet(0);
        s.drain_writes();
        let _ = s.exec_one(&mut p, 0x2000_0000 + 32 * i);
        if let Some(RegWrite::CmdPtr(c, _)) = s.drain_writes().get(1).copied() {
            order.push(c);
        }
    }
    assert_eq!(order, vec![2, 0]);
}

#[test]
fn exec_slice_links_a_contiguous_chain() {
    let mut ex = SingleChannel::<Ch0>::take(active()).unwrap();
    ex.inst.0.drain();
    let a = memcopy_packet(1);
    let b = memcopy_packet(2);
    let c = memcopy_packet(3);
    let mut packets = vec![a, b, c];
    assert_eq!(ex.exec_slice(&mut packets, 0x2000_0000), Ok(()));
    assert_eq!(packets[0].control0.flags, 0x10 | 0x8);
    assert_eq!(packets[1].control0.flags, 0x10 | 0x8);
    assert_eq!(packets[2].control0.flags, 0x10 | 0x2);
    assert!(!packets[2].control0.has_flag(Control0Flag::ChainContinuous));
    assert_eq!(packets[0].next, 0x2000_0020);
    assert_eq!(packets[1].next, 0x2000_0040);
    assert_eq!(packets[2].next, 0);
    assert_eq!(
        ex.inst.0.drain(),
        vec![RegWrite::ChStatClr(0, ALL), RegWrite::CmdPtr(0, 0x2000_0000), RegWrite::Sema(0, 1)]
    );
}

#[test]
fn exec_slice_of_nothing_changes_nothing() {
    let mut s = Scheduler::new(active(), Region { addr: 0x2000_4000, len: 208 });
    s.drain_writes();
    let mut packets: Vec<ControlPacket> = Vec::new();
    assert_eq!(s.exec_slice(&mut packets, 0x2000_0000), Ok(()));
    assert!(s.drain_writes().is_empty());
    assert!(!s.busy());
}

#[test]
fn scheduler_release_waits_for_all_channels() {
    let mut s = Scheduler::new(active(), Region { addr: 0x2000_4000, len: 208 });
    let mut p = memcopy_packet(0);
    s.exec_one(&mut p, 0x2000_0000).unwrap();
    let mut s = match s.release() {
        Ok(_) => panic!("released while busy"),
        Err(s) => s,
    };
    s.observe(3, 0, 1);
    s.drain_writes();
    let mut dcp = match s.release() {
        Ok(d) => d,
        Err(_) => panic!("idle scheduler not released"),
    };
    assert_eq!(dcp.0.drain().len(), 8);
    assert_eq!(dcp.0.state.channelctrl, 0);
    assert!(!Ch0::enabled(&dcp.0) && !Ch1::enabled(&dcp.0));
}
