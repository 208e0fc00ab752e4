//! Executors: hand control packets to DCP channels.
//!
//! An executor owns one channel or all four. A submission dispatches the head packet of
//! a chain on a free channel: the channel's status is cleared and its command pointer
//! written strictly before its semaphore is raised. Packets after the head run through
//! hardware chaining, with no further register writes.

use vstd::prelude::*;
use core::marker::PhantomData;
use crate::channels::{dispatch_writes, dispatched, channel_bit, Ch0, Ch1, Ch2, Ch3, Channel};
use crate::config::Region;
use crate::dcp::{setup_writes, Builder, DCP};
use crate::packet::{flag_mask, Control0, Control0Flag, ControlPacket, PACKET_BYTES};
use crate::regs::{replay, RegState, RegWrite, RegisterBlock, CTRL_ENABLE_CONTEXT_SWITCHING};

verus! {

/// Errors encountered while queueing a packet for execution.
#[derive(Debug, Clone, Copy, PartialEq, Eq, Structural)]
pub enum ExError {
    /// All the channels are busy.
    SlotsFull,
}

/// The executor has no free channel left for the submission.
#[derive(Debug, Clone, Copy, PartialEq, Eq, Structural)]
pub struct SlotsFull;

/// Size in bytes of the context switch buffer.
pub const CONTEXT_BYTES: u32 = 208;

/// `p` marked as followed by the packet at `next`: chain-continuous set, `next` linked.
pub open spec fn chained(p: ControlPacket, next: u32) -> ControlPacket {
    ControlPacket {
        next,
        control0: Control0 { flags: p.control0.flags | flag_mask(Control0Flag::ChainContinuous), ..p.control0 },
        ..p
    }
}

/// `p` marked as the last packet of a chain: the channel's semaphore is decremented
/// when it completes.
pub open spec fn ending(p: ControlPacket) -> ControlPacket {
    ControlPacket {
        control0: Control0 { flags: p.control0.flags | flag_mask(Control0Flag::DecrSemaphore), ..p.control0 },
        ..p
    }
}

/// Address of packet `i` of a contiguous array that starts at `base`.
pub open spec fn packet_addr(base: u32, i: int) -> int {
    base + PACKET_BYTES * i
}

/// The packets of a contiguous array at `base` once linked into one chain: each but the
/// last points to the one after it, the last ends the chain.
pub open spec fn linked_chain(ps: Seq<ControlPacket>, base: u32) -> Seq<ControlPacket> {
    Seq::new(
        ps.len(),
        |i: int|
            if i + 1 < ps.len() {
                chained(ps[i], packet_addr(base, i + 1) as u32)
            } else {
                ending(ps[i])
            },
    )
}

/// Executes control packets.
pub trait Executor: Sized {
    /// The registers the executor drives.
    spec fn regs(&self) -> RegisterBlock;

    /// The executor's channels are set up and owned by it.
    spec fn wf(&self) -> bool;

    /// The channel that takes the next submission, `None` when every channel is busy.
    spec fn next_channel(&self) -> Option<int>;

    /// This executor with its registers replaced by `regs` and all else kept.
    spec fn with_regs(&self, regs: RegisterBlock) -> Self;

    /// Whether a submission would be accepted now.
    fn has_free_channel(&self) -> (r: bool)
        requires
            self.wf(),
        ensures
            r == self.next_channel() is Some,
    ;

    /// Dispatches the packet at `ptr` on the next free channel, or fails with every
    /// register as it was.
    fn inner_exec(&mut self, ptr: u32) -> (r: Result<(), SlotsFull>)
        requires
            old(self).wf(),
        ensures
            final(self).wf(),
            old(self).next_channel() is None ==> r == Err::<(), SlotsFull>(SlotsFull) && *final(self) == *old(self),
            old(self).next_channel() matches Some(i) ==> {
                &&& r is Ok
                &&& 0 <= i < 4
                &&& !old(self).regs().state.busy(i)
                &&& *final(self) == old(self).with_regs(final(self).regs())
                &&& final(self).regs().state == dispatched(old(self).regs().state, i, ptr)
                &&& final(self).regs().journal@ == old(self).regs().journal@ + dispatch_writes(i, ptr)
            },
    ;

    /// Executes the single packet stored at `addr`. It is marked to decrement the
    /// channel's semaphore when done, so the channel frees up after it.
    ///
    /// Returns [`SlotsFull`] if no channel is free; nothing changes then.
    fn exec_one(&mut self, packet: &mut ControlPacket, addr: u32) -> (r: Result<(), SlotsFull>)
        requires
            old(self).wf(),
            old(packet).wf(),
        ensures
            final(self).wf(),
            final(packet).wf(),
            r is Ok <==> old(self).next_channel() is Some,
            r is Err ==> *final(self) == *old(self) && *final(packet) == *old(packet),
            old(self).next_channel() matches Some(i) ==> {
                &&& *final(packet) == ending(*old(packet))
                &&& *final(self) == old(self).with_regs(final(self).regs())
                &&& final(self).regs().state == dispatched(old(self).regs().state, i, addr)
                &&& final(self).regs().journal@ == old(self).regs().journal@ + dispatch_writes(i, addr)
            },
    {
        if !self.has_free_channel() {
            return Err(SlotsFull);
        }
        packet.control0.set(Control0Flag::DecrSemaphore);
        self.inner_exec(addr)
    }

    /// Executes the packets of a contiguous array that starts at address `base` as one
    /// chain: every packet but the last is marked chain-continuous and linked to the
    /// next, the last decrements the semaphore, and only the first one's address is
    /// handed to a channel.
    ///
    /// An empty array is accepted and changes nothing. Returns [`SlotsFull`] if no
    /// channel is free; nothing changes then.
    fn exec_slice(&mut self, packets: &mut Vec<ControlPacket>, base: u32) -> (r: Result<(), SlotsFull>)
        requires
            old(self).wf(),
            forall|i: int| 0 <= i < old(packets)@.len() ==> (#[trigger] old(packets)@[i]).wf(),
            packet_addr(base, old(packets)@.len() as int) <= u32::MAX,
        ensures
            final(self).wf(),
            old(packets)@.len() == 0 ==> r is Ok && *final(self) == *old(self) && final(packets)@ == old(packets)@,
            old(packets)@.len() > 0 ==> (r is Ok <==> old(self).next_channel() is Some),
            r is Err ==> *final(self) == *old(self) && final(packets)@ == old(packets)@,
            old(packets)@.len() > 0 ==> (old(self).next_channel() matches Some(i) ==> {
                &&& final(packets)@ == linked_chain(old(packets)@, base)
                &&& *final(self) == old(self).with_regs(final(self).regs())
                &&& final(self).regs().state == dispatched(old(self).regs().state, i, base)
                &&& final(self).regs().journal@ == old(self).regs().journal@ + dispatch_writes(i, base)
            }),
    {
        let n = packets.len();
        if n == 0 {
            return Ok(());
        }
        if !self.has_free_channel() {
            return Err(SlotsFull);
        }
        let ghost before = packets@;
        let mut i: usize = 0;
        while i + 1 < n
            invariant
                n == packets@.len(),
                n == before.len(),
                before == old(packets)@,
                0 <= i < n,
                packet_addr(base, n as int) <= u32::MAX,
                forall|j: int| 0 <= j < n ==> (#[trigger] before[j]).wf(),
                forall|j: int| 0 <= j < i ==> #[trigger] packets@[j] == chained(before[j], packet_addr(base, j + 1) as u32),
                forall|j: int| i <= j < n ==> #[trigger] packets@[j] == before[j],
            decreases n - i,
        {
            let mut p = packets[i];
            let next = base + PACKET_BYTES * (i as u32 + 1);
            p.control0.set(Control0Flag::ChainContinuous);
            p.next = next;
            packets[i] = p;
            i = i + 1;
        }
        let mut last = packets[n - 1];
        last.control0.set(Control0Flag::DecrSemaphore);
        packets[n - 1] = last;
        assert(packets@ =~= linked_chain(before, base));
        self.inner_exec(base)
    }
}

/// A single channel [`Executor`] that does not need a context switch buffer.
pub struct SingleChannel<C: Channel> {
    pub inst: DCP,
    _chan: PhantomData<C>,
}

impl<C: Channel> SingleChannel<C> {
    /// Takes the active DCP and enables channel `C`, or gives `None` if that channel is
    /// already enabled.
    pub fn take(inst: DCP) -> (r: Option<Self>)
        ensures
            (inst.0.state.channelctrl & channel_bit(C::spec_index()) != 0) <==> r is None,
            r matches Some(ex) ==> {
                let s1 = inst.0.state.apply(RegWrite::ChStatClr(C::spec_index() as usize, 0xffff_ffff));
                &&& ex.regs().state == s1.apply(RegWrite::ChannelCtrlSet(channel_bit(C::spec_index()))).apply(
                    RegWrite::ChStatClr(C::spec_index() as usize, 0xffff_ffff),
                )
                &&& ex.regs().journal@ == inst.0.journal@.push(
                    RegWrite::ChStatClr(C::spec_index() as usize, 0xffff_ffff),
                ).push(RegWrite::ChannelCtrlSet(channel_bit(C::spec_index()))).push(
                    RegWrite::ChStatClr(C::spec_index() as usize, 0xffff_ffff),
                )
            },
    {
        if C::enabled(&inst.0) {
            return None;
        }
        let mut inst = inst;
        C::clear_status(&mut inst.0);
        C::enable(&mut inst.0);
        Some(SingleChannel { inst, _chan: PhantomData })
    }

    /// Sets up the clocked DCP and enables channel `C` on it.
    pub fn new(builder: Builder) -> (r: Self)
        ensures
            ({
                let s0 = replay(builder.inst.state, setup_writes());
                let s1 = s0.apply(RegWrite::ChStatClr(C::spec_index() as usize, 0xffff_ffff));
                r.regs().state == s1.apply(RegWrite::ChannelCtrlSet(channel_bit(C::spec_index()))).apply(
                    RegWrite::ChStatClr(C::spec_index() as usize, 0xffff_ffff),
                )
            }),
            r.regs().journal@ == (builder.inst.journal@ + setup_writes()).push(
                RegWrite::ChStatClr(C::spec_index() as usize, 0xffff_ffff),
            ).push(RegWrite::ChannelCtrlSet(channel_bit(C::spec_index()))).push(
                RegWrite::ChStatClr(C::spec_index() as usize, 0xffff_ffff),
            ),
    {
        let mut builder = builder;
        builder.setup();
        let mut inst = builder.inst;
        C::clear_status(&mut inst);
        C::enable(&mut inst);
        SingleChannel { inst: DCP(inst), _chan: PhantomData }
    }

    /// Whether channel `C` has pending work.
    pub fn busy(&self) -> (r: bool)
        ensures
            r == self.regs().state.busy(C::spec_index()),
    {
        C::busy(&self.inst.0)
    }

    /// Disables the channel and gives the DCP back once the channel is idle; while it is
    /// busy the executor comes back unchanged, to be released again later.
    pub fn release(self) -> (r: Result<DCP, Self>)
        ensures
            self.regs().state.busy(C::spec_index()) <==> r is Err,
            r matches Err(ex) ==> ex == self,
            r matches Ok(d) ==> {
                &&& d.0.state == self.regs().state.apply(
                    RegWrite::ChStatClr(C::spec_index() as usize, 0xffff_ffff),
                ).apply(RegWrite::ChannelCtrlClr(channel_bit(C::spec_index())))
                &&& d.0.journal@ == self.regs().journal@.push(
                    RegWrite::ChStatClr(C::spec_index() as usize, 0xffff_ffff),
                ).push(RegWrite::ChannelCtrlClr(channel_bit(C::spec_index())))
            },
    {
        if C::busy(&self.inst.0) {
            return Err(self);
        }
        let mut inst = self.inst;
        C::disable(&mut inst.0);
        Ok(inst)
    }
}

impl<C: Channel> Executor for SingleChannel<C> {
    closed spec fn regs(&self) -> RegisterBlock {
        self.inst.0
    }

    closed spec fn with_regs(&self, regs: RegisterBlock) -> Self {
        SingleChannel { inst: DCP(regs), _chan: self._chan }
    }

    open spec fn wf(&self) -> bool {
        0 <= C::spec_index() < 4
    }

    /// The executor's own channel, if it is free.
    open spec fn next_channel(&self) -> Option<int> {
        if self.regs().state.busy(C::spec_index()) {
            None
        } else {
            Some(C::spec_index())
        }
    }

    fn has_free_channel(&self) -> (r: bool) {
        !C::busy(&self.inst.0)
    }

    fn inner_exec(&mut self, ptr: u32) -> (r: Result<(), SlotsFull>) {
        if C::busy(&self.inst.0) {
            Err(SlotsFull)
        } else {
            C::clear_and_cmdptr(&mut self.inst.0, ptr);
            C::incr_semaphore(&mut self.inst.0, 1);
            assert(self.inst.0.journal@ =~= old(self).inst.0.journal@ + dispatch_writes(C::spec_index(), ptr));
            Ok(())
        }
    }
}

/// The channel a scheduler picks: the free channel with the highest index, trying
/// channel 3, then 2, 1 and 0. `None` when all four are busy.
pub open spec fn select_channel(s: RegState) -> Option<int> {
    if !s.busy(3) {
        Some(3)
    } else if !s.busy(2) {
        Some(2)
    } else if !s.busy(1) {
        Some(1)
    } else if !s.busy(0) {
        Some(0)
    } else {
        None
    }
}

/// Writes that enable the four channels, turn on context switching and register the
/// context switch buffer at `ctx`, in order.
pub open spec fn scheduler_writes(ctx: u32) -> Seq<RegWrite> {
    seq![
        RegWrite::ChannelCtrlSet(1),
        RegWrite::ChStatClr(0, 0xffff_ffff),
        RegWrite::ChannelCtrlSet(2),
        RegWrite::ChStatClr(1, 0xffff_ffff),
        RegWrite::ChannelCtrlSet(4),
        RegWrite::ChStatClr(2, 0xffff_ffff),
        RegWrite::ChannelCtrlSet(8),
        RegWrite::ChStatClr(3, 0xffff_ffff),
        RegWrite::CtrlSet(CTRL_ENABLE_CONTEXT_SWITCHING),
        RegWrite::Context(ctx),
    ]
}

/// Writes that clear the status of each channel and disable it, channel 0 first.
pub open spec fn disable_all_writes() -> Seq<RegWrite> {
    seq![
        RegWrite::ChStatClr(0, 0xffff_ffff),
        RegWrite::ChannelCtrlClr(1),
        RegWrite::ChStatClr(1, 0xffff_ffff),
        RegWrite::ChannelCtrlClr(2),
        RegWrite::ChStatClr(2, 0xffff_ffff),
        RegWrite::ChannelCtrlClr(4),
        RegWrite::ChStatClr(3, 0xffff_ffff),
        RegWrite::ChannelCtrlClr(8),
    ]
}

/// Some channel has pending work.
pub open spec fn any_busy(s: RegState) -> bool {
    s.busy(0) || s.busy(1) || s.busy(2) || s.busy(3)
}

/// A scheduler that manages the four channels.
///
/// A submission goes to the free channel with the highest index: channel 3 first, then
/// 2, 1 and 0. The order is fixed, so the same busy channels always lead to the same
/// choice; it balances load and gives no priority between submissions.
///
/// With more than one channel active the hardware saves and restores each channel's
/// working state through a 208-byte context switch buffer, which the scheduler holds for
/// as long as it runs.
pub struct Scheduler {
    inst: DCP,
    ctx: Region,
}

impl Scheduler {
    /// The context switch buffer.
    pub closed spec fn context(&self) -> Region {
        self.ctx
    }

    /// Enables the four channels, turns on context switching and registers `buf` as the
    /// context switch buffer.
    pub fn new(inst: DCP, buf: Region) -> (r: Self)
        requires
            buf.len == CONTEXT_BYTES,
        ensures
            r.regs().state == replay(inst.0.state, scheduler_writes(buf.addr)),
            r.regs().state.channelctrl == inst.0.state.channelctrl | 1 | 2 | 4 | 8,
            r.regs().state.ctrl == inst.0.state.ctrl | CTRL_ENABLE_CONTEXT_SWITCHING,
            r.regs().state.context == buf.addr,
            forall|i: int|
                0 <= i < 4 ==> (#[trigger] r.regs().state.chan(i)).sema == inst.0.state.chan(i).sema
                    && r.regs().state.chan(i).cmdptr == inst.0.state.chan(i).cmdptr,
            r.regs().journal@ == inst.0.journal@ + scheduler_writes(buf.addr),
            r.context() == buf,
    {
        proof {
            reveal_with_fuel(replay, 11);
        }
        let mut inst = inst;
        let ws = vec![
            RegWrite::ChannelCtrlSet(1),
            RegWrite::ChStatClr(0, 0xffff_ffff),
            RegWrite::ChannelCtrlSet(2),
            RegWrite::ChStatClr(1, 0xffff_ffff),
            RegWrite::ChannelCtrlSet(4),
            RegWrite::ChStatClr(2, 0xffff_ffff),
            RegWrite::ChannelCtrlSet(8),
            RegWrite::ChStatClr(3, 0xffff_ffff),
            RegWrite::CtrlSet(CTRL_ENABLE_CONTEXT_SWITCHING),
            RegWrite::Context(buf.addr),
        ];
        assert(ws@ =~= scheduler_writes(buf.addr));
        inst.0.write_all(ws);
        Scheduler { inst, ctx: buf }
    }

    /// Whether any channel has pending work.
    pub fn busy(&self) -> (r: bool)
        ensures
            r == any_busy(self.regs().state),
    {
        Ch0::busy(&self.inst.0) || Ch1::busy(&self.inst.0) || Ch2::busy(&self.inst.0) || Ch3::busy(
            &self.inst.0,
        )
    }

    /// Disables every channel and gives the DCP back once all channels are idle; while
    /// one is busy the scheduler comes back unchanged, to be released again later.
    pub fn release(self) -> (r: Result<DCP, Self>)
        ensures
            any_busy(self.regs().state) <==> r is Err,
            r matches Err(s) ==> s == self,
            r matches Ok(d) ==> {
                &&& d.0.state == replay(self.regs().state, disable_all_writes())
                &&& d.0.state.channelctrl == self.regs().state.channelctrl & !1u32 & !2u32 & !4u32 & !8u32
                &&& d.0.journal@ == self.regs().journal@ + disable_all_writes()
            },
    {
        if self.busy() {
            return Err(self);
        }
        proof {
            reveal_with_fuel(replay, 9);
        }
        let mut inst = self.inst;
        let ws = vec![
            RegWrite::ChStatClr(0, 0xffff_ffff),
            RegWrite::ChannelCtrlClr(1),
            RegWrite::ChStatClr(1, 0xffff_ffff),
            RegWrite::ChannelCtrlClr(2),
            RegWrite::ChStatClr(2, 0xffff_ffff),
            RegWrite::ChannelCtrlClr(4),
            RegWrite::ChStatClr(3, 0xffff_ffff),
            RegWrite::ChannelCtrlClr(8),
        ];
        assert(ws@ =~= disable_all_writes());
        inst.0.write_all(ws);
        Ok(inst)
    }

    /// The registers the scheduler drives.
    pub fn registers(&self) -> (r: &RegisterBlock)
        ensures
            *r == self.regs(),
    {
        &self.inst.0
    }

    /// Records what the hardware reports for channel `i`; see [`RegisterBlock::observe`].
    pub fn observe(&mut self, i: usize, sema: u32, stat: u32)
        requires
            i < 4,
            sema <= 0xff,
        ensures
            final(self).regs().state == old(self).regs().state.with_chan(
                i as int,
                crate::regs::ChannelRegs { sema, stat, ..old(self).regs().state.chan(i as int) },
            ),
            final(self).regs().journal@ == old(self).regs().journal@,
            final(self).context() == old(self).context(),
    {
        self.inst.0.observe(i, sema, stat);
    }

    /// Takes the register writes issued so far, oldest first.
    pub fn drain_writes(&mut self) -> (r: Vec<RegWrite>)
        ensures
            r@ == old(self).regs().journal@,
            final(self).regs().journal@ == Seq::<RegWrite>::empty(),
            final(self).regs().state == old(self).regs().state,
            final(self).context() == old(self).context(),
    {
        self.inst.0.drain()
    }
}

impl Executor for Scheduler {
    closed spec fn regs(&self) -> RegisterBlock {
        self.inst.0
    }

    closed spec fn with_regs(&self, regs: RegisterBlock) -> Self {
        Scheduler { inst: DCP(regs), ctx: self.ctx }
    }

    open spec fn wf(&self) -> bool {
        true
    }

    open spec fn next_channel(&self) -> Option<int> {
        select_channel(self.regs().state)
    }

    fn has_free_channel(&self) -> (r: bool) {
        !self.busy_all()
    }

    fn inner_exec(&mut self, ptr: u32) -> (r: Result<(), SlotsFull>) {
        if !Ch3::busy(&self.inst.0) {
            Ch3::clear_and_cmdptr(&mut self.inst.0, ptr);
            Ch3::incr_semaphore(&mut self.inst.0, 1);
        } else if !Ch2::busy(&self.inst.0) {
            Ch2::clear_and_cmdptr(&mut self.inst.0, ptr);
            Ch2::incr_semaphore(&mut self.inst.0, 1);
        } else if !Ch1::busy(&self.inst.0) {
            Ch1::clear_and_cmdptr(&mut self.inst.0, ptr);
            Ch1::incr_semaphore(&mut self.inst.0, 1);
        } else if !Ch0::busy(&self.inst.0) {
            Ch0::clear_and_cmdptr(&mut self.inst.0, ptr);
            Ch0::incr_semaphore(&mut self.inst.0, 1);
        } else {
            return Err(SlotsFull);
        }
        assert(self.inst.0.journal@ =~= old(self).inst.0.journal@ + dispatch_writes(
            select_channel(old(self).inst.0.state)->0,
            ptr,
        ));
        Ok(())
    }
}

impl Scheduler {
    fn busy_all(&self) -> (r: bool)
        ensures
            r == (select_channel(self.regs().state) is None),
    {
        Ch0::busy(&self.inst.0) && Ch1::busy(&self.inst.0) && Ch2::busy(&self.inst.0) && Ch3::busy(
            &self.inst.0,
        )
    }
}

/// The scheduler refuses a submission exactly when all four channels are busy.
pub proof fn lemma_exhausted_iff_all_busy(s: RegState)
    ensures
        select_channel(s) is None <==> forall|i: int| 0 <= i < 4 ==> #[trigger] s.busy(i),
{
    if select_channel(s) is None {
        assert forall|i: int| 0 <= i < 4 implies #[trigger] s.busy(i) by {
            assert(i == 0 || i == 1 || i == 2 || i == 3);
        }
    } else {
        assert(!s.busy(select_channel(s)->0));
    }
}

/// Channel selection depends on which channels are busy and on nothing else: two
/// register states with the same busy channels select the same one.
pub proof fn lemma_selection_deterministic(s1: RegState, s2: RegState)
    requires
        forall|i: int| 0 <= i < 4 ==> s1.busy(i) == s2.busy(i),
    ensures
        select_channel(s1) == select_channel(s2),
{
    assert(s1.busy(0) == s2.busy(0) && s1.busy(1) == s2.busy(1));
    assert(s1.busy(2) == s2.busy(2) && s1.busy(3) == s2.busy(3));
}

/// Of any free channels the scheduler picks the one with the highest index, and the
/// one it picks is free.
pub proof fn lemma_selection_highest_free(s: RegState, i: int)
    requires
        0 <= i < 4,
        !s.busy(i),
    ensures
        select_channel(s) matches Some(j) && i <= j < 4 && !s.busy(j),
{
}

/// Linking a contiguous array into a chain marks every packet but the last
/// chain-continuous and points it at the packet after it; the last packet keeps its
/// link and its chain-continuous flag as they were, and is marked to decrement the
/// semaphore.
pub proof fn lemma_chain_links(ps: Seq<ControlPacket>, base: u32)
    requires
        ps.len() > 0,
        forall|i: int| 0 <= i < ps.len() ==> (#[trigger] ps[i]).wf(),
    ensures
        forall|i: int|
            0 <= i < ps.len() - 1 ==> {
                &&& (#[trigger] linked_chain(ps, base)[i]).control0.has(Control0Flag::ChainContinuous)
                &&& linked_chain(ps, base)[i].next == packet_addr(base, i + 1) as u32
            },
        linked_chain(ps, base).last().next == ps.last().next,
        linked_chain(ps, base).last().control0.has(Control0Flag::ChainContinuous) <==> ps.last().control0.has(
            Control0Flag::ChainContinuous,
        ),
        linked_chain(ps, base).last().control0.has(Control0Flag::DecrSemaphore),
{
    let n = ps.len();
    assert forall|i: int| 0 <= i < n - 1 implies {
        &&& (#[trigger] linked_chain(ps, base)[i]).control0.has(Control0Flag::ChainContinuous)
        &&& linked_chain(ps, base)[i].next == packet_addr(base, i + 1) as u32
    } by {
        crate::packet::lemma_set_bit(ps[i].control0.flags, 0x8, 0x8);
    }
    let f = ps.last().control0.flags;
    crate::packet::lemma_set_bit(f, 0x2, 0x2);
    assert(((f | 0x2) & 0x8 == 0x8) <==> (f & 0x8 == 0x8)) by (bit_vector);
}

} // verus!
