//! The four DCP channels and their register protocol.

use vstd::prelude::*;
use crate::regs::{RegState, RegWrite, RegisterBlock, NUM_CHANNELS};

verus! {

/// The bit of channel `i` in CHANNELCTRL.
pub open spec fn channel_bit(i: int) -> u32 {
    if i == 0 {
        1
    } else if i == 1 {
        2
    } else if i == 2 {
        4
    } else {
        8
    }
}

/// Writes that clear the status of channel `i` and point it at the packet at `ptr`,
/// in that order.
pub open spec fn arm_writes(i: int, ptr: u32) -> Seq<RegWrite> {
    seq![RegWrite::ChStatClr(i as usize, 0xffff_ffff), RegWrite::CmdPtr(i as usize, ptr)]
}

/// Writes that dispatch the packet at `ptr` on channel `i`: status cleared and command
/// pointer stored strictly before the semaphore is raised by one.
pub open spec fn dispatch_writes(i: int, ptr: u32) -> Seq<RegWrite> {
    arm_writes(i, ptr).push(RegWrite::Sema(i as usize, 1))
}

/// The register values after dispatching the packet at `ptr` on channel `i`.
pub open spec fn dispatched(s: RegState, i: int, ptr: u32) -> RegState {
    s.apply(RegWrite::ChStatClr(i as usize, 0xffff_ffff)).apply(RegWrite::CmdPtr(i as usize, ptr)).apply(
        RegWrite::Sema(i as usize, 1),
    )
}

/// Trait implemented for the DCP channels.
pub trait Channel {
    /// Which of the four channels this is.
    spec fn spec_index() -> int;

    fn index() -> (r: usize)
        ensures
            r == Self::spec_index(),
            r < NUM_CHANNELS,
    ;

    /// The channel's bit in CHANNELCTRL.
    fn channel_bit() -> (r: u32)
        ensures
            r == channel_bit(Self::spec_index()),
    {
        let i = Self::index();
        if i == 0 {
            1
        } else if i == 1 {
            2
        } else if i == 2 {
            4
        } else {
            8
        }
    }

    /// Stores the address of the head packet. Does not start execution.
    fn write_cmdptr(inst: &mut RegisterBlock, ptr: u32)
        ensures
            final(inst).state == old(inst).state.apply(RegWrite::CmdPtr(Self::spec_index() as usize, ptr)),
            final(inst).journal@ == old(inst).journal@.push(RegWrite::CmdPtr(Self::spec_index() as usize, ptr)),
    {
        inst.write(RegWrite::CmdPtr(Self::index(), ptr));
    }

    /// Raises the semaphore by `value`, which starts the pending operation(s).
    fn incr_semaphore(inst: &mut RegisterBlock, value: u32)
        requires
            old(inst).state.chan(Self::spec_index()).sema + value <= 0xff,
        ensures
            final(inst).state == old(inst).state.apply(RegWrite::Sema(Self::spec_index() as usize, value)),
            final(inst).journal@ == old(inst).journal@.push(RegWrite::Sema(Self::spec_index() as usize, value)),
    {
        inst.write(RegWrite::Sema(Self::index(), value));
    }

    /// Clears the status register of the channel.
    fn clear_status(inst: &mut RegisterBlock)
        ensures
            final(inst).state == old(inst).state.apply(RegWrite::ChStatClr(Self::spec_index() as usize, 0xffff_ffff)),
            final(inst).journal@ == old(inst).journal@.push(
                RegWrite::ChStatClr(Self::spec_index() as usize, 0xffff_ffff),
            ),
    {
        inst.write(RegWrite::ChStatClr(Self::index(), 0xffff_ffff));
    }

    /// Whether the channel has pending work.
    fn busy(inst: &RegisterBlock) -> (r: bool)
        ensures
            r == inst.state.busy(Self::spec_index()),
    {
        inst.busy(Self::index())
    }

    /// Whether the channel is enabled in CHANNELCTRL.
    fn enabled(inst: &RegisterBlock) -> (r: bool)
        ensures
            r == (inst.state.channelctrl & channel_bit(Self::spec_index()) != 0),
    {
        inst.state.channelctrl & Self::channel_bit() != 0
    }

    /// Enables the channel, then clears its status.
    fn enable(inst: &mut RegisterBlock)
        ensures
            final(inst).state == old(inst).state.apply(RegWrite::ChannelCtrlSet(channel_bit(Self::spec_index()))).apply(
                RegWrite::ChStatClr(Self::spec_index() as usize, 0xffff_ffff),
            ),
            final(inst).journal@ == old(inst).journal@.push(RegWrite::ChannelCtrlSet(channel_bit(Self::spec_index()))).push(
                RegWrite::ChStatClr(Self::spec_index() as usize, 0xffff_ffff),
            ),
    {
        inst.write(RegWrite::ChannelCtrlSet(Self::channel_bit()));
        Self::clear_status(inst);
    }

    /// Clears the channel's status, then disables it. Valid only once the channel is
    /// idle.
    fn disable(inst: &mut RegisterBlock)
        requires
            !old(inst).state.busy(Self::spec_index()),
        ensures
            final(inst).state == old(inst).state.apply(RegWrite::ChStatClr(Self::spec_index() as usize, 0xffff_ffff)).apply(
                RegWrite::ChannelCtrlClr(channel_bit(Self::spec_index())),
            ),
            final(inst).journal@ == old(inst).journal@.push(
                RegWrite::ChStatClr(Self::spec_index() as usize, 0xffff_ffff),
            ).push(RegWrite::ChannelCtrlClr(channel_bit(Self::spec_index()))),
    {
        Self::clear_status(inst);
        inst.write(RegWrite::ChannelCtrlClr(Self::channel_bit()));
    }

    /// Clears the status, then writes the control packet pointer.
    fn clear_and_cmdptr(inst: &mut RegisterBlock, ptr: u32)
        ensures
            final(inst).state == old(inst).state.apply(RegWrite::ChStatClr(Self::spec_index() as usize, 0xffff_ffff)).apply(
                RegWrite::CmdPtr(Self::spec_index() as usize, ptr),
            ),
            final(inst).journal@ == old(inst).journal@ + arm_writes(Self::spec_index(), ptr),
    {
        Self::clear_status(inst);
        Self::write_cmdptr(inst, ptr);
        assert(final(inst).journal@ =~= old(inst).journal@ + arm_writes(Self::spec_index(), ptr));
    }
}

/// Channel `N` of the DCP.
pub struct Ch<const N: u8>;

pub type Ch0 = Ch<0>;
pub type Ch1 = Ch<1>;
pub type Ch2 = Ch<2>;
pub type Ch3 = Ch<3>;

impl Channel for Ch<0> {
    open spec fn spec_index() -> int {
        0
    }

    fn index() -> (r: usize) {
        0
    }
}

impl Channel for Ch<1> {
    open spec fn spec_index() -> int {
        1
    }

    fn index() -> (r: usize) {
        1
    }
}

impl Channel for Ch<2> {
    open spec fn spec_index() -> int {
        2
    }

    fn index() -> (r: usize) {
        2
    }
}

impl Channel for Ch<3> {
    open spec fn spec_index() -> int {
        3
    }

    fn index() -> (r: usize) {
        3
    }
}

} // verus!
