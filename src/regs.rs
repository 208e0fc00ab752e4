//! An in-memory model of the DCP register block.
//!
//! [`RegisterBlock`] holds the value of each register the driver uses and a journal of
//! every write in the order it was issued. The driver logic only ever changes registers
//! through [`RegisterBlock::write`], so the journal is exactly the sequence of bus writes
//! that a platform layer has to replay on the device. What the hardware changes on its
//! own (a semaphore counting down, a channel status) comes back through
//! [`RegisterBlock::observe`].

use vstd::prelude::*;

verus! {

/// Number of DCP channels.
pub const NUM_CHANNELS: usize = 4;

/// CTRL: soft reset.
pub const CTRL_SFTRST: u32 = 0x8000_0000;
/// CTRL: clock gate.
pub const CTRL_CLKGATE: u32 = 0x4000_0000;
/// CTRL: gather residual writes for unaligned operations.
pub const CTRL_GATHER_RESIDUAL_WRITES: u32 = 0x0080_0000;
/// CTRL: context caching.
pub const CTRL_ENABLE_CONTEXT_CACHING: u32 = 0x0040_0000;
/// CTRL: context switching between channels.
pub const CTRL_ENABLE_CONTEXT_SWITCHING: u32 = 0x0020_0000;
/// STAT: the four channel interrupt request bits.
pub const STAT_IRQ: u32 = 0xf;

/// The registers of one channel.
#[derive(Debug, Clone, Copy, PartialEq, Eq, Structural)]
pub struct ChannelRegs {
    /// Address of the head packet.
    pub cmdptr: u32,
    /// Pending dispatches; nonzero while the channel has work.
    pub sema: u32,
    /// Channel status bits.
    pub stat: u32,
}

/// One register write, as issued on the bus.
#[derive(Debug, Clone, Copy, PartialEq, Eq, Structural)]
pub enum RegWrite {
    /// CTRL_SET: sets the given CTRL bits.
    CtrlSet(u32),
    /// CTRL_CLR: clears the given CTRL bits.
    CtrlClr(u32),
    /// STAT_CLR: clears the given STAT bits.
    StatClr(u32),
    /// CHANNELCTRL_SET: enables the given channels.
    ChannelCtrlSet(u32),
    /// CHANNELCTRL_CLR: disables the given channels.
    ChannelCtrlClr(u32),
    /// CONTEXT: address of the context switch buffer.
    Context(u32),
    /// CHnCMDPTR of a channel: address of its head packet.
    CmdPtr(usize, u32),
    /// CHnSEMA of a channel: adds the value to its semaphore and starts it.
    Sema(usize, u32),
    /// CHnSTAT_CLR of a channel: clears the given status bits.
    ChStatClr(usize, u32),
}

/// Register values of the peripheral.
#[derive(Debug, Clone, Copy, PartialEq, Eq, Structural)]
pub struct RegState {
    pub ctrl: u32,
    pub stat: u32,
    pub channelctrl: u32,
    pub context: u32,
    pub ch0: ChannelRegs,
    pub ch1: ChannelRegs,
    pub ch2: ChannelRegs,
    pub ch3: ChannelRegs,
}

impl RegState {
    /// The registers of channel `i`.
    pub open spec fn chan(self, i: int) -> ChannelRegs {
        if i == 0 {
            self.ch0
        } else if i == 1 {
            self.ch1
        } else if i == 2 {
            self.ch2
        } else {
            self.ch3
        }
    }

    /// This state with the registers of channel `i` replaced.
    pub open spec fn with_chan(self, i: int, c: ChannelRegs) -> RegState {
        if i == 0 {
            RegState { ch0: c, ..self }
        } else if i == 1 {
            RegState { ch1: c, ..self }
        } else if i == 2 {
            RegState { ch2: c, ..self }
        } else {
            RegState { ch3: c, ..self }
        }
    }

    /// Channel `i` has pending work.
    pub open spec fn busy(self, i: int) -> bool {
        self.chan(i).sema != 0
    }

    /// A write the peripheral accepts here: it names a channel that exists, and a
    /// semaphore increment keeps the 8-bit counter in range.
    pub open spec fn accepts(self, w: RegWrite) -> bool {
        match w {
            RegWrite::CmdPtr(c, _) => c < NUM_CHANNELS,
            RegWrite::Sema(c, n) => c < NUM_CHANNELS && self.chan(c as int).sema + n <= 0xff,
            RegWrite::ChStatClr(c, _) => c < NUM_CHANNELS,
            _ => true,
        }
    }

    /// The register values after write `w`.
    pub open spec fn apply(self, w: RegWrite) -> RegState {
        match w {
            RegWrite::CtrlSet(m) => RegState { ctrl: self.ctrl | m, ..self },
            RegWrite::CtrlClr(m) => RegState { ctrl: self.ctrl & !m, ..self },
            RegWrite::StatClr(m) => RegState { stat: self.stat & !m, ..self },
            RegWrite::ChannelCtrlSet(m) => RegState { channelctrl: self.channelctrl | m, ..self },
            RegWrite::ChannelCtrlClr(m) => RegState { channelctrl: self.channelctrl & !m, ..self },
            RegWrite::Context(a) => RegState { context: a, ..self },
            RegWrite::CmdPtr(c, a) => self.with_chan(c as int, ChannelRegs { cmdptr: a, ..self.chan(c as int) }),
            RegWrite::Sema(c, n) => self.with_chan(
                c as int,
                ChannelRegs { sema: (self.chan(c as int).sema + n) as u32, ..self.chan(c as int) },
            ),
            RegWrite::ChStatClr(c, m) => self.with_chan(
                c as int,
                ChannelRegs { stat: self.chan(c as int).stat & !m, ..self.chan(c as int) },
            ),
        }
    }

    /// The registers of channel `i`.
    pub fn channel(&self, i: usize) -> (r: ChannelRegs)
        requires
            i < NUM_CHANNELS,
        ensures
            r == self.chan(i as int),
    {
        if i == 0 {
            self.ch0
        } else if i == 1 {
            self.ch1
        } else if i == 2 {
            self.ch2
        } else {
            self.ch3
        }
    }

    fn set_channel(&mut self, i: usize, c: ChannelRegs)
        requires
            i < NUM_CHANNELS,
        ensures
            *final(self) == old(self).with_chan(i as int, c),
    {
        if i == 0 {
            self.ch0 = c;
        } else if i == 1 {
            self.ch1 = c;
        } else if i == 2 {
            self.ch2 = c;
        } else {
            self.ch3 = c;
        }
    }
}

/// The register values after writes `ws`, applied first to last.
pub open spec fn replay(s: RegState, ws: Seq<RegWrite>) -> RegState
    decreases ws.len(),
{
    if ws.len() == 0 {
        s
    } else {
        replay(s, ws.drop_last()).apply(ws.last())
    }
}

/// Issues `w` after the writes `ws` already replayed: the replay extends by one.
pub proof fn lemma_replay_push(s: RegState, ws: Seq<RegWrite>, w: RegWrite)
    ensures
        replay(s, ws.push(w)) == replay(s, ws).apply(w),
{
    assert(ws.push(w).drop_last() =~= ws);
}

/// A write that every register state accepts: no semaphore increment, and any channel
/// it names exists.
pub open spec fn always_accepted(w: RegWrite) -> bool {
    match w {
        RegWrite::CmdPtr(c, _) => c < NUM_CHANNELS,
        RegWrite::Sema(_, _) => false,
        RegWrite::ChStatClr(c, _) => c < NUM_CHANNELS,
        _ => true,
    }
}

/// The DCP registers and the journal of writes issued to them.
pub struct RegisterBlock {
    pub state: RegState,
    pub journal: Vec<RegWrite>,
}

impl RegisterBlock {
    /// The registers out of reset: soft reset and clock gate set, everything else zero,
    /// and nothing written yet.
    pub fn new() -> (r: RegisterBlock)
        ensures
            r.state.ctrl == CTRL_SFTRST | CTRL_CLKGATE,
            r.state.stat == 0 && r.state.channelctrl == 0 && r.state.context == 0,
            forall|i: int| 0 <= i < 4 ==> r.state.chan(i) == (ChannelRegs { cmdptr: 0, sema: 0, stat: 0 }),
            r.journal@ == Seq::<RegWrite>::empty(),
    {
        let c = ChannelRegs { cmdptr: 0, sema: 0, stat: 0 };
        RegisterBlock {
            state: RegState {
                ctrl: CTRL_SFTRST | CTRL_CLKGATE,
                stat: 0,
                channelctrl: 0,
                context: 0,
                ch0: c,
                ch1: c,
                ch2: c,
                ch3: c,
            },
            journal: Vec::new(),
        }
    }

    /// Issues one register write.
    pub fn write(&mut self, w: RegWrite)
        requires
            old(self).state.accepts(w),
        ensures
            final(self).state == old(self).state.apply(w),
            final(self).journal@ == old(self).journal@.push(w),
    {
        match w {
            RegWrite::CtrlSet(m) => self.state.ctrl = self.state.ctrl | m,
            RegWrite::CtrlClr(m) => self.state.ctrl = self.state.ctrl & !m,
            RegWrite::StatClr(m) => self.state.stat = self.state.stat & !m,
            RegWrite::ChannelCtrlSet(m) => self.state.channelctrl = self.state.channelctrl | m,
            RegWrite::ChannelCtrlClr(m) => self.state.channelctrl = self.state.channelctrl & !m,
            RegWrite::Context(a) => self.state.context = a,
            RegWrite::CmdPtr(c, a) => {
                let ch = self.state.channel(c);
                self.state.set_channel(c, ChannelRegs { cmdptr: a, ..ch });
            },
            RegWrite::Sema(c, n) => {
                let ch = self.state.channel(c);
                self.state.set_channel(c, ChannelRegs { sema: ch.sema + n, ..ch });
            },
            RegWrite::ChStatClr(c, m) => {
                let ch = self.state.channel(c);
                self.state.set_channel(c, ChannelRegs { stat: ch.stat & !m, ..ch });
            },
        }
        self.journal.push(w);
    }



    /// Issues the writes of `ws`, first to last.
    pub fn write_all(&mut self, ws: Vec<RegWrite>)
        requires
            forall|w: RegWrite| #![auto] ws@.contains(w) ==> always_accepted(w),
        ensures
            final(self).state == replay(old(self).state, ws@),
            final(self).journal@ == old(self).journal@ + ws@,
    {
        let mut i: usize = 0;
        while i < ws.len()
            invariant
                i <= ws@.len(),
                forall|w: RegWrite| #![auto] ws@.contains(w) ==> always_accepted(w),
                self.state == replay(old(self).state, ws@.subrange(0, i as int)),
                self.journal@ == old(self).journal@ + ws@.subrange(0, i as int),
            decreases ws@.len() - i,
        {
            let w = ws[i];
            assert(ws@.contains(w));
            assert(always_accepted(w));
            proof {
                lemma_replay_push(old(self).state, ws@.subrange(0, i as int), w);
                assert(ws@.subrange(0, i as int).push(w) =~= ws@.subrange(0, i as int + 1));
            }
            self.write(w);
            assert(self.journal@ =~= old(self).journal@ + ws@.subrange(0, i as int + 1));
            i = i + 1;
        }
        assert(ws@.subrange(0, ws@.len() as int) =~= ws@);
    }

    /// Whether channel `i` has pending work.
    pub fn busy(&self, i: usize) -> (r: bool)
        requires
            i < NUM_CHANNELS,
        ensures
            r == self.state.busy(i as int),
    {
        self.state.channel(i).sema != 0
    }

    /// Records what the hardware reports for channel `i`: its semaphore value and status.
    /// Nothing is written to the device.
    pub fn observe(&mut self, i: usize, sema: u32, stat: u32)
        requires
            i < NUM_CHANNELS,
            sema <= 0xff,
        ensures
            final(self).state == old(self).state.with_chan(
                i as int,
                ChannelRegs { sema, stat, ..old(self).state.chan(i as int) },
            ),
            final(self).journal@ == old(self).journal@,
    {
        let ch = self.state.channel(i);
        self.state.set_channel(i, ChannelRegs { sema, stat, ..ch });
    }

    /// Takes the writes issued so far, oldest first, and empties the journal.
    pub fn drain(&mut self) -> (r: Vec<RegWrite>)
        ensures
            r@ == old(self).journal@,
            final(self).journal@ == Seq::<RegWrite>::empty(),
            final(self).state == old(self).state,
    {
        let mut out: Vec<RegWrite> = Vec::new();
        std::mem::swap(&mut out, &mut self.journal);
        out
    }
}

} // verus!
