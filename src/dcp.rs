//! The DCP peripheral through its lifecycle: unclocked, clocked and configuring, active.
//!
//! Each state owns the peripheral's [`RegisterBlock`] and hands it on by value, so at
//! most one live handle to the device exists at a time.

use vstd::prelude::*;
use crate::regs::{
    replay, RegState, RegWrite, RegisterBlock, CTRL_CLKGATE, CTRL_ENABLE_CONTEXT_CACHING,
    CTRL_GATHER_RESIDUAL_WRITES, CTRL_SFTRST, STAT_IRQ,
};

verus! {

/// CCM CCGR0: the two clock gate bits of the DCP.
pub const CCGR0_CG5: u32 = 0b11 << 10;

/// Writes that reset the DCP and set it up for operation, in order.
pub open spec fn setup_writes() -> Seq<RegWrite> {
    seq![
        RegWrite::CtrlSet(CTRL_SFTRST),
        RegWrite::CtrlClr(CTRL_SFTRST),
        RegWrite::CtrlSet(CTRL_GATHER_RESIDUAL_WRITES | CTRL_ENABLE_CONTEXT_CACHING),
        RegWrite::StatClr(STAT_IRQ),
    ]
}

/// Writes that ungate, reset and enable the DCP, in order.
pub open spec fn build_writes() -> Seq<RegWrite> {
    seq![
        RegWrite::CtrlClr(CTRL_CLKGATE),
        RegWrite::CtrlSet(CTRL_SFTRST),
        RegWrite::CtrlClr(CTRL_SFTRST),
        RegWrite::StatClr(STAT_IRQ),
        RegWrite::CtrlSet(CTRL_GATHER_RESIDUAL_WRITES | CTRL_ENABLE_CONTEXT_CACHING),
    ]
}

/// Writes that clear pending interrupts and put the DCP back in reset, in order.
pub open spec fn unclock_writes() -> Seq<RegWrite> {
    seq![RegWrite::StatClr(STAT_IRQ), RegWrite::CtrlSet(CTRL_SFTRST)]
}

/// Unclocked DCP instance. It needs to be clocked before it can be used.
pub struct Unclocked {
    inst: RegisterBlock,
}

impl Unclocked {
    /// The registers of the instance.
    pub closed spec fn regs(&self) -> RegisterBlock {
        self.inst
    }

    /// Takes ownership of the DCP's registers.
    pub fn take(inst: RegisterBlock) -> (r: Unclocked)
        ensures
            r.regs() == inst,
    {
        Unclocked { inst }
    }

    /// Turns on the DCP clock: sets the DCP gate bits of the CCM's CCGR0 register value.
    pub fn clock(self, ccgr0: &mut u32) -> (r: Builder)
        ensures
            *final(ccgr0) == *old(ccgr0) | CCGR0_CG5,
            r.inst == self.regs(),
    {
        *ccgr0 = *ccgr0 | CCGR0_CG5;
        Builder { inst: self.inst }
    }

    /// Gives the DCP's registers back.
    pub fn release(self) -> (r: RegisterBlock)
        ensures
            r == self.regs(),
    {
        self.inst
    }

    /// The instance's registers.
    pub fn raw(&self) -> (r: &RegisterBlock)
        ensures
            *r == self.regs(),
    {
        &self.inst
    }
}

/// Clocked DCP, not enabled yet.
pub struct Builder {
    pub inst: RegisterBlock,
}

impl Builder {
    /// Resets the DCP, enables residual writes and context caching, and clears pending
    /// interrupts.
    pub fn setup(&mut self)
        ensures
            final(self).inst.state == replay(old(self).inst.state, setup_writes()),
            final(self).inst.state == (RegState {
                ctrl: ((old(self).inst.state.ctrl | CTRL_SFTRST) & !CTRL_SFTRST) | (CTRL_GATHER_RESIDUAL_WRITES
                    | CTRL_ENABLE_CONTEXT_CACHING),
                stat: old(self).inst.state.stat & !STAT_IRQ,
                ..old(self).inst.state
            }),
            final(self).inst.journal@ == old(self).inst.journal@ + setup_writes(),
    {
        proof {
            reveal_with_fuel(replay, 5);
        }
        let ws = vec![
            RegWrite::CtrlSet(CTRL_SFTRST),
            RegWrite::CtrlClr(CTRL_SFTRST),
            RegWrite::CtrlSet(CTRL_GATHER_RESIDUAL_WRITES | CTRL_ENABLE_CONTEXT_CACHING),
            RegWrite::StatClr(STAT_IRQ),
        ];
        assert(ws@ =~= setup_writes());
        self.inst.write_all(ws);
    }

    /// Enables the DCP: ungates its clock, resets it, clears pending interrupts and
    /// enables residual writes and context caching.
    pub fn build(self) -> (r: DCP)
        ensures
            r.0.state == replay(self.inst.state, build_writes()),
            r.0.state == (RegState {
                ctrl: ((((self.inst.state.ctrl & !CTRL_CLKGATE) | CTRL_SFTRST) & !CTRL_SFTRST) | (
                CTRL_GATHER_RESIDUAL_WRITES | CTRL_ENABLE_CONTEXT_CACHING)),
                stat: self.inst.state.stat & !STAT_IRQ,
                ..self.inst.state
            }),
            r.0.journal@ == self.inst.journal@ + build_writes(),
    {
        proof {
            reveal_with_fuel(replay, 6);
        }
        let mut inst = self.inst;
        let ws = vec![
            RegWrite::CtrlClr(CTRL_CLKGATE),
            RegWrite::CtrlSet(CTRL_SFTRST),
            RegWrite::CtrlClr(CTRL_SFTRST),
            RegWrite::StatClr(STAT_IRQ),
            RegWrite::CtrlSet(CTRL_GATHER_RESIDUAL_WRITES | CTRL_ENABLE_CONTEXT_CACHING),
        ];
        assert(ws@ =~= build_writes());
        inst.write_all(ws);
        DCP(inst)
    }

    /// Resets the DCP and gates its clock.
    pub fn unclock(self, ccgr0: &mut u32) -> (r: Unclocked)
        ensures
            r.regs().state == replay(self.inst.state, unclock_writes()),
            r.regs().journal@ == self.inst.journal@ + unclock_writes(),
            *final(ccgr0) == *old(ccgr0) & !CCGR0_CG5,
    {
        DCP(self.inst).unclock(ccgr0)
    }
}

/// Clocked and active DCP peripheral.
pub struct DCP(pub RegisterBlock);

impl DCP {
    /// Resets the DCP and gates its clock.
    pub fn unclock(self, ccgr0: &mut u32) -> (r: Unclocked)
        ensures
            r.regs().state == replay(self.0.state, unclock_writes()),
            r.regs().state == (RegState {
                ctrl: self.0.state.ctrl | CTRL_SFTRST,
                stat: self.0.state.stat & !STAT_IRQ,
                ..self.0.state
            }),
            r.regs().journal@ == self.0.journal@ + unclock_writes(),
            *final(ccgr0) == *old(ccgr0) & !CCGR0_CG5,
    {
        proof {
            reveal_with_fuel(replay, 3);
        }
        let mut inst = self.0;
        let ws = vec![RegWrite::StatClr(STAT_IRQ), RegWrite::CtrlSet(CTRL_SFTRST)];
        assert(ws@ =~= unclock_writes());
        inst.write_all(ws);
        *ccgr0 = *ccgr0 & !CCGR0_CG5;
        Unclocked { inst }
    }

    /// The active peripheral's registers.
    pub fn deref(&self) -> (r: &RegisterBlock)
        ensures
            *r == self.0,
    {
        &self.0
    }
}

} // verus!
