//! Driver logic for the DCP, the data co-processor of i.MX RT microcontrollers.
//!
//! The co-processor runs memory copies, blits, AES and hash operations described by
//! 32-byte control packets. This crate builds those packets bit for bit, decides which
//! channel takes a submission and in what order its registers are written, and tracks
//! an in-flight operation through a non-blocking poll state machine.
//!
//! Registers are held in [`regs::RegisterBlock`], an in-memory model of the peripheral
//! that records every write in order; a platform layer replays that journal on the real
//! device and refreshes the semaphore and status values it reads back.

use vstd::prelude::*;
use nb::Error as WouldBlockOr;

pub mod channels;
pub mod config;
pub mod builder;
pub mod dcp;
pub mod ex;
pub mod ops;
pub mod packet;
pub mod regs;
pub mod task;

verus! {

/// Relies on `nb::Error`, the error of a non-blocking call: its two public variants,
/// `Other(e)` and `WouldBlock`, which Verus reads from the declaration.
#[verifier::external_type_specification]
#[verifier::reject_recursive_types(E)]
pub struct ExWouldBlockOr<E>(WouldBlockOr<E>);

/// Derived from the DCP status field when an operation fails, or from an executor that
/// could not take a submission. Holds the error kind and the 8 bit hardware error code.
#[derive(Debug, Clone, Copy, PartialEq, Eq, Structural)]
pub enum Error {
    Executor(ex::ExError),
    HashMismatch(u8),
    SetupError(u8),
    PacketError(u8),
    SourceError(u8),
    DestError(u8),
    Other(u8),
}

/// A payload buffer shorter than the operation needs: the digest for a hash, the key
/// and IV material for a cipher.
#[derive(Debug, Clone, Copy, PartialEq, Eq, Structural)]
pub struct PayloadTooShort {
    pub required: u32,
    pub actual: u32,
}

/// Caller-chosen byte echoed by the hardware in the packet status.
pub type Tag = u8;

/// Result of a non-blocking poll: the tag on success, `WouldBlock` while the operation runs.
pub type Result = nb::Result<Tag, Error>;

} // verus!
