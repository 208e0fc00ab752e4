//! Buffers and options handed to the packet builders.
//!
//! A buffer is a [`Region`]: the address the hardware sees and a length in bytes. The
//! caller keeps the memory in place until the operation using it has completed.

use vstd::prelude::*;
use crate::packet::Source;

verus! {

/// A buffer in memory: its address and its length in bytes.
#[derive(Debug, Clone, Copy, PartialEq, Eq, Structural)]
pub struct Region {
    pub addr: u32,
    pub len: u32,
}

/// Source for a copy or blit operation: a memory buffer, or a 32 bit word for a
/// constant fill.
#[derive(Debug, Clone, Copy, PartialEq, Eq, Structural)]
pub enum CopySource {
    MemoryBuffer(Region),
    ConstantFill(u32),
}

impl From<CopySource> for Source {
    /// The source word: the buffer's address, or the fill constant.
    fn from(src: CopySource) -> (r: Source) {
        match src {
            CopySource::MemoryBuffer(region) => Source::pointer(region.addr),
            CopySource::ConstantFill(constant) => Source::constant(constant),
        }
    }
}

impl vstd::std_specs::convert::FromSpecImpl<CopySource> for Source {
    open spec fn obeys_from_spec() -> bool {
        true
    }

    open spec fn from_spec(src: CopySource) -> Source {
        match src {
            CopySource::MemoryBuffer(region) => Source { word: region.addr },
            CopySource::ConstantFill(constant) => Source { word: constant },
        }
    }
}

/// Destination buffer of a blit: the buffer and its line width in bytes.
#[derive(Debug, Clone, Copy, PartialEq, Eq, Structural)]
pub struct Framebuffer {
    pub pointer: Region,
    pub width: u16,
}

impl Framebuffer {
    /// Number of whole lines in the buffer.
    pub open spec fn spec_height(self) -> u16 {
        (self.pointer.len / self.width as u32) as u16
    }

    /// Number of whole lines in the buffer, kept to 16 bits.
    pub fn height(&self) -> (r: u16)
        requires
            self.width > 0,
        ensures
            r == self.spec_height(),
    {
        (self.pointer.len / self.width as u32) as u16
    }
}

/// Source and target buffers for crypto operations. They can be the same buffer, for an
/// operation in place.
#[derive(Debug, Clone, Copy, PartialEq, Eq, Structural)]
pub enum CryptMem {
    InPlace(Region),
    SourceDest(Region, Region),
}

impl CryptMem {
    /// The buffer read and the buffer written.
    pub open spec fn spec_ends(self) -> (Region, Region) {
        match self {
            CryptMem::InPlace(r) => (r, r),
            CryptMem::SourceDest(s, d) => (s, d),
        }
    }

    /// Source word and destination address of the operation.
    pub fn into(self) -> (r: (Source, u32))
        ensures
            r.0.word == self.spec_ends().0.addr,
            r.1 == self.spec_ends().1.addr,
    {
        match self {
            CryptMem::SourceDest(s, d) => (Source::pointer(s.addr), d.addr),
            CryptMem::InPlace(sd) => (Source::pointer(sd.addr), sd.addr),
        }
    }
}

/// Where a cipher takes its key from.
#[derive(Debug, Clone, Copy, PartialEq, Eq, Structural)]
pub enum CryptKey {
    Payload,
    KeyRam(u8),
    Unique,
    Otp(bool),
}

impl CryptKey {
    /// The key selector byte: 0x00 for the payload, the slot for key RAM, 0xFE for the
    /// unique device key and 0xFF for the one-time-programmable key.
    pub open spec fn spec_code(self) -> u8 {
        match self {
            CryptKey::Payload => 0,
            CryptKey::KeyRam(n) => n,
            CryptKey::Unique => 0xfe,
            CryptKey::Otp(_) => 0xff,
        }
    }

    pub fn into(self) -> (r: u8)
        ensures
            r == self.spec_code(),
    {
        match self {
            CryptKey::Payload => 0,
            CryptKey::KeyRam(n) => n,
            CryptKey::Unique => 0xfe,
            CryptKey::Otp(_) => 0xff,
        }
    }
}

} // verus!
