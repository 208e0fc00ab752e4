//! The control packet passed to the hardware and its raw bits.
//!
//! A [`ControlPacket`] is 32 bytes: eight little-endian 32-bit words in the order
//! `next`, `control0`, `control1`, `source`, `dest`, `bufsize`, `payload`, `status`.
//! [`ControlPacket::to_bytes`] gives that image byte for byte.

use vstd::prelude::*;
use crate::Error;
use nb::Error as WouldBlockOr;

verus! {

/// Size in bytes of a control packet in memory.
pub const PACKET_BYTES: u32 = 32;

/// Flags that can be set in the Control0 field, from bit 0 up to bit 23.
#[derive(Debug, Clone, Copy, PartialEq, Eq, Structural)]
pub enum Control0Flag {
    InterruptEnable,
    DecrSemaphore,
    Chain,
    ChainContinuous,
    EnableMemcopy,
    EnableCipher,
    EnableHash,
    EnableBlit,
    CipherEncrypt,
    CipherInit,
    OtpKey,
    PayloadKey,
    HashInit,
    HashTerm,
    HashCheck,
    HashOutput,
    ConstantFill,
    TestSemaIrq,
    KeyByteSwap,
    KeyWordSwap,
    InputByteSwap,
    InputWordSwap,
    OutputByteSwap,
    OutputWordSwap,
}

/// The single bit that a flag occupies in Control0.
pub open spec fn flag_mask(f: Control0Flag) -> u32 {
    match f {
        Control0Flag::InterruptEnable => 0x1,
        Control0Flag::DecrSemaphore => 0x2,
        Control0Flag::Chain => 0x4,
        Control0Flag::ChainContinuous => 0x8,
        Control0Flag::EnableMemcopy => 0x10,
        Control0Flag::EnableCipher => 0x20,
        Control0Flag::EnableHash => 0x40,
        Control0Flag::EnableBlit => 0x80,
        Control0Flag::CipherEncrypt => 0x100,
        Control0Flag::CipherInit => 0x200,
        Control0Flag::OtpKey => 0x400,
        Control0Flag::PayloadKey => 0x800,
        Control0Flag::HashInit => 0x1000,
        Control0Flag::HashTerm => 0x2000,
        Control0Flag::HashCheck => 0x4000,
        Control0Flag::HashOutput => 0x8000,
        Control0Flag::ConstantFill => 0x1_0000,
        Control0Flag::TestSemaIrq => 0x2_0000,
        Control0Flag::KeyByteSwap => 0x4_0000,
        Control0Flag::KeyWordSwap => 0x8_0000,
        Control0Flag::InputByteSwap => 0x10_0000,
        Control0Flag::InputWordSwap => 0x20_0000,
        Control0Flag::OutputByteSwap => 0x40_0000,
        Control0Flag::OutputWordSwap => 0x80_0000,
    }
}

impl Control0Flag {
    /// The bit of this flag in Control0.
    pub fn mask(self) -> (r: u32)
        ensures
            r == flag_mask(self),
    {
        match self {
            Control0Flag::InterruptEnable => 0x1,
            Control0Flag::DecrSemaphore => 0x2,
            Control0Flag::Chain => 0x4,
            Control0Flag::ChainContinuous => 0x8,
            Control0Flag::EnableMemcopy => 0x10,
            Control0Flag::EnableCipher => 0x20,
            Control0Flag::EnableHash => 0x40,
            Control0Flag::EnableBlit => 0x80,
            Control0Flag::CipherEncrypt => 0x100,
            Control0Flag::CipherInit => 0x200,
            Control0Flag::OtpKey => 0x400,
            Control0Flag::PayloadKey => 0x800,
            Control0Flag::HashInit => 0x1000,
            Control0Flag::HashTerm => 0x2000,
            Control0Flag::HashCheck => 0x4000,
            Control0Flag::HashOutput => 0x8000,
            Control0Flag::ConstantFill => 0x1_0000,
            Control0Flag::TestSemaIrq => 0x2_0000,
            Control0Flag::KeyByteSwap => 0x4_0000,
            Control0Flag::KeyWordSwap => 0x8_0000,
            Control0Flag::InputByteSwap => 0x10_0000,
            Control0Flag::InputWordSwap => 0x20_0000,
            Control0Flag::OutputByteSwap => 0x40_0000,
            Control0Flag::OutputWordSwap => 0x80_0000,
        }
    }
}

/// Setting a bit below bit 24 keeps a 24-bit flag field within 24 bits, sets that bit
/// and keeps every bit that was set.
pub proof fn lemma_set_bit(flags: u32, m: u32, n: u32)
    requires
        flags < 0x100_0000,
        m < 0x100_0000,
    ensures
        (flags | m) < 0x100_0000,
        (flags | m) & m == m,
        flags & n == n ==> (flags | m) & n == n,
        (flags | m) & n != n ==> flags & n != n,
{
    assert((flags | m) < 0x100_0000 && (flags | m) & m == m) by (bit_vector)
        requires
            flags < 0x100_0000,
            m < 0x100_0000,
    ;
    assert(flags & n == n ==> (flags | m) & n == n) by (bit_vector);
}

/// The Control0 field: 24 flag bits and the packet tag in the top byte.
#[derive(Debug, Clone, Copy, PartialEq, Eq, Structural)]
pub struct Control0 {
    pub flags: u32,
    pub tag: u8,
}

impl Control0 {
    /// The flags fit in the 24 bits below the tag.
    pub open spec fn wf(&self) -> bool {
        self.flags < 0x100_0000
    }

    /// Whether flag `f` is set.
    pub open spec fn has(&self, f: Control0Flag) -> bool {
        self.flags & flag_mask(f) == flag_mask(f)
    }

    /// Whether flag `f` is set.
    pub fn has_flag(&self, f: Control0Flag) -> (r: bool)
        ensures
            r == self.has(f),
    {
        let m = f.mask();
        self.flags & m == m
    }

    /// No flag set, tag 0.
    pub fn empty() -> (r: Control0)
        ensures
            r.flags == 0,
            r.tag == 0,
    {
        Control0 { flags: 0, tag: 0 }
    }

    /// Returns this field with flag `f` set.
    pub fn flag(self, f: Control0Flag) -> (r: Control0)
        requires
            self.wf(),
        ensures
            r.wf(),
            r.flags == self.flags | flag_mask(f),
            r.tag == self.tag,
            r.has(f),
            forall|g: Control0Flag| self.has(g) ==> r.has(g),
    {
        let m = f.mask();
        proof {
            assert forall|g: Control0Flag| self.has(g) implies (self.flags | m) & flag_mask(g)
                == flag_mask(g) by {
                lemma_set_bit(self.flags, m, flag_mask(g));
            }
            lemma_set_bit(self.flags, m, m);
        }
        Control0 { flags: self.flags | m, tag: self.tag }
    }

    /// Sets flag `f` in place.
    pub fn set(&mut self, f: Control0Flag)
        requires
            old(self).wf(),
        ensures
            final(self).wf(),
            final(self).flags == old(self).flags | flag_mask(f),
            final(self).tag == old(self).tag,
            final(self).has(f),
            forall|g: Control0Flag| old(self).has(g) ==> final(self).has(g),
    {
        *self = self.flag(f);
    }

    /// Control0 of a memory copy.
    pub fn memcopy() -> (r: Control0)
        ensures
            r.wf(),
            r.flags == flag_mask(Control0Flag::EnableMemcopy),
            r.tag == 0,
    {
        Control0 { flags: Control0Flag::EnableMemcopy.mask(), tag: 0 }
    }

    /// Control0 of a blit.
    pub fn blit() -> (r: Control0)
        ensures
            r.wf(),
            r.flags == flag_mask(Control0Flag::EnableBlit),
            r.tag == 0,
    {
        Control0 { flags: Control0Flag::EnableBlit.mask(), tag: 0 }
    }

    /// Control0 of a cipher operation.
    pub fn cipher() -> (r: Control0)
        ensures
            r.wf(),
            r.flags == flag_mask(Control0Flag::EnableCipher),
            r.tag == 0,
    {
        Control0 { flags: Control0Flag::EnableCipher.mask(), tag: 0 }
    }

    /// Control0 of a hash operation.
    pub fn hash() -> (r: Control0)
        ensures
            r.wf(),
            r.flags == flag_mask(Control0Flag::EnableHash),
            r.tag == 0,
    {
        Control0 { flags: Control0Flag::EnableHash.mask(), tag: 0 }
    }

    /// Control0 of a memory copy that also hashes the data.
    pub fn memcopy_hash() -> (r: Control0)
        ensures
            r.wf(),
            r.flags == flag_mask(Control0Flag::EnableMemcopy) | flag_mask(Control0Flag::EnableHash),
            r.tag == 0,
    {
        Control0::memcopy().flag(Control0Flag::EnableHash)
    }

    /// Control0 of a cipher operation that also hashes the data.
    pub fn cipher_hash() -> (r: Control0)
        ensures
            r.wf(),
            r.flags == flag_mask(Control0Flag::EnableCipher) | flag_mask(Control0Flag::EnableHash),
            r.tag == 0,
    {
        Control0::cipher().flag(Control0Flag::EnableHash)
    }
}

/// The value of `bits` with the field `mask << off` replaced by the low bits of `v`.
pub open spec fn with_field(bits: u32, mask: u32, off: u32, v: u32) -> u32 {
    (bits & !(mask << off)) | ((v & mask) << off)
}

/// The Control1 field: cipher, key and hash selectors, or the blit line length.
///
/// Bits 0..4 select the cipher, 4..8 its mode, 8..16 the key, 16..20 the hash and
/// 24..32 hold the cipher configuration. A blit uses the low bits for the
/// framebuffer's line width in bytes.
#[derive(Debug, Clone, Copy, PartialEq, Eq, Structural)]
pub struct Control1 {
    pub bits: u32,
}

impl Control1 {
    /// All selectors zero.
    pub fn empty() -> (r: Control1)
        ensures
            r.bits == 0,
    {
        Control1 { bits: 0 }
    }

    /// Control1 of a blit whose lines are `width` bytes long.
    pub fn blit(width: u16) -> (r: Control1)
        ensures
            r.bits == width as u32,
    {
        Control1 { bits: width as u32 }
    }

    fn store(&mut self, mask: u32, off: u32, v: u8)
        requires
            off < 32,
        ensures
            final(self).bits == with_field(old(self).bits, mask, off, v as u32),
    {
        self.bits = (self.bits & !(mask << off)) | (((v as u32) & mask) << off);
    }

    /// Stores the cipher selector in bits 0..4.
    pub fn cipher_select(&mut self, v: u8)
        ensures
            final(self).bits == with_field(old(self).bits, 0xf, 0, v as u32),
    {
        self.store(0xf, 0, v)
    }

    /// Stores the cipher mode in bits 4..8.
    pub fn cipher_mode(&mut self, v: u8)
        ensures
            final(self).bits == with_field(old(self).bits, 0xf, 4, v as u32),
    {
        self.store(0xf, 4, v)
    }

    /// Stores the key selector in bits 8..16.
    pub fn key_select(&mut self, v: u8)
        ensures
            final(self).bits == with_field(old(self).bits, 0xff, 8, v as u32),
    {
        self.store(0xff, 8, v)
    }

    /// Stores the hash selector in bits 16..20.
    pub fn hash_select(&mut self, v: u8)
        ensures
            final(self).bits == with_field(old(self).bits, 0xf, 16, v as u32),
    {
        self.store(0xf, 16, v)
    }

    /// Stores the cipher configuration in bits 24..32.
    pub fn cipher_config(&mut self, v: u8)
        ensures
            final(self).bits == with_field(old(self).bits, 0xff, 24, v as u32),
    {
        self.store(0xff, 24, v)
    }
}

/// Supported symmetric ciphers.
#[derive(Debug, Clone, Copy, PartialEq, Eq, Structural)]
pub enum Cipher {
    Aes128Ecb,
    Aes128Cbc,
}

impl Cipher {
    /// The cipher mode field: 0 for ECB, 1 for CBC. The cipher selector is 0 (AES-128)
    /// for both.
    pub open spec fn spec_mode(self) -> u8 {
        match self {
            Cipher::Aes128Ecb => 0,
            Cipher::Aes128Cbc => 1,
        }
    }

    pub fn mode(self) -> (r: u8)
        ensures
            r == self.spec_mode(),
    {
        match self {
            Cipher::Aes128Ecb => 0,
            Cipher::Aes128Cbc => 1,
        }
    }
}

/// Key to use: a key RAM slot, the unique device key or the one-time-programmable key.
#[derive(Debug, Clone, Copy, PartialEq, Eq, Structural)]
pub enum KeySelect {
    Key0,
    Key1,
    Key2,
    Key3,
    UniqueKey,
    OtpKey,
}

impl KeySelect {
    pub open spec fn spec_code(self) -> u8 {
        match self {
            KeySelect::Key0 => 0x0,
            KeySelect::Key1 => 0x1,
            KeySelect::Key2 => 0x2,
            KeySelect::Key3 => 0x3,
            KeySelect::UniqueKey => 0xFE,
            KeySelect::OtpKey => 0xFF,
        }
    }

    /// The key selector byte of Control1.
    pub fn code(self) -> (r: u8)
        ensures
            r == self.spec_code(),
    {
        match self {
            KeySelect::Key0 => 0x0,
            KeySelect::Key1 => 0x1,
            KeySelect::Key2 => 0x2,
            KeySelect::Key3 => 0x3,
            KeySelect::UniqueKey => 0xFE,
            KeySelect::OtpKey => 0xFF,
        }
    }
}

/// Supported hashing algorithms.
#[derive(Debug, Clone, Copy, PartialEq, Eq, Structural)]
pub enum Hash {
    Sha1,
    Crc32,
    Sha256,
}

impl Hash {
    pub open spec fn spec_code(self) -> u8 {
        match self {
            Hash::Sha1 => 0,
            Hash::Crc32 => 1,
            Hash::Sha256 => 2,
        }
    }

    /// The hash selector of Control1.
    pub fn code(self) -> (r: u8)
        ensures
            r == self.spec_code(),
    {
        match self {
            Hash::Sha1 => 0,
            Hash::Crc32 => 1,
            Hash::Sha256 => 2,
        }
    }
}

/// The source word: the address of the input buffer, or a 32 bit constant for a
/// constant fill. Both share the same four bytes.
#[derive(Debug, Clone, Copy, PartialEq, Eq, Structural)]
pub struct Source {
    pub word: u32,
}

impl Source {
    /// Source reading from the buffer at `addr`.
    pub fn pointer(addr: u32) -> (r: Source)
        ensures
            r.word == addr,
    {
        Source { word: addr }
    }

    /// Source filling the output with `value`.
    pub fn constant(value: u32) -> (r: Source)
        ensures
            r.word == value,
    {
        Source { word: value }
    }
}

/// Width and height of a blit framebuffer.
#[derive(Debug, Clone, Copy, PartialEq, Eq, Structural)]
pub struct BlitSize {
    /// Width in bytes.
    pub width: u16,
    /// Height in lines.
    pub height: u16,
}

/// The bufsize word: a byte count, or a blit size with the width in the low half and
/// the height in the high half.
#[derive(Debug, Clone, Copy, PartialEq, Eq, Structural)]
pub struct BufSize {
    pub word: u32,
}

impl BufSize {
    /// A linear buffer of `len` bytes.
    pub fn linear(len: u32) -> (r: BufSize)
        ensures
            r.word == len,
    {
        BufSize { word: len }
    }

    /// A blit framebuffer.
    pub fn blit(size: BlitSize) -> (r: BufSize)
        ensures
            r.word == size.width as u32 + size.height as u32 * 0x1_0000,
    {
        let h = size.height as u32;
        assert(h * 0x1_0000 <= 0xffff_0000) by (nonlinear_arith)
            requires
                h <= 0xffff,
        ;
        BufSize { word: size.width as u32 + h * 0x1_0000 }
    }
}

/// Written by the DCP when the operation ends: completion, errors and the packet tag.
///
/// Bit 0 of `bits` is set once the packet is done; the other bits name the error class:
/// 2 hash mismatch, 4 setup, 8 packet, 16 source, 32 destination, anything else other.
#[derive(Debug, Clone, Copy, PartialEq, Eq, Structural)]
pub struct Status {
    pub bits: u8,
    pub pad: u8,
    pub error_code: u8,
    /// Tag initially put in Control0 for identification.
    pub tag: u8,
}

/// What a status means: `WouldBlock` until the done bit is set, then the tag or the
/// error class with its code.
pub open spec fn decode_status(s: Status) -> crate::Result {
    if s.bits & 1 == 0 {
        Err(WouldBlockOr::WouldBlock)
    } else {
        let class = s.bits & 0xfe;
        if class == 0 {
            Ok(s.tag)
        } else if class == 2 {
            Err(WouldBlockOr::Other(Error::HashMismatch(s.error_code)))
        } else if class == 4 {
            Err(WouldBlockOr::Other(Error::SetupError(s.error_code)))
        } else if class == 8 {
            Err(WouldBlockOr::Other(Error::PacketError(s.error_code)))
        } else if class == 16 {
            Err(WouldBlockOr::Other(Error::SourceError(s.error_code)))
        } else if class == 32 {
            Err(WouldBlockOr::Other(Error::DestError(s.error_code)))
        } else {
            Err(WouldBlockOr::Other(Error::Other(s.error_code)))
        }
    }
}

impl Status {
    /// All zero: not done.
    pub fn empty() -> (r: Status)
        ensures
            r.bits == 0 && r.pad == 0 && r.error_code == 0 && r.tag == 0,
    {
        Status { bits: 0, pad: 0, error_code: 0, tag: 0 }
    }

    /// Non-blocking check for completion: `WouldBlock` while the operation is not done.
    pub fn poll(&self) -> (r: crate::Result)
        ensures
            r == decode_status(*self),
    {
        if self.bits & 1 == 0 {
            Err(WouldBlockOr::WouldBlock)
        } else {
            let class = self.bits & 0xfe;
            if class == 0 {
                Ok(self.tag)
            } else if class == 2 {
                Err(WouldBlockOr::Other(Error::HashMismatch(self.error_code)))
            } else if class == 4 {
                Err(WouldBlockOr::Other(Error::SetupError(self.error_code)))
            } else if class == 8 {
                Err(WouldBlockOr::Other(Error::PacketError(self.error_code)))
            } else if class == 16 {
                Err(WouldBlockOr::Other(Error::SourceError(self.error_code)))
            } else if class == 32 {
                Err(WouldBlockOr::Other(Error::DestError(self.error_code)))
            } else {
                Err(WouldBlockOr::Other(Error::Other(self.error_code)))
            }
        }
    }
}

/// The struct that is passed to the DCP.
///
/// `next` is the address of the following packet of a chain, 0 for none; `dest` and
/// `payload` are buffer addresses, 0 where the operation has none.
#[derive(Debug, Clone, Copy, PartialEq, Eq, Structural)]
pub struct ControlPacket {
    pub next: u32,
    pub control0: Control0,
    pub control1: Control1,
    pub source: Source,
    pub dest: u32,
    pub bufsize: BufSize,
    pub payload: u32,
    pub status: Status,
}

/// The four bytes of `w`, least significant first.
pub open spec fn le_bytes(w: u32) -> Seq<u8> {
    seq![(w & 0xff) as u8, ((w >> 8) & 0xff) as u8, ((w >> 16) & 0xff) as u8, ((w >> 24) & 0xff) as u8]
}

/// The 32-byte memory image of a packet.
pub open spec fn packet_bytes(p: ControlPacket) -> Seq<u8> {
    le_bytes(p.next)
        + seq![(p.control0.flags & 0xff) as u8, ((p.control0.flags >> 8) & 0xff) as u8,
               ((p.control0.flags >> 16) & 0xff) as u8, p.control0.tag]
        + le_bytes(p.control1.bits)
        + le_bytes(p.source.word)
        + le_bytes(p.dest)
        + le_bytes(p.bufsize.word)
        + le_bytes(p.payload)
        + seq![p.status.bits, p.status.pad, p.status.error_code, p.status.tag]
}

fn push_word(v: &mut Vec<u8>, w: u32)
    ensures
        final(v)@ == old(v)@ + le_bytes(w),
{
    v.push((w & 0xff) as u8);
    v.push(((w >> 8) & 0xff) as u8);
    v.push(((w >> 16) & 0xff) as u8);
    v.push(((w >> 24) & 0xff) as u8);
    assert(final(v)@ =~= old(v)@ + le_bytes(w));
}

impl ControlPacket {
    /// The packet with every field zero.
    pub fn zeroed() -> (r: ControlPacket)
        ensures
            r.next == 0 && r.control0.flags == 0 && r.control0.tag == 0,
            r.control1.bits == 0 && r.source.word == 0 && r.dest == 0,
            r.bufsize.word == 0 && r.payload == 0,
            r.status.bits == 0 && r.status.pad == 0 && r.status.error_code == 0 && r.status.tag == 0,
    {
        ControlPacket {
            next: 0,
            control0: Control0::empty(),
            control1: Control1::empty(),
            source: Source { word: 0 },
            dest: 0,
            bufsize: BufSize { word: 0 },
            payload: 0,
            status: Status::empty(),
        }
    }

    /// The packet's flags fit their field.
    pub open spec fn wf(&self) -> bool {
        self.control0.wf()
    }

    /// The bytes the hardware reads, in memory order.
    pub fn to_bytes(&self) -> (r: Vec<u8>)
        ensures
            r@ == packet_bytes(*self),
            r@.len() == PACKET_BYTES,
    {
        let mut v: Vec<u8> = Vec::new();
        push_word(&mut v, self.next);
        v.push((self.control0.flags & 0xff) as u8);
        v.push(((self.control0.flags >> 8) & 0xff) as u8);
        v.push(((self.control0.flags >> 16) & 0xff) as u8);
        v.push(self.control0.tag);
        push_word(&mut v, self.control1.bits);
        push_word(&mut v, self.source.word);
        push_word(&mut v, self.dest);
        push_word(&mut v, self.bufsize.word);
        push_word(&mut v, self.payload);
        v.push(self.status.bits);
        v.push(self.status.pad);
        v.push(self.status.error_code);
        v.push(self.status.tag);
        assert(v@ =~= packet_bytes(*self));
        v
    }

    /// Non-blocking check of this packet's status.
    pub fn poll(&self) -> (r: crate::Result)
        ensures
            r == decode_status(self.status),
    {
        self.status.poll()
    }
}

} // verus!
