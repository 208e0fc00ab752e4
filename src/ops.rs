//! DCP operation types.
//!
//! Each operation kind is a marker type. Packet builders and tasks are generic over it,
//! so the flags an operation starts with are fixed by its type, and hash or cipher
//! settings are only offered for operations that hash ([`HasHash`]) or encrypt
//! ([`HasCrypt`]).

use vstd::prelude::*;
use core::marker::PhantomData;
use crate::packet::{flag_mask, with_field, Control0, Control0Flag, Control1};

verus! {

/// Memory copy operation: copies buffers or moves memory pages around.
pub struct Memcopy;

/// Blit operation: copies R runs of C bytes to the target buffer.
pub struct Blit;

/// Symmetric block cipher operation, to encrypt or decrypt data.
pub struct Cipher<C: CipherSelect> {
    phantom: PhantomData<C>,
}

/// One-way digest calculation.
pub struct Hash<S: HashSelect> {
    phantom: PhantomData<S>,
}

/// Memcopy and hash in the same operation.
pub struct MemcopyHash<S: HashSelect> {
    phantom: PhantomData<S>,
}

/// Cipher and hash in the same operation. The data can be hashed before or after the
/// crypto operation.
pub struct CipherHash<C: CipherSelect, H: HashSelect> {
    cipher: PhantomData<C>,
    hash: PhantomData<H>,
}

/// SHA-1: 20-byte digest.
pub struct Sha1;

/// SHA-256: 32-byte digest.
pub struct Sha256;

/// CRC-32: 4-byte digest.
pub struct Crc32;

/// AES-128 in ECB mode: the 16-byte key sits in the payload.
pub struct Aes128Ecb;

/// AES-128 in CBC mode: the 16-byte key and the 16-byte IV sit in the payload.
pub struct Aes128Cbc;

/// Used to configure data swapping in the FIFOs.
#[derive(Debug, Clone, Copy, PartialEq, Eq, Structural)]
pub enum SwapConfig {
    /// Assume data to be little-endian.
    Keep,
    /// Swap 4 byte words.
    WordSwap,
    /// Swap bytes.
    ByteSwap,
    /// Assume data to be big-endian.
    WordByteSwap,
}

/// Implemented only by this crate's operation types.
pub trait Sealed {}

impl Sealed for Memcopy {}

impl Sealed for Blit {}

impl<C: CipherSelect> Sealed for Cipher<C> {}

impl<S: HashSelect> Sealed for Hash<S> {}

impl<S: HashSelect> Sealed for MemcopyHash<S> {}

impl<C: CipherSelect, H: HashSelect> Sealed for CipherHash<C, H> {}

/// Control1 with only the hash selector set.
pub open spec fn hash_ctl1(select: u8) -> Control1 {
    Control1 { bits: with_field(0, 0xf, 16, select as u32) }
}

/// Control1 with only the cipher selector and mode set.
pub open spec fn cipher_ctl1(select: u8, mode: u8) -> Control1 {
    Control1 { bits: with_field(with_field(0, 0xf, 0, select as u32), 0xf, 4, mode as u32) }
}

/// Common trait for the available hashes.
pub trait HashSelect {
    spec fn spec_hash_select() -> u8;

    /// Digest size in bytes: the least payload a hash operation needs.
    spec fn spec_payload_bytes() -> u32;

    fn hash_select() -> (r: u8)
        ensures
            r == Self::spec_hash_select(),
    ;

    fn payload_bytes() -> (r: u32)
        ensures
            r == Self::spec_payload_bytes(),
            r <= 32,
    ;

    /// Control1 selecting this hash.
    fn ctl1() -> (r: Control1)
        ensures
            r == hash_ctl1(Self::spec_hash_select()),
    {
        let mut new = Control1::empty();
        new.hash_select(Self::hash_select());
        new
    }
}

impl HashSelect for Sha1 {
    open spec fn spec_hash_select() -> u8 {
        0
    }

    open spec fn spec_payload_bytes() -> u32 {
        20
    }

    fn hash_select() -> (r: u8) {
        0
    }

    fn payload_bytes() -> (r: u32) {
        20
    }
}

impl HashSelect for Sha256 {
    open spec fn spec_hash_select() -> u8 {
        2
    }

    open spec fn spec_payload_bytes() -> u32 {
        32
    }

    fn hash_select() -> (r: u8) {
        2
    }

    fn payload_bytes() -> (r: u32) {
        32
    }
}

impl HashSelect for Crc32 {
    open spec fn spec_hash_select() -> u8 {
        1
    }

    open spec fn spec_payload_bytes() -> u32 {
        4
    }

    fn hash_select() -> (r: u8) {
        1
    }

    fn payload_bytes() -> (r: u32) {
        4
    }
}

/// Common trait for the available ciphers.
pub trait CipherSelect {
    spec fn spec_cipher_select() -> u8;

    spec fn spec_cipher_mode() -> u8;

    /// Key and IV material the payload must hold, in bytes.
    spec fn spec_payload_bytes() -> u32;

    fn cipher_select() -> (r: u8)
        ensures
            r == Self::spec_cipher_select(),
    ;

    fn cipher_mode() -> (r: u8)
        ensures
            r == Self::spec_cipher_mode(),
    ;

    fn payload_bytes() -> (r: u32)
        ensures
            r == Self::spec_payload_bytes(),
            r <= 32,
    ;

    /// Control1 selecting this cipher and mode.
    fn ctl1() -> (r: Control1)
        ensures
            r == cipher_ctl1(Self::spec_cipher_select(), Self::spec_cipher_mode()),
    {
        let mut new = Control1::empty();
        new.cipher_select(Self::cipher_select());
        new.cipher_mode(Self::cipher_mode());
        new
    }
}

impl CipherSelect for Aes128Ecb {
    open spec fn spec_cipher_select() -> u8 {
        0
    }

    open spec fn spec_cipher_mode() -> u8 {
        0
    }

    open spec fn spec_payload_bytes() -> u32 {
        16
    }

    fn cipher_select() -> (r: u8) {
        0
    }

    fn cipher_mode() -> (r: u8) {
        0
    }

    fn payload_bytes() -> (r: u32) {
        16
    }
}

impl CipherSelect for Aes128Cbc {
    open spec fn spec_cipher_select() -> u8 {
        0
    }

    open spec fn spec_cipher_mode() -> u8 {
        1
    }

    open spec fn spec_payload_bytes() -> u32 {
        32
    }

    fn cipher_select() -> (r: u8) {
        0
    }

    fn cipher_mode() -> (r: u8) {
        1
    }

    fn payload_bytes() -> (r: u32) {
        32
    }
}

/// What every operation fixes: its Control0 enable bits, its Control1 selectors and
/// the least payload it needs.
pub trait Operation: Sealed {
    spec fn spec_control0() -> Control0;

    spec fn spec_control1() -> Control1;

    spec fn spec_payload_bytes() -> u32;

    fn control0() -> (r: Control0)
        ensures
            r == Self::spec_control0(),
            r.wf(),
    ;

    fn control1() -> (r: Control1)
        ensures
            r == Self::spec_control1(),
    ;

    fn payload_bytes() -> (r: u32)
        ensures
            r == Self::spec_payload_bytes(),
    ;
}

impl Operation for Memcopy {
    open spec fn spec_control0() -> Control0 {
        Control0 { flags: flag_mask(Control0Flag::EnableMemcopy), tag: 0 }
    }

    open spec fn spec_control1() -> Control1 {
        Control1 { bits: 0 }
    }

    open spec fn spec_payload_bytes() -> u32 {
        0
    }

    fn control0() -> (r: Control0) {
        Control0::memcopy()
    }

    fn control1() -> (r: Control1) {
        Control1::empty()
    }

    fn payload_bytes() -> (r: u32) {
        0
    }
}

impl Operation for Blit {
    open spec fn spec_control0() -> Control0 {
        Control0 { flags: flag_mask(Control0Flag::EnableBlit), tag: 0 }
    }

    open spec fn spec_control1() -> Control1 {
        Control1 { bits: 0 }
    }

    open spec fn spec_payload_bytes() -> u32 {
        0
    }

    fn control0() -> (r: Control0) {
        Control0::blit()
    }

    fn control1() -> (r: Control1) {
        Control1::empty()
    }

    fn payload_bytes() -> (r: u32) {
        0
    }
}

impl<C: CipherSelect> Operation for Cipher<C> {
    /// The cipher takes its key from the payload unless told otherwise.
    open spec fn spec_control0() -> Control0 {
        Control0 {
            flags: flag_mask(Control0Flag::EnableCipher) | flag_mask(Control0Flag::PayloadKey),
            tag: 0,
        }
    }

    open spec fn spec_control1() -> Control1 {
        cipher_ctl1(C::spec_cipher_select(), C::spec_cipher_mode())
    }

    open spec fn spec_payload_bytes() -> u32 {
        C::spec_payload_bytes()
    }

    fn control0() -> (r: Control0) {
        let r = Control0::cipher().flag(Control0Flag::PayloadKey);
        r
    }

    fn control1() -> (r: Control1) {
        C::ctl1()
    }

    fn payload_bytes() -> (r: u32) {
        C::payload_bytes()
    }
}

impl<S: HashSelect> Operation for Hash<S> {
    open spec fn spec_control0() -> Control0 {
        Control0 { flags: flag_mask(Control0Flag::EnableHash), tag: 0 }
    }

    open spec fn spec_control1() -> Control1 {
        hash_ctl1(S::spec_hash_select())
    }

    open spec fn spec_payload_bytes() -> u32 {
        S::spec_payload_bytes()
    }

    fn control0() -> (r: Control0) {
        Control0::hash()
    }

    fn control1() -> (r: Control1) {
        S::ctl1()
    }

    fn payload_bytes() -> (r: u32) {
        S::payload_bytes()
    }
}

impl<S: HashSelect> Operation for MemcopyHash<S> {
    open spec fn spec_control0() -> Control0 {
        Control0 {
            flags: flag_mask(Control0Flag::EnableMemcopy) | flag_mask(Control0Flag::EnableHash),
            tag: 0,
        }
    }

    open spec fn spec_control1() -> Control1 {
        hash_ctl1(S::spec_hash_select())
    }

    open spec fn spec_payload_bytes() -> u32 {
        S::spec_payload_bytes()
    }

    fn control0() -> (r: Control0) {
        Control0::memcopy_hash()
    }

    fn control1() -> (r: Control1) {
        S::ctl1()
    }

    fn payload_bytes() -> (r: u32) {
        S::payload_bytes()
    }
}

impl<C: CipherSelect, H: HashSelect> Operation for CipherHash<C, H> {
    open spec fn spec_control0() -> Control0 {
        Control0 {
            flags: flag_mask(Control0Flag::EnableCipher) | flag_mask(Control0Flag::EnableHash),
            tag: 0,
        }
    }

    open spec fn spec_control1() -> Control1 {
        Control1 {
            bits: with_field(
                cipher_ctl1(C::spec_cipher_select(), C::spec_cipher_mode()).bits,
                0xf,
                16,
                H::spec_hash_select() as u32,
            ),
        }
    }

    /// The cipher's key material followed by the digest.
    open spec fn spec_payload_bytes() -> u32 {
        (C::spec_payload_bytes() + H::spec_payload_bytes()) as u32
    }

    fn control0() -> (r: Control0) {
        Control0::cipher_hash()
    }

    fn control1() -> (r: Control1) {
        let mut c = C::ctl1();
        c.hash_select(H::hash_select());
        c
    }

    fn payload_bytes() -> (r: u32) {
        C::payload_bytes() + H::payload_bytes()
    }
}

/// Marker trait for operations that hash.
pub trait HasHash: Operation {}

/// Marker trait for operations that encrypt or decrypt.
pub trait HasCrypt: Operation {}

impl<H: HashSelect> HasHash for Hash<H> {}

impl<H: HashSelect> HasHash for MemcopyHash<H> {}

impl<C: CipherSelect, H: HashSelect> HasHash for CipherHash<C, H> {}

impl<C: CipherSelect> HasCrypt for Cipher<C> {}

impl<C: CipherSelect, H: HashSelect> HasCrypt for CipherHash<C, H> {}

} // verus!
