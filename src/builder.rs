//! Constructs control packets operation by operation.

use vstd::prelude::*;
use core::marker::PhantomData;
use crate::config::{CopySource, CryptKey, Framebuffer, Region};
use crate::ops::{Blit, HasCrypt, HasHash, Operation, SwapConfig};
use crate::packet::{
    flag_mask, with_field, BlitSize, BufSize, Cipher, Control0, Control0Flag, Control1,
    ControlPacket, Source,
};
use crate::PayloadTooShort;

verus! {

/// `p` with flag `f` set.
pub open spec fn with_flag(p: ControlPacket, f: Control0Flag) -> ControlPacket {
    ControlPacket { control0: Control0 { flags: p.control0.flags | flag_mask(f), ..p.control0 }, ..p }
}

/// `p` with the swap flags of `conf` set: none, the word flag, the byte flag, or both.
pub open spec fn with_swap(p: ControlPacket, conf: SwapConfig, word: Control0Flag, byte: Control0Flag) -> ControlPacket {
    match conf {
        SwapConfig::Keep => p,
        SwapConfig::WordSwap => with_flag(p, word),
        SwapConfig::ByteSwap => with_flag(p, byte),
        SwapConfig::WordByteSwap => with_flag(with_flag(p, word), byte),
    }
}

/// `p` reading from `src`: its address or the fill constant, with the constant-fill
/// flag set for a constant.
pub open spec fn with_source(p: ControlPacket, src: CopySource) -> ControlPacket {
    match src {
        CopySource::MemoryBuffer(r) => ControlPacket { source: Source { word: r.addr }, ..p },
        CopySource::ConstantFill(c) => ControlPacket {
            source: Source { word: c },
            ..with_flag(p, Control0Flag::ConstantFill)
        },
    }
}

/// What [`PacketBuilder::source`] makes of `p`: the source set as by [`with_source`];
/// a buffer's length becomes the byte count only where `p` has no destination.
pub open spec fn with_builder_source(p: ControlPacket, src: CopySource) -> ControlPacket {
    match src {
        CopySource::MemoryBuffer(r) => if p.dest == 0 {
            ControlPacket { bufsize: BufSize { word: r.len }, ..with_source(p, src) }
        } else {
            with_source(p, src)
        },
        CopySource::ConstantFill(_) => with_source(p, src),
    }
}

/// Digest size in bytes of the hash selected by `select`: 20 for SHA-1, 4 for CRC-32,
/// 32 for SHA-256 and for any other value.
pub open spec fn digest_bytes(select: u32) -> u32 {
    if select == 0 {
        20
    } else if select == 1 {
        4
    } else {
        32
    }
}

/// Key and IV bytes the cipher mode `mode` reads from the payload: 16 for ECB, 32 for
/// CBC and any other mode.
pub open spec fn cipher_bytes(mode: u32) -> u32 {
    if mode == 0 {
        16
    } else {
        32
    }
}

/// The least payload `p` needs: the cipher's key material if the cipher is enabled,
/// followed by the digest of the selected hash if hashing is enabled.
pub open spec fn required_payload(p: ControlPacket) -> u32 {
    let c = if p.control0.has(Control0Flag::EnableCipher) {
        cipher_bytes((p.control1.bits >> 4) & 0xf)
    } else {
        0
    };
    let h = if p.control0.has(Control0Flag::EnableHash) {
        digest_bytes((p.control1.bits >> 16) & 0xf)
    } else {
        0
    };
    (c + h) as u32
}

fn payload_needed(p: &ControlPacket) -> (r: u32)
    ensures
        r == required_payload(*p),
{
    let c: u32 = if p.control0.has_flag(Control0Flag::EnableCipher) {
        if (p.control1.bits >> 4) & 0xf == 0 { 16 } else { 32 }
    } else {
        0
    };
    let h: u32 = if p.control0.has_flag(Control0Flag::EnableHash) {
        let sel = (p.control1.bits >> 16) & 0xf;
        if sel == 0 { 20 } else if sel == 1 { 4 } else { 32 }
    } else {
        0
    };
    c + h
}

/// The key-source flags of `flags` for `key`: payload-key for the payload, OTP-key for the
/// one-time-programmable key, neither otherwise.
pub open spec fn key_flags(flags: u32, key: CryptKey) -> u32 {
    let cleared = flags & !(flag_mask(Control0Flag::PayloadKey) | flag_mask(Control0Flag::OtpKey));
    match key {
        CryptKey::Payload => cleared | flag_mask(Control0Flag::PayloadKey),
        CryptKey::Otp(_) => cleared | flag_mask(Control0Flag::OtpKey),
        _ => cleared,
    }
}

/// The packet an operation starts from: its enable bits and selectors, everything else
/// zero.
pub open spec fn initial_packet<T: Operation>() -> ControlPacket {
    ControlPacket {
        next: 0,
        control0: T::spec_control0(),
        control1: T::spec_control1(),
        source: Source { word: 0 },
        dest: 0,
        bufsize: BufSize { word: 0 },
        payload: 0,
        status: crate::packet::Status { bits: 0, pad: 0, error_code: 0, tag: 0 },
    }
}

/// Constructs a control packet for operation `T`. The options offered depend on the
/// operation.
pub struct PacketBuilder<T: Operation> {
    raw: ControlPacket,
    payload_len: u32,
    _marker: PhantomData<T>,
}

impl<T: Operation> PacketBuilder<T> {
    #[verifier::type_invariant]
    spec fn inv(&self) -> bool {
        self.raw.wf()
    }

    /// The packet built so far.
    pub closed spec fn packet(&self) -> ControlPacket {
        self.raw
    }

    /// Length of the payload buffer set so far, 0 while there is none.
    pub closed spec fn payload_len(&self) -> u32 {
        self.payload_len
    }

    /// A packet for operation `T`: its enable bits and selectors set, no buffers.
    pub fn new() -> (r: Self)
        ensures
            r.packet() == initial_packet::<T>(),
            r.payload_len() == 0,
    {
        let mut raw = ControlPacket::zeroed();
        raw.control0 = T::control0();
        raw.control1 = T::control1();
        PacketBuilder { raw, payload_len: 0, _marker: PhantomData }
    }

    /// The finished packet, once its payload holds what the selected hash and cipher need.
    /// The check reads the selectors in the packet itself, so it holds whatever order the
    /// builder's methods were called in. A shorter payload is refused and no packet comes
    /// out.
    pub fn build(self) -> (r: Result<ControlPacket, PayloadTooShort>)
        ensures
            self.payload_len() < required_payload(self.packet()) <==> r is Err,
            r matches Err(e) ==> e == (PayloadTooShort {
                required: required_payload(self.packet()),
                actual: self.payload_len(),
            }),
            r matches Ok(p) ==> p == self.packet() && p.wf(),
    {
        proof {
            use_type_invariant(&self);
        }
        let required = payload_needed(&self.raw);
        if self.payload_len < required {
            return Err(PayloadTooShort { required, actual: self.payload_len });
        }
        Ok(self.raw)
    }

    fn flag(self, f: Control0Flag) -> (r: Self)
        ensures
            r.payload_len() == self.payload_len(),
            r.packet() == with_flag(self.packet(), f),
    {
        proof {
            use_type_invariant(&self);
        }
        let mut raw = self.raw;
        raw.control0.set(f);
        PacketBuilder { raw, payload_len: self.payload_len, _marker: PhantomData }
    }

    fn swap(self, conf: SwapConfig, word: Control0Flag, byte: Control0Flag) -> (r: Self)
        ensures
            r.payload_len() == self.payload_len(),
            r.packet() == with_swap(self.packet(), conf, word, byte),
    {
        match conf {
            SwapConfig::Keep => self,
            SwapConfig::WordSwap => self.flag(word),
            SwapConfig::ByteSwap => self.flag(byte),
            SwapConfig::WordByteSwap => self.flag(word).flag(byte),
        }
    }

    /// Sets the source: a buffer, or a constant for a constant fill (which also sets the
    /// constant-fill flag). The byte count is the destination's length; only while no
    /// destination is set (an operation that only hashes) does a source buffer give it.
    pub fn source(self, source: CopySource) -> (r: Self)
        ensures
            r.payload_len() == self.payload_len(),
            r.packet() == with_builder_source(self.packet(), source),
    {
        let b = match source {
            CopySource::ConstantFill(_) => self.flag(Control0Flag::ConstantFill),
            CopySource::MemoryBuffer(_) => self,
        };
        proof {
            use_type_invariant(&b);
        }
        let mut raw = b.raw;
        raw.source = Source::from(source);
        if let CopySource::MemoryBuffer(buf) = source {
            if raw.dest == 0 {
                raw.bufsize = BufSize::linear(buf.len);
            }
        }
        PacketBuilder { raw, payload_len: b.payload_len, _marker: PhantomData }
    }

    /// Sets the destination buffer; its length becomes the packet's byte count.
    pub fn dest(self, buf: Region) -> (r: Self)
        ensures
            r.payload_len() == self.payload_len(),
            r.packet() == (ControlPacket { dest: buf.addr, bufsize: BufSize { word: buf.len }, ..self.packet() }),
    {
        proof {
            use_type_invariant(&self);
        }
        let mut raw = self.raw;
        raw.dest = buf.addr;
        raw.bufsize = BufSize::linear(buf.len);
        PacketBuilder { raw, payload_len: self.payload_len, _marker: PhantomData }
    }

    /// Sets the payload buffer: the digest of a hash, the key and IV of a cipher. Its
    /// length is checked against the operation when the packet is built.
    pub fn payload(self, buf: Region) -> (r: Self)
        ensures
            r.payload_len() == buf.len,
            r.packet() == (ControlPacket { payload: buf.addr, ..self.packet() }),
    {
        proof {
            use_type_invariant(&self);
        }
        let mut raw = self.raw;
        raw.payload = buf.addr;
        PacketBuilder { raw, payload_len: buf.len, _marker: PhantomData }
    }

    /// Sets the packet tag, which the hardware echoes in the status.
    pub fn tag(self, tag: u8) -> (r: Self)
        ensures
            r.payload_len() == self.payload_len(),
            r.packet() == (ControlPacket { control0: Control0 { tag, ..self.packet().control0 }, ..self.packet() }),
    {
        proof {
            use_type_invariant(&self);
        }
        let mut raw = self.raw;
        raw.control0.tag = tag;
        PacketBuilder { raw, payload_len: self.payload_len, _marker: PhantomData }
    }

    /// Configures byte swapping of the input.
    pub fn input_swap(self, conf: SwapConfig) -> (r: Self)
        ensures
            r.payload_len() == self.payload_len(),
            r.packet() == with_swap(self.packet(), conf, Control0Flag::InputWordSwap, Control0Flag::InputByteSwap),
    {
        self.swap(conf, Control0Flag::InputWordSwap, Control0Flag::InputByteSwap)
    }

    /// Configures byte swapping of the output.
    pub fn output_swap(self, conf: SwapConfig) -> (r: Self)
        ensures
            r.payload_len() == self.payload_len(),
            r.packet() == with_swap(self.packet(), conf, Control0Flag::OutputWordSwap, Control0Flag::OutputByteSwap),
    {
        self.swap(conf, Control0Flag::OutputWordSwap, Control0Flag::OutputByteSwap)
    }

    /// Decrements the channel semaphore when done. Set it on the last packet of a chain.
    pub fn decr_semaphore(self) -> (r: Self)
        ensures
            r.payload_len() == self.payload_len(),
            r.packet() == with_flag(self.packet(), Control0Flag::DecrSemaphore),
    {
        self.flag(Control0Flag::DecrSemaphore)
    }

    /// Fires the DCP interrupt on completion.
    pub fn interrupt_enable(self) -> (r: Self)
        ensures
            r.payload_len() == self.payload_len(),
            r.packet() == with_flag(self.packet(), Control0Flag::InterruptEnable),
    {
        self.flag(Control0Flag::InterruptEnable)
    }
}

impl<T: Operation> Default for PacketBuilder<T> {
    fn default() -> (r: Self)
        ensures
            r.packet() == initial_packet::<T>(),
            r.payload_len() == 0,
    {
        Self::new()
    }
}

impl PacketBuilder<Blit> {
    /// Sets the destination framebuffer: a buffer and its line width in bytes.
    pub fn framebuffer(self, fb: Framebuffer) -> (r: Self)
        requires
            fb.width > 0,
        ensures
            r.payload_len() == self.payload_len(),
            r.packet() == (ControlPacket {
                dest: fb.pointer.addr,
                bufsize: BufSize { word: (fb.width as u32 + fb.spec_height() as u32 * 0x1_0000) as u32 },
                control1: Control1 { bits: fb.width as u32 },
                ..self.packet()
            }),
    {
        proof {
            use_type_invariant(&self);
        }
        let mut raw = self.raw;
        raw.dest = fb.pointer.addr;
        raw.bufsize = BufSize::blit(BlitSize { width: fb.width, height: fb.height() });
        raw.control1 = Control1::blit(fb.width);
        PacketBuilder { raw, payload_len: self.payload_len, _marker: PhantomData }
    }
}

impl<T: HasHash> PacketBuilder<T> {
    /// Sets the hashing algorithm.
    pub fn hash(self, hash: crate::packet::Hash) -> (r: Self)
        ensures
            r.payload_len() == self.payload_len(),
            r.packet() == (ControlPacket {
                control1: Control1 { bits: with_field(self.packet().control1.bits, 0xf, 16, hash.spec_code() as u32) },
                ..self.packet()
            }),
    {
        proof {
            use_type_invariant(&self);
        }
        let mut raw = self.raw;
        raw.control1.hash_select(hash.code());
        PacketBuilder { raw, payload_len: self.payload_len, _marker: PhantomData }
    }

    /// Starts a fresh digest. Needed on the first block of a series.
    pub fn hash_init(self) -> (r: Self)
        ensures
            r.payload_len() == self.payload_len(),
            r.packet() == with_flag(self.packet(), Control0Flag::HashInit),
    {
        self.flag(Control0Flag::HashInit)
    }

    /// Finishes the digest and writes it to the payload.
    pub fn hash_term(self) -> (r: Self)
        ensures
            r.payload_len() == self.payload_len(),
            r.packet() == with_flag(self.packet(), Control0Flag::HashTerm),
    {
        self.flag(Control0Flag::HashTerm)
    }

    /// Compares the digest with the one in the payload instead of writing it.
    pub fn hash_check(self) -> (r: Self)
        ensures
            r.payload_len() == self.payload_len(),
            r.packet() == with_flag(self.packet(), Control0Flag::HashCheck),
    {
        self.flag(Control0Flag::HashCheck)
    }
}

impl<T: HasCrypt> PacketBuilder<T> {
    /// Encrypts or decrypts in place: one buffer is both source and destination.
    pub fn in_place(self, buf: Region) -> (r: Self)
        ensures
            r.payload_len() == self.payload_len(),
            r.packet() == (ControlPacket {
                source: Source { word: buf.addr },
                dest: buf.addr,
                bufsize: BufSize { word: buf.len },
                ..self.packet()
            }),
    {
        proof {
            use_type_invariant(&self);
        }
        let mut raw = self.raw;
        raw.source = Source::pointer(buf.addr);
        raw.dest = buf.addr;
        raw.bufsize = BufSize::linear(buf.len);
        PacketBuilder { raw, payload_len: self.payload_len, _marker: PhantomData }
    }

    /// Selects the cipher: AES-128, in ECB or CBC mode.
    pub fn cipher(self, cipher: Cipher) -> (r: Self)
        ensures
            r.payload_len() == self.payload_len(),
            r.packet() == (ControlPacket {
                control1: Control1 {
                    bits: with_field(with_field(self.packet().control1.bits, 0xf, 0, 0), 0xf, 4, cipher.spec_mode() as u32),
                },
                ..self.packet()
            }),
    {
        proof {
            use_type_invariant(&self);
        }
        let mut raw = self.raw;
        raw.control1.cipher_select(0);
        raw.control1.cipher_mode(cipher.mode());
        PacketBuilder { raw, payload_len: self.payload_len, _marker: PhantomData }
    }

    /// Selects the key source: writes its selector byte and sets the one matching source
    /// flag, clearing the other. The payload sets the payload-key flag, the
    /// one-time-programmable key the OTP-key flag; a key RAM slot and the unique device
    /// key set neither.
    pub fn key(self, key: CryptKey) -> (r: Self)
        ensures
            r.payload_len() == self.payload_len(),
            r.packet() == (ControlPacket {
                control0: Control0 { flags: key_flags(self.packet().control0.flags, key), ..self.packet().control0 },
                control1: Control1 { bits: with_field(self.packet().control1.bits, 0xff, 8, key.spec_code() as u32) },
                ..self.packet()
            }),
            r.packet().control0.has(Control0Flag::PayloadKey) <==> key is Payload,
            r.packet().control0.has(Control0Flag::OtpKey) <==> key is Otp,
    {
        proof {
            use_type_invariant(&self);
        }
        let mut raw = self.raw;
        let f = raw.control0.flags;
        let cleared = f & !(0x800u32 | 0x400u32);
        proof {
            assert({
                &&& cleared < 0x100_0000
                &&& (cleared | 0x800) < 0x100_0000
                &&& (cleared | 0x400) < 0x100_0000
                &&& cleared & 0x800 != 0x800
                &&& cleared & 0x400 != 0x400
                &&& (cleared | 0x800) & 0x800 == 0x800
                &&& (cleared | 0x800) & 0x400 != 0x400
                &&& (cleared | 0x400) & 0x400 == 0x400
                &&& (cleared | 0x400) & 0x800 != 0x800
            }) by (bit_vector)
                requires
                    f < 0x100_0000,
                    cleared == f & !(0x800u32 | 0x400u32),
            ;
        }
        raw.control0.flags = match key {
            CryptKey::Payload => cleared | 0x800,
            CryptKey::Otp(_) => cleared | 0x400,
            _ => cleared,
        };
        raw.control1.key_select(key.into());
        PacketBuilder { raw, payload_len: self.payload_len, _marker: PhantomData }
    }

    /// Initializes the cipher; CBC takes its IV from the payload.
    pub fn cipher_init(self) -> (r: Self)
        ensures
            r.payload_len() == self.payload_len(),
            r.packet() == with_flag(self.packet(), Control0Flag::CipherInit),
    {
        self.flag(Control0Flag::CipherInit)
    }

    /// Encrypts the data (the default is to decrypt).
    pub fn encrypt(self) -> (r: Self)
        ensures
            r.payload_len() == self.payload_len(),
            r.packet() == with_flag(self.packet(), Control0Flag::CipherEncrypt),
    {
        self.flag(Control0Flag::CipherEncrypt)
    }

    /// Configures swapping of the key held in the payload.
    pub fn key_swap(self, conf: SwapConfig) -> (r: Self)
        ensures
            r.payload_len() == self.payload_len(),
            r.packet() == with_swap(self.packet(), conf, Control0Flag::KeyWordSwap, Control0Flag::KeyByteSwap),
    {
        self.swap(conf, Control0Flag::KeyWordSwap, Control0Flag::KeyByteSwap)
    }
}

} // verus!
