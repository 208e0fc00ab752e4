use imxrt_dcp::builder::PacketBuilder;
use imxrt_dcp::config::{CopySource, CryptKey, Framebuffer, Region};
use imxrt_dcp::ops::{Aes128Cbc, Aes128Ecb, Blit, Crc32, Memcopy, Sha1, Sha256, SwapConfig};
use imxrt_dcp::packet::Cipher;
use imxrt_dcp::PayloadTooShort;

const PAYLOAD: Region = Region { addr: 0x2000_0300, len: 64 };

#[test]
fn memcopy_builder_sets_buffers_and_tag() {
    let p = PacketBuilder::<Memcopy>::new()
        .tag(7)
        .source(CopySource::MemoryBuffer(Region { addr: 0x2000_0100, len: 64 }))
        .dest(Region { addr: 0x2000_0200, len: 64 })
        .decr_semaphore()
        .build()
        .unwrap();
    assert_eq!(p.control0.flags, 0x10 | 0x2);
    assert_eq!(p.control0.tag, 7);
    assert_eq!(p.source.word, 0x2000_0100);
    assert_eq!(p.dest, 0x2000_0200);
    assert_eq!(p.bufsize.word, 64);
    assert_eq!(p.payload, 0);
    assert_eq!(p.next, 0);
}

#[test]
fn source_after_dest_keeps_destination_length() {
    let p = PacketBuilder::<Memcopy>::new()
        .dest(Region { addr: 0x2000_0200, len: 16 })
        .source(CopySource::MemoryBuffer(Region { addr: 0x2000_0100, len: 64 }))
        .build()
        .unwrap();
    assert_eq!(p.bufsize.word, 16);
    let p = PacketBuilder::<Memcopy>::new()
        .source(CopySource::MemoryBuffer(Region { addr: 0x2000_0100, len: 64 }))
        .dest(Region { addr: 0x2000_0200, len: 16 })
        .build()
        .unwrap();
    assert_eq!(p.bufsize.word, 16);
}

#[test]
fn default_builder_equals_new() {
    let a = PacketBuilder::<Memcopy>::default().build().unwrap();
    let b = PacketBuilder::<Memcopy>::new().build().unwrap();
    assert_eq!(a, b);
}

#[test]
fn constant_fill_source_sets_flag() {
    let p = PacketBuilder::<Memcopy>::new().source(CopySource::ConstantFill(0xa5a5_a5a5)).build().unwrap();
    assert_eq!(p.source.word, 0xa5a5_a5a5);
    assert_eq!(p.control0.flags, 0x10 | 0x1_0000);
}

#[test]
fn hash_builder_selects_algorithm_from_type() {
    let p = PacketBuilder::<imxrt_dcp::ops::Hash<Crc32>>::new().payload(PAYLOAD).build().unwrap();
    assert_eq!(p.control0.flags, 0x40);
    assert_eq!(p.control1.bits, 0x0001_0000);
    let p = PacketBuilder::<imxrt_dcp::ops::Hash<Sha256>>::new().payload(PAYLOAD).build().unwrap();
    assert_eq!(p.control1.bits, 0x0002_0000);
    let p = PacketBuilder::<imxrt_dcp::ops::Hash<Sha1>>::new()
        .hash(imxrt_dcp::packet::Hash::Crc32)
        .hash_init()
        .hash_term()
        .hash_check()
        .payload(PAYLOAD)
        .build()
        .unwrap();
    assert_eq!(p.control1.bits, 0x0001_0000);
    assert_eq!(p.control0.flags, 0x40 | 0x1000 | 0x2000 | 0x4000);
    assert_eq!(p.payload, 0x2000_0300);
}

#[test]
fn hash_builder_payload_shorter_than_digest_fails() {
    let short = |len: u32| Region { addr: 0x300, len };
    let r = PacketBuilder::<imxrt_dcp::ops::Hash<Sha256>>::new().payload(short(31)).build();
    assert_eq!(r.err(), Some(PayloadTooShort { required: 32, actual: 31 }));
    let r = PacketBuilder::<imxrt_dcp::ops::Hash<Sha1>>::new().payload(short(19)).build();
    assert_eq!(r.err(), Some(PayloadTooShort { required: 20, actual: 19 }));
    let r = PacketBuilder::<imxrt_dcp::ops::Hash<Crc32>>::new().build();
    assert_eq!(r.err(), Some(PayloadTooShort { required: 4, actual: 0 }));
    let p = PacketBuilder::<imxrt_dcp::ops::Hash<Crc32>>::new().payload(short(4)).build().unwrap();
    assert_eq!(p.payload, 0x300);
}

#[test]
fn payload_is_checked_against_the_selected_hash() {
    let r = PacketBuilder::<imxrt_dcp::ops::Hash<Sha1>>::new()
        .hash(imxrt_dcp::packet::Hash::Sha256)
        .payload(Region { addr: 0x300, len: 20 })
        .build();
    assert_eq!(r.err(), Some(PayloadTooShort { required: 32, actual: 20 }));
    let r = PacketBuilder::<imxrt_dcp::ops::Hash<Sha1>>::new()
        .payload(Region { addr: 0x300, len: 20 })
        .hash(imxrt_dcp::packet::Hash::Sha256)
        .build();
    assert_eq!(r.err(), Some(PayloadTooShort { required: 32, actual: 20 }));
    let r = PacketBuilder::<imxrt_dcp::ops::Cipher<Aes128Ecb>>::new()
        .payload(Region { addr: 0x300, len: 16 })
        .cipher(Cipher::Aes128Cbc)
        .build();
    assert_eq!(r.err(), Some(PayloadTooShort { required: 32, actual: 16 }));
}

#[test]
fn swap_configs_map_to_flags() {
    let keep = PacketBuilder::<Memcopy>::new().input_swap(SwapConfig::Keep).build().unwrap();
    assert_eq!(keep.control0.flags, 0x10);
    let w = PacketBuilder::<Memcopy>::new().input_swap(SwapConfig::WordSwap).build().unwrap();
    assert_eq!(w.control0.flags, 0x10 | 0x20_0000);
    let b = PacketBuilder::<Memcopy>::new().input_swap(SwapConfig::ByteSwap).build().unwrap();
    assert_eq!(b.control0.flags, 0x10 | 0x10_0000);
    let wb = PacketBuilder::<Memcopy>::new().output_swap(SwapConfig::WordByteSwap).build().unwrap();
    assert_eq!(wb.control0.flags, 0x10 | 0x80_0000 | 0x40_0000);
    let k = PacketBuilder::<imxrt_dcp::ops::Cipher<Aes128Cbc>>::new()
        .key_swap(SwapConfig::WordByteSwap)
        .payload(PAYLOAD)
        .build()
        .unwrap();
    assert_eq!(k.control0.flags, 0x20 | 0x800 | 0x8_0000 | 0x4_0000);
}

#[test]
fn cipher_builder_settings() {
    let p = PacketBuilder::<imxrt_dcp::ops::Cipher<Aes128Cbc>>::new().payload(PAYLOAD).build().unwrap();
    assert_eq!(p.control0.flags, 0x20 | 0x800);
    assert_eq!(p.control1.bits, 0x10);
    let p = PacketBuilder::<imxrt_dcp::ops::Cipher<Aes128Cbc>>::new()
        .cipher(Cipher::Aes128Ecb)
        .key(CryptKey::KeyRam(3))
        .cipher_init()
        .encrypt()
        .in_place(Region { addr: 0x400, len: 48 })
        .interrupt_enable()
        .payload(Region { addr: 0x500, len: 16 })
        .build()
        .unwrap();
    assert_eq!(p.control1.bits, 0x0300);
    assert_eq!(p.control0.flags, 0x20 | 0x200 | 0x100 | 0x1);
    assert_eq!((p.source.word, p.dest, p.bufsize.word), (0x400, 0x400, 48));
    let r = PacketBuilder::<imxrt_dcp::ops::Cipher<Aes128Cbc>>::new().payload(Region { addr: 0x500, len: 16 }).build();
    assert_eq!(r.err(), Some(PayloadTooShort { required: 32, actual: 16 }));
}

#[test]
fn key_source_sets_selector_and_flag() {
    let build = |k: CryptKey| {
        PacketBuilder::<imxrt_dcp::ops::Cipher<Aes128Ecb>>::new().key(k).payload(PAYLOAD).build().unwrap()
    };
    let p = build(CryptKey::Otp(true));
    assert_eq!(p.control0.flags, 0x20 | 0x400);
    assert_eq!((p.control1.bits >> 8) & 0xff, 0xff);
    let p = build(CryptKey::Payload);
    assert_eq!(p.control0.flags, 0x20 | 0x800);
    assert_eq!((p.control1.bits >> 8) & 0xff, 0x00);
    let p = build(CryptKey::Unique);
    assert_eq!(p.control0.flags, 0x20);
    assert_eq!((p.control1.bits >> 8) & 0xff, 0xfe);
    let p = build(CryptKey::KeyRam(2));
    assert_eq!(p.control0.flags, 0x20);
    assert_eq!((p.control1.bits >> 8) & 0xff, 0x02);
    let p = PacketBuilder::<imxrt_dcp::ops::Cipher<Aes128Ecb>>::new()
        .key(CryptKey::Otp(false))
        .key(CryptKey::Payload)
        .payload(PAYLOAD)
        .build()
        .unwrap();
    assert_eq!(p.control0.flags, 0x20 | 0x800);
}

#[test]
fn blit_builder_framebuffer() {
    let fb = Framebuffer { pointer: Region { addr: 0x2000_1000, len: 320 * 240 }, width: 320 };
    let p = PacketBuilder::<Blit>::new().framebuffer(fb).build().unwrap();
    assert_eq!(p.control0.flags, 0x80);
    assert_eq!(p.dest, 0x2000_1000);
    assert_eq!(p.bufsize.word, (240 << 16) | 320);
    assert_eq!(p.control1.bits, 320);
}
