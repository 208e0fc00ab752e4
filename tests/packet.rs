use imxrt_dcp::config::{CopySource, CryptKey, CryptMem, Framebuffer, Region};
use imxrt_dcp::packet::{
    BlitSize, BufSize, Cipher, Control0, Control0Flag, Control1, ControlPacket, KeySelect, Source, Status,
};
use imxrt_dcp::Error;

fn status(bits: u8, code: u8, tag: u8) -> Status {
    Status { bits, pad: 0, error_code: code, tag }
}

#[test]
fn control0_flag_sets_bit_and_keeps_tag() {
    let mut c = Control0::empty();
    c.tag = 0x5a;
    let c = c.flag(Control0Flag::ChainContinuous).flag(Control0Flag::OutputWordSwap);
    assert_eq!(c.flags, 0x8 | 0x80_0000);
    assert_eq!(c.tag, 0x5a);
    let again = c.flag(Control0Flag::ChainContinuous);
    assert_eq!(again.flags, c.flags);
}

#[test]
fn control0_flag_masks_cover_24_bits() {
    let all = [
        Control0Flag::InterruptEnable,
        Control0Flag::DecrSemaphore,
        Control0Flag::Chain,
        Control0Flag::ChainContinuous,
        Control0Flag::EnableMemcopy,
        Control0Flag::EnableCipher,
        Control0Flag::EnableHash,
        Control0Flag::EnableBlit,
        Control0Flag::CipherEncrypt,
        Control0Flag::CipherInit,
        Control0Flag::OtpKey,
        Control0Flag::PayloadKey,
        Control0Flag::HashInit,
        Control0Flag::HashTerm,
        Control0Flag::HashCheck,
        Control0Flag::HashOutput,
        Control0Flag::ConstantFill,
        Control0Flag::TestSemaIrq,
        Control0Flag::KeyByteSwap,
        Control0Flag::KeyWordSwap,
        Control0Flag::InputByteSwap,
        Control0Flag::InputWordSwap,
        Control0Flag::OutputByteSwap,
        Control0Flag::OutputWordSwap,
    ];
    for (i, f) in all.iter().enumerate() {
        assert_eq!(f.mask(), 1u32 << i);
    }
}

#[test]
fn control0_operation_constructors() {
    assert_eq!(Control0::memcopy().flags, 0x10);
    assert_eq!(Control0::cipher().flags, 0x20);
    assert_eq!(Control0::hash().flags, 0x40);
    assert_eq!(Control0::blit().flags, 0x80);
    assert_eq!(Control0::memcopy_hash().flags, 0x50);
    assert_eq!(Control0::cipher_hash().flags, 0x60);
}

#[test]
fn control1_fields_stored_in_their_bits() {
    let mut c = Control1::empty();
    c.cipher_select(0x3);
    c.cipher_mode(0x1);
    c.key_select(0xfe);
    c.hash_select(0x2);
    c.cipher_config(0xab);
    assert_eq!(c.bits, 0xab02_fe13);
    c.key_select(0x01);
    assert_eq!(c.bits, 0xab02_0113);
    c.hash_select(0x1f);
    assert_eq!(c.bits, 0xab0f_0113);
    assert_eq!(Control1::blit(640).bits, 640);
}

#[test]
fn status_not_done_would_block() {
    assert_eq!(status(0, 0, 1).poll(), Err(nb::Error::WouldBlock));
    assert_eq!(status(2, 9, 1).poll(), Err(nb::Error::WouldBlock));
}

#[test]
fn status_done_returns_tag() {
    assert_eq!(status(1, 0, 7).poll(), Ok(7));
}

#[test]
fn status_error_classes() {
    assert_eq!(status(1 | 2, 0x11, 7).poll(), Err(nb::Error::Other(Error::HashMismatch(0x11))));
    assert_eq!(status(1 | 4, 0x12, 7).poll(), Err(nb::Error::Other(Error::SetupError(0x12))));
    assert_eq!(status(1 | 8, 0x13, 7).poll(), Err(nb::Error::Other(Error::PacketError(0x13))));
    assert_eq!(status(1 | 16, 0x14, 7).poll(), Err(nb::Error::Other(Error::SourceError(0x14))));
    assert_eq!(status(1 | 32, 0x15, 7).poll(), Err(nb::Error::Other(Error::DestError(0x15))));
    assert_eq!(status(1 | 64, 0x16, 7).poll(), Err(nb::Error::Other(Error::Other(0x16))));
    assert_eq!(status(1 | 2 | 4, 0x17, 7).poll(), Err(nb::Error::Other(Error::Other(0x17))));
}

#[test]
fn packet_bytes_follow_hardware_layout() {
    let mut p = ControlPacket::zeroed();
    p.next = 0x1122_3344;
    p.control0 = Control0::memcopy().flag(Control0Flag::DecrSemaphore);
    p.control0.tag = 0x99;
    p.control1 = Control1 { bits: 0x0001_0000 };
    p.source = Source::pointer(0x2000_0100);
    p.dest = 0x2000_0200;
    p.bufsize = BufSize::linear(64);
    p.payload = 0x2000_0300;
    p.status = Status { bits: 1, pad: 0, error_code: 0x42, tag: 0x99 };
    let b = p.to_bytes();
    assert_eq!(
        b,
        vec![
            0x44, 0x33, 0x22, 0x11, // next
            0x12, 0x00, 0x00, 0x99, // control0: flags, tag
            0x00, 0x00, 0x01, 0x00, // control1
            0x00, 0x01, 0x00, 0x20, // source
            0x00, 0x02, 0x00, 0x20, // dest
            0x40, 0x00, 0x00, 0x00, // bufsize
            0x00, 0x03, 0x00, 0x20, // payload
            0x01, 0x00, 0x42, 0x99, // status
        ]
    );
    assert_eq!(ControlPacket::zeroed().to_bytes(), vec![0u8; 32]);
}

#[test]
fn source_constant_and_pointer_share_the_word() {
    assert_eq!(Source::constant(0xdead_beef).word, 0xdead_beef);
    assert_eq!(Source::pointer(0x2000_0000).word, 0x2000_0000);
    let s: Source = CopySource::ConstantFill(0x0102_0304).into();
    assert_eq!(s.word, 0x0102_0304);
    let s: Source = CopySource::MemoryBuffer(Region { addr: 0x2000_0040, len: 8 }).into();
    assert_eq!(s.word, 0x2000_0040);
}

#[test]
fn bufsize_blit_packs_width_low_height_high() {
    assert_eq!(BufSize::blit(BlitSize { width: 0x0140, height: 0x00f0 }).word, 0x00f0_0140);
    assert_eq!(BufSize::blit(BlitSize { width: 0xffff, height: 0xffff }).word, 0xffff_ffff);
}

#[test]
fn framebuffer_height_counts_whole_lines() {
    let fb = Framebuffer { pointer: Region { addr: 0, len: 1000 }, width: 100 };
    assert_eq!(fb.height(), 10);
    let fb = Framebuffer { pointer: Region { addr: 0, len: 1050 }, width: 100 };
    assert_eq!(fb.height(), 10);
    let fb = Framebuffer { pointer: Region { addr: 0, len: 99 }, width: 100 };
    assert_eq!(fb.height(), 0);
}

#[test]
fn key_and_algorithm_codes() {
    assert_eq!(CryptKey::Payload.into(), 0x00);
    assert_eq!(CryptKey::KeyRam(3).into(), 0x03);
    assert_eq!(CryptKey::Unique.into(), 0xfe);
    assert_eq!(CryptKey::Otp(true).into(), 0xff);
    assert_eq!(KeySelect::Key2.code(), 2);
    assert_eq!(KeySelect::UniqueKey.code(), 0xfe);
    assert_eq!(KeySelect::OtpKey.code(), 0xff);
    assert_eq!(imxrt_dcp::packet::Hash::Sha1.code(), 0);
    assert_eq!(imxrt_dcp::packet::Hash::Crc32.code(), 1);
    assert_eq!(imxrt_dcp::packet::Hash::Sha256.code(), 2);
    assert_eq!(Cipher::Aes128Ecb.mode(), 0);
    assert_eq!(Cipher::Aes128Cbc.mode(), 1);
}

#[test]
fn crypt_mem_source_and_dest() {
    let a = Region { addr: 0x100, len: 16 };
    let b = Region { addr: 0x200, len: 16 };
    let (s, d) = CryptMem::SourceDest(a, b).into();
    assert_eq!((s.word, d), (0x100, 0x200));
    let (s, d) = CryptMem::InPlace(a).into();
    assert_eq!((s.word, d), (0x100, 0x100));
}
