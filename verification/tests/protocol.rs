use papa::cmds::OpCodes;
use papa::compat::firmware::BuildInfo;
use papa::driver::firmware::{unknown_segment, SegmentInfo};
use papa::driver::reset::ResetSource;
use papa::driver::{AddressConfig, HandlerMode};
use papa::io::U24;
use papa::protocol::firmware::{
    RebootRequest, RebootResponse, RebootResult, RebootTime, SegmentAndLocation, UpdatePrepareResponse,
    UpdatePrepareResult,
};
use papa::protocol::flash::{AddressMode, Header as FlashHeader, OpCode};
use papa::protocol::payload::{compute_checksum, ContentType, Crc8, Header};
use papa::transport::{unwrap_message, wrap_message, UnwrapError};
use papa::wire::{FromWire, FromWireError, ToWire, ToWireError};

#[test]
fn crc8_check_value() {
    let mut crc = Crc8::init();
    crc.add(b"123456789");
    assert_eq!(crc.get(), 0xf4);
}

#[test]
fn crc8_chained_adds() {
    let mut crc = Crc8::init();
    assert_eq!(crc.add(b"1234").add(b"").add(b"56789").get(), 0xf4);
}

#[test]
fn crc8_incremental_law() {
    let mut whole = Crc8::init();
    whole.add(b"hello world");
    let mut parts = Crc8::init();
    parts.add(b"hello");
    parts.add(b" world");
    assert_eq!(whole.get(), parts.get());
}

#[test]
fn checksum_of_header_and_content() {
    let header = Header { content: ContentType::Manticore, content_len: 5, checksum: 0 };
    assert_eq!(compute_checksum(&header, b"hello, more"), 0x0c);
}

#[test]
fn payload_header_roundtrip() {
    let header = Header { content: ContentType::Firmware, content_len: 0x1234, checksum: 0x56 };
    let mut out: Vec<u8> = Vec::new();
    header.to_wire(&mut out).unwrap();
    assert_eq!(out, vec![0x02, 0x12, 0x34, 0x56]);
    let mut r: &[u8] = &out;
    assert_eq!(Header::from_wire(&mut r).unwrap(), header);
}

#[test]
fn payload_header_errors() {
    let mut short: &[u8] = &[0x01, 0x00];
    assert!(matches!(Header::from_wire(&mut short), Err(FromWireError::Io(_))));
    let mut bad: &[u8] = &[0x07, 0x00, 0x00, 0x00];
    assert_eq!(Header::from_wire(&mut bad), Err(FromWireError::OutOfRange));
}

#[test]
fn wrap_then_unwrap() {
    let framed = wrap_message(b"hello");
    assert_eq!(framed, vec![0x01, 0x00, 0x05, 0x0c, b'h', b'e', b'l', b'l', b'o']);
    assert_eq!(unwrap_message(&framed).unwrap(), b"hello");
}

#[test]
fn unwrap_errors() {
    assert!(matches!(unwrap_message(&[0x01, 0x00]), Err(UnwrapError::Header(_))));
    assert_eq!(
        unwrap_message(&[0x02, 0x00, 0x00, 0x00]),
        Err(UnwrapError::UnsupportedContent(ContentType::Firmware))
    );
    assert_eq!(unwrap_message(&[0x01, 0x00, 0x05, 0x00, 1, 2]), Err(UnwrapError::Truncated));
}

#[test]
fn reboot_messages_roundtrip() {
    let req = RebootRequest { time: RebootTime::Delayed };
    let mut out: Vec<u8> = Vec::new();
    req.to_wire(&mut out).unwrap();
    assert_eq!(out, vec![0x01]);
    let mut r: &[u8] = &out;
    assert_eq!(RebootRequest::from_wire(&mut r).unwrap(), req);

    let resp = RebootResponse { time: RebootTime::Immediate, result: RebootResult::Error };
    let mut out: Vec<u8> = Vec::new();
    resp.to_wire(&mut out).unwrap();
    let mut r: &[u8] = &out;
    assert_eq!(RebootResponse::from_wire(&mut r).unwrap(), resp);
}

#[test]
fn update_prepare_response_bytes() {
    let resp = UpdatePrepareResponse {
        segment_and_location: SegmentAndLocation::RwB,
        max_chunk_length: 0x0200,
        result: UpdatePrepareResult::InvalidSegmentAndLocation,
    };
    let mut out: Vec<u8> = Vec::new();
    resp.to_wire(&mut out).unwrap();
    assert_eq!(out, vec![0x04, 0x02, 0x00, 0x02]);
    let mut bad: &[u8] = &[0x04, 0x02, 0x00, 0x09];
    assert_eq!(UpdatePrepareResponse::from_wire(&mut bad), Err(FromWireError::OutOfRange));
}

#[test]
fn flash_header_three_byte_address() {
    let mut r: &[u8] = &[0x0b, 0x12, 0x34, 0x56, 0x00, 0xaa];
    let h = FlashHeader::<U24>::from_wire(&mut r).unwrap();
    assert_eq!(h.opcode, OpCode::FastRead);
    assert_eq!(h.get_address(), Some(0x123456));
    assert_eq!(r, &[0xaa]);
}

#[test]
fn flash_header_four_byte_address_roundtrip() {
    let h = FlashHeader::<u32> { opcode: OpCode::PageProgram, address: Some(0x01020304) };
    let mut out: Vec<u8> = Vec::new();
    h.to_wire(&mut out).unwrap();
    assert_eq!(out, vec![0x02, 0x01, 0x02, 0x03, 0x04]);
    let mut r: &[u8] = &out;
    assert_eq!(FlashHeader::<u32>::from_wire(&mut r).unwrap(), h);
}

#[test]
fn flash_header_missing_address() {
    let h = FlashHeader::<u32> { opcode: OpCode::SectorErase, address: None };
    let mut out: Vec<u8> = Vec::new();
    assert_eq!(h.to_wire(&mut out), Err(ToWireError::InvalidData));
    let mut bad: &[u8] = &[0x42];
    assert_eq!(FlashHeader::<u32>::from_wire(&mut bad), Err(FromWireError::OutOfRange));
}

#[test]
fn op_code_properties() {
    assert!(OpCode::NormalRead.has_address());
    assert!(!OpCode::ReadJedec.has_address());
    assert!(OpCode::FastRead.has_dummy_byte());
    assert!(!OpCode::NormalRead.has_dummy_byte());
    assert!(OpCode::PageProgram.has_data());
    assert!(OpCode::SectorErase.wait_busy_clear());
    assert!(!OpCode::ReadStatusRegister.wait_busy_clear());
}

#[test]
fn modes_from_numbers() {
    assert_eq!(AddressMode::try_from(1).ok(), Some(AddressMode::FourByte));
    assert!(AddressMode::try_from(2).is_err());
    assert_eq!(usize::from(AddressMode::FourByte), 1);
    assert_eq!(HandlerMode::try_from(2).ok(), Some(HandlerMode::KernelSpace));
    assert!(HandlerMode::try_from(3).is_err());
    assert_eq!(HandlerMode::default(), HandlerMode::Disabled);
}

#[test]
fn address_config_roundtrip() {
    let config = AddressConfig {
        flash_virtual_base: 0x1000_0000,
        flash_physical_base: 0,
        flash_physical_size: 0x0200_0000,
        ram_virtual_base: 0x2000_0000,
        virtual_size: 0x4000_0000,
    };
    let mut out: Vec<u8> = Vec::new();
    config.to_wire(&mut out).unwrap();
    assert_eq!(out.len(), 20);
    assert_eq!(&out[0..4], &[0x10, 0, 0, 0]);
    let mut r: &[u8] = &out;
    assert_eq!(AddressConfig::from_wire(&mut r).unwrap(), config);
}

#[test]
fn reset_source_roundtrip() {
    let source = ResetSource {
        power_on_reset: true,
        low_power_reset: false,
        watchdog_reset: true,
        lockup_reset: false,
        sysreset: false,
        software_reset: true,
        fast_burnout_circuit: false,
        security_breach_reset: true,
    };
    let mut out: Vec<u8> = Vec::new();
    source.to_wire(&mut out).unwrap();
    assert_eq!(out, vec![1, 0, 1, 0, 0, 1, 0, 1]);
    let mut r: &[u8] = &out;
    assert_eq!(ResetSource::from_wire(&mut r).unwrap(), source);
}

#[test]
fn segment_info_roundtrip() {
    let info = SegmentInfo {
        identifier: SegmentAndLocation::RoB,
        address: 0x4000,
        size: 0x2000,
        start_page: 8,
        page_count: 4,
    };
    let mut out: Vec<u8> = Vec::new();
    info.to_wire(&mut out).unwrap();
    assert_eq!(out.len(), 17);
    assert_eq!(out[0], 0x02);
    let mut r: &[u8] = &out;
    assert_eq!(SegmentInfo::from_wire(&mut r).unwrap(), info);
    assert_eq!(unknown_segment().identifier, SegmentAndLocation::Unknown);
}

#[test]
fn build_info_little_endian() {
    let info = BuildInfo { epoch: 1, major: 2, minor: 3, timestamp: 0x0102030405060708 };
    let mut out: Vec<u8> = Vec::new();
    info.to_wire(&mut out).unwrap();
    assert_eq!(&out[0..4], &[1, 0, 0, 0]);
    assert_eq!(&out[12..20], &[8, 7, 6, 5, 4, 3, 2, 1]);
    let mut r: &[u8] = &out;
    assert_eq!(BuildInfo::from_wire(&mut r).unwrap(), info);
}

#[test]
fn spi_op_codes() {
    assert_eq!(OpCodes::ReadJedec.value(), 0x9f);
}

#[test]
fn flash_header_roundtrip_through_cursor() {
    let h = FlashHeader::<U24> { opcode: OpCode::NormalRead, address: Some(U24::new(0x0a0b0c)) };
    let mut buf = [0u8; 16];
    let mut c = papa::io::Cursor::new(&mut buf);
    h.to_wire(&mut c).unwrap();
    let bytes = c.take_consumed_bytes();
    assert_eq!(bytes, &[0x03, 0x0a, 0x0b, 0x0c]);
    let mut r: &[u8] = &bytes[..];
    let back = FlashHeader::<U24>::from_wire(&mut r).unwrap();
    assert_eq!(back.opcode, h.opcode);
    assert_eq!(back.address.map(|a| a.get()), Some(0x0a0b0c));
    assert!(r.is_empty());
}
