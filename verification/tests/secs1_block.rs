use secs_transport::common::{DeviceId, FunctionId, Rbit, StreamId, SystemByte, Wbit};
use secs_transport::error::SecsTransportError;
use secs_transport::secs1_block::{Secs1Block, Secs1BlockHeader, Secs1HandshakeCode};

fn sample_header() -> Secs1BlockHeader {
    Secs1BlockHeader {
        rbit: Rbit(true),
        device_id: DeviceId(0x1234),
        wbit: Wbit(true),
        stream: StreamId(0x45),
        function: FunctionId(0x67),
        ebit: true,
        block_no: 0x1234,
        system_byte: SystemByte(0x89ABCDEF),
    }
}

fn sample_block() -> Secs1Block {
    Secs1Block { header: sample_header(), data: vec![0x11, 0x22, 0x33, 0x44] }
}

#[test]
fn test_secs1_block_header_to_bytes() {
    let header = sample_header();
    assert_eq!(
        header.to_bytes(),
        [0x92, 0x34, 0xC5, 0x67, 0x92, 0x34, 0x89, 0xAB, 0xCD, 0xEF]
    );
}

#[test]
fn test_secs1_block_header_try_from() {
    let bytes = [0x92, 0x34, 0xC5, 0x67, 0x92, 0x34, 0x89, 0xAB, 0xCD, 0xEF];

    let header = Secs1BlockHeader::try_from(bytes).unwrap();

    assert_eq!(header.rbit, Rbit(true));
    assert_eq!(header.device_id, DeviceId(0x1234));
    assert_eq!(header.wbit, Wbit(true));
    assert_eq!(header.stream, StreamId(0x45));
    assert_eq!(header.function, FunctionId(0x67));
    assert!(header.ebit);
    assert_eq!(header.block_no, 0x1234);
    assert_eq!(header.system_byte, SystemByte(0x89ABCDEF));
}

#[test]
fn test_secs1_block_header_round_trip() {
    let header = sample_header();
    let bytes = header.to_bytes();
    let decoded = Secs1BlockHeader::try_from(bytes).unwrap();
    assert_eq!(decoded, header);
}

#[test]
fn test_secs1_block_to_bytes() {
    let block = sample_block();
    assert_eq!(
        block.to_bytes(),
        vec![0x92, 0x34, 0xC5, 0x67, 0x92, 0x34, 0x89, 0xAB, 0xCD, 0xEF, 0x11, 0x22, 0x33, 0x44]
    );
}

#[test]
fn test_secs1_block_try_from() {
    let raw = [0x92, 0x34, 0xC5, 0x67, 0x92, 0x34, 0x89, 0xAB, 0xCD, 0xEF, 0x11, 0x22, 0x33, 0x44];
    let block = Secs1Block::try_from(raw.as_slice()).unwrap();
    assert_eq!(block.header, sample_header());
    assert_eq!(block.data, vec![0x11, 0x22, 0x33, 0x44]);
}

#[test]
fn test_secs1_block_round_trip() {
    let block = sample_block();
    let bytes = block.to_bytes();
    let decoded = Secs1Block::try_from(bytes.as_slice()).unwrap();
    assert_eq!(decoded, block);
}

#[test]
fn test_secs1_block_checksum() {
    let block = sample_block();
    let expected = block
        .to_bytes()
        .iter()
        .fold(0u16, |acc, b| acc.wrapping_add(*b as u16));

    assert_eq!(block.checksum(), expected);
    assert!(block.verify_checksum(expected));
    assert!(!block.verify_checksum(expected.wrapping_add(1)));
}

#[test]
fn test_secs1_block_try_from_invalid_length() {
    assert!(matches!(
        Secs1Block::try_from(&[][..]),
        Err(SecsTransportError::InvalidBlockLength(0))
    ));
    assert!(matches!(
        Secs1Block::try_from(&[0u8; 9][..]),
        Err(SecsTransportError::InvalidBlockLength(9))
    ));
    assert!(matches!(
        Secs1Block::try_from(&[0u8; 255][..]),
        Err(SecsTransportError::InvalidBlockLength(255))
    ));
}

#[test]
fn checksum_value_of_sample_block() {
    // 0x92+0x34+0xC5+0x67+0x92+0x34+0x89+0xAB+0xCD+0xEF+0x11+0x22+0x33+0x44
    assert_eq!(sample_block().checksum(), 0x0652);
}

#[test]
fn bytes_with_checksum_end_with_the_checksum() {
    let block = sample_block();
    let bytes = block.to_bytes_with_checksum();
    assert_eq!(bytes.len(), 16);
    assert_eq!(&bytes[14..], &[0x06, 0x52]);
}

#[test]
fn shortest_and_longest_blocks_are_read() {
    assert!(Secs1Block::try_from(&[0u8; 10][..]).unwrap().data.is_empty());
    assert_eq!(Secs1Block::try_from(&[0u8; 254][..]).unwrap().data.len(), 244);
}

#[test]
fn header_flags() {
    let header = sample_header();
    assert!(header.is_end());
    assert!(header.need_reply());
    assert!(header.is_primary());
    assert!(!header.is_secondary());
    assert!(!header.is_first_block());
}

#[test]
fn handshake_codes_round_trip() {
    for code in [
        Secs1HandshakeCode::ENQ,
        Secs1HandshakeCode::EOT,
        Secs1HandshakeCode::ACK,
        Secs1HandshakeCode::NAK,
    ] {
        assert_eq!(Secs1HandshakeCode::from_byte(code.to_byte()), Some(code));
    }
    assert_eq!(Secs1HandshakeCode::ENQ.to_byte(), 0x05);
    assert_eq!(Secs1HandshakeCode::EOT.to_byte(), 0x04);
    assert_eq!(Secs1HandshakeCode::ACK.to_byte(), 0x06);
    assert_eq!(Secs1HandshakeCode::NAK.to_byte(), 0x15);
    assert_eq!(Secs1HandshakeCode::from_byte(0x00), None);
}
