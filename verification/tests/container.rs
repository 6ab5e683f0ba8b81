use binvid::codec::rip_binary;
use binvid::container::{read, read_header, read_payload, unpack_bits, Header};
use binvid::error::EtchError;
use binvid::settings::{Data, OutputMode};

fn container(magic: &[u8], length: u32, payload: &[u8]) -> Vec<u8> {
    let mut bytes = magic.to_vec();
    bytes.extend_from_slice(&length.to_le_bytes());
    bytes.extend_from_slice(payload);
    bytes
}

#[test]
fn four_bytes_in_binary_mode() {
    let input = vec![0x01, 0x02, 0x03, 0x04];
    let data = Data::from_binary(rip_binary(input.clone()).unwrap());
    let written = binvid::container::write(&data);
    assert_eq!(&written[0..6], b"BINVID");
    assert_eq!(&written[6..10], &[32, 0, 0, 0]);
    assert_eq!(&written[10..], &input[..]);
    assert_eq!(written.len(), 14);
    assert_eq!(read(&written), Ok(input));
}

#[test]
fn binary_container_round_trips_every_byte_value() {
    let input: Vec<u8> = (0..=255u8).rev().collect();
    let data = Data::from_binary(rip_binary(input.clone()).unwrap());
    let written = binvid::container::write(&data);
    assert_eq!(&written[6..10], &2048u32.to_le_bytes());
    assert_eq!(read(&written), Ok(input));
}

#[test]
fn binary_container_of_eleven_bits() {
    let bits = vec![true, true, false, false, true, false, false, false, true, false, true];
    let written = binvid::container::write(&Data::from_binary(bits));
    assert_eq!(written, container(b"BINVID", 11, &[0b0001_0011, 0b0000_0101]));
    assert_eq!(read(&written), Ok(vec![0b0001_0011, 0b0000_0101]));
}

#[test]
fn binary_container_of_no_bits() {
    let written = binvid::container::write(&Data::from_binary(Vec::new()));
    assert_eq!(written, container(b"BINVID", 0, &[]));
    assert_eq!(read(&written), Ok(Vec::new()));
}

#[test]
fn color_container_holds_the_bytes_verbatim() {
    let input = vec![9u8, 8, 7, 6, 5];
    let written = binvid::container::write(&Data::from_color(input.clone()));
    assert_eq!(written, container(b"COLVID", 5, &input));
    assert_eq!(read(&written), Ok(input));
}

#[test]
fn color_read_ignores_the_stored_length() {
    let payload = vec![1u8, 2, 3, 4, 5, 6, 7];
    assert_eq!(read(&container(b"COLVID", 0, &payload)), Ok(payload.clone()));
    assert_eq!(read(&container(b"COLVID", 3, &payload)), Ok(payload.clone()));
    assert_eq!(read(&container(b"COLVID", u32::MAX, &payload)), Ok(payload));
}

#[test]
fn binary_read_stops_at_the_stored_bit_count() {
    let payload = [0xFF, 0xFF, 0xFF];
    assert_eq!(read(&container(b"BINVID", 0, &payload)), Ok(vec![]));
    assert_eq!(read(&container(b"BINVID", 3, &payload)), Ok(vec![0b0000_0111]));
    assert_eq!(read(&container(b"BINVID", 8, &payload)), Ok(vec![0xFF]));
    assert_eq!(read(&container(b"BINVID", 12, &payload)), Ok(vec![0xFF, 0x0F]));
    assert_eq!(read(&container(b"BINVID", 24, &payload)), Ok(vec![0xFF, 0xFF, 0xFF]));
}

#[test]
fn binary_read_takes_what_is_there_when_the_count_is_too_large() {
    let payload = [0xA5, 0x5A];
    assert_eq!(read(&container(b"BINVID", 1000, &payload)), Ok(vec![0xA5, 0x5A]));
    assert_eq!(read(&container(b"BINVID", u32::MAX, &payload)), Ok(vec![0xA5, 0x5A]));
    assert_eq!(read(&container(b"BINVID", 5, &[])), Ok(vec![]));
}

#[test]
fn unpack_bits_gives_the_leading_bits() {
    assert_eq!(unpack_bits(&[0b0000_0101, 0xFF], 10), vec![
        true, false, true, false, false, false, false, false, true, true
    ]);
    assert_eq!(unpack_bits(&[0x01], 100).len(), 8);
    assert_eq!(unpack_bits(&[0x01], 0), Vec::<bool>::new());
}

#[test]
fn unknown_magic_is_refused() {
    let bytes = container(b"VIDBIN", 4, &[1, 2, 3, 4]);
    assert_eq!(read(&bytes), Err(EtchError::UnknownFormat));
    assert_eq!(read_header(&bytes[..10]), Err(EtchError::UnknownFormat));
    assert_eq!(read(&container(b"binvid", 0, &[])), Err(EtchError::UnknownFormat));
    assert_eq!(read(&container(b"BINVIX", 0, &[])), Err(EtchError::UnknownFormat));
}

#[test]
fn unknown_magic_is_refused_whatever_follows_the_header() {
    let short = container(b"NOTVID", 1, &[]);
    let long = container(b"NOTVID", 1, &[0xFF; 64]);
    assert_eq!(read(&short), read(&long));
    assert_eq!(read_header(&short), read_header(&long));
}

#[test]
fn tag_that_is_not_utf8_is_an_invalid_header() {
    let bytes = container(&[0xFF, 0xFE, 0x00, 0x01, 0x02, 0x03], 0, &[]);
    assert_eq!(read(&bytes), Err(EtchError::InvalidHeader));
    let cut = container(&[b'B', b'I', b'N', b'V', b'I', 0xC3], 0, &[]);
    assert_eq!(read(&cut), Err(EtchError::InvalidHeader));
    let two_byte_char = container(&[b'B', b'I', b'N', b'V', 0xC3, 0xA9], 0, &[]);
    assert_eq!(read(&two_byte_char), Err(EtchError::UnknownFormat));
}

#[test]
fn short_input_is_a_truncated_header() {
    assert_eq!(read(&[]), Err(EtchError::TruncatedHeader));
    assert_eq!(read(b"BINVID"), Err(EtchError::TruncatedHeader));
    assert_eq!(read(b"BINVID\x01\x00\x00"), Err(EtchError::TruncatedHeader));
    assert_eq!(read_header(b"COLVID\x01\x00\x00"), Err(EtchError::TruncatedHeader));
}

#[test]
fn header_holds_mode_and_little_endian_length() {
    assert_eq!(
        read_header(b"BINVID\x20\x00\x00\x00"),
        Ok(Header { mode: OutputMode::Binary, length: 32 })
    );
    assert_eq!(
        read_header(b"COLVID\x78\x56\x34\x12"),
        Ok(Header { mode: OutputMode::Color, length: 0x1234_5678 })
    );
    assert_eq!(
        read_header(b"COLVID\xff\xff\xff\xffrest"),
        Ok(Header { mode: OutputMode::Color, length: u32::MAX })
    );
}

#[test]
fn payload_is_read_as_the_header_says() {
    let binary = Header { mode: OutputMode::Binary, length: 9 };
    assert_eq!(read_payload(&binary, &[0xFF, 0xFF]), vec![0xFF, 0x01]);
    let color = Header { mode: OutputMode::Color, length: 9 };
    assert_eq!(read_payload(&color, &[0xFF, 0xFF]), vec![0xFF, 0xFF]);
}

#[test]
fn length_field_is_little_endian() {
    let written = binvid::container::write(&Data::from_color(vec![0u8; 0x0102]));
    assert_eq!(&written[6..10], &[0x02, 0x01, 0x00, 0x00]);
    let bits = binvid::container::write(&Data::from_binary(vec![false; 0x01_0203]));
    assert_eq!(&bits[6..10], &[0x03, 0x02, 0x01, 0x00]);
}

#[test]
fn write_reads_only_the_field_of_the_mode() {
    let data = Data { bytes: vec![1, 2, 3], binary: vec![true], out_mode: OutputMode::Binary };
    assert_eq!(binvid::container::write(&data), container(b"BINVID", 1, &[1]));
    let data = Data { bytes: vec![1, 2, 3], binary: vec![true], out_mode: OutputMode::Color };
    assert_eq!(binvid::container::write(&data), container(b"COLVID", 3, &[1, 2, 3]));
}
