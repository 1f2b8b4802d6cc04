use bios_renamer::{find_marker, BiosInfo, BuildDate, ParseError};

const MARKER: &[u8] = b"$BOOTEFI$";

fn put(block: &mut [u8], offset: usize, text: &[u8]) {
    block[offset..offset + text.len()].copy_from_slice(text);
}

fn sample_block() -> Vec<u8> {
    let mut block = vec![0u8; 158];
    put(&mut block, 0x05, b"TUF GAMING X570-PLUS (WI-FI)");
    put(&mut block, 0x41, b"ASUS");
    put(&mut block, 0x56, b"01/02/2020");
    put(&mut block, 0x61, b"4021");
    put(&mut block, 0x88, b"TGX570PW.CAP");
    block
}

fn image(prefix: &[u8], block: &[u8]) -> Vec<u8> {
    let mut data = prefix.to_vec();
    data.extend_from_slice(MARKER);
    data.extend_from_slice(block);
    data
}

#[test]
fn empty_file_has_no_header() {
    assert_eq!(BiosInfo::from_file(&[]).err(), Some(ParseError::MissingHeader));
}

#[test]
fn file_shorter_than_marker_has_no_header() {
    assert_eq!(BiosInfo::from_file(b"$BOOTEFI").err(), Some(ParseError::MissingHeader));
}

#[test]
fn file_without_marker_has_no_header() {
    let data = vec![0x24u8; 4096];
    assert_eq!(BiosInfo::from_file(&data).err(), Some(ParseError::MissingHeader));
}

#[test]
fn block_one_byte_short_is_truncated() {
    let data = image(b"", &sample_block()[..157]);
    assert_eq!(BiosInfo::from_file(&data).err(), Some(ParseError::Truncated));
}

#[test]
fn marker_at_end_is_truncated() {
    assert_eq!(BiosInfo::from_file(b"xx$BOOTEFI$").err(), Some(ParseError::Truncated));
}

#[test]
fn fields_are_read_at_their_offsets() {
    let data = image(b"\x00\x01junk$BOOT", &sample_block());
    let info = BiosInfo::from_file(&data).unwrap();
    assert_eq!(info.get_board_name(), "TUF GAMING X570-PLUS (WI-FI)");
    assert_eq!(info.get_brand(), "ASUS");
    assert_eq!(*info.get_build_date(), BuildDate { year: 2020, month: 1, day: 2 });
    assert_eq!(info.get_build_number(), "4021");
    assert_eq!(info.get_expected_name(), "TGX570PW.CAP");
}

#[test]
fn fields_fill_their_whole_width() {
    let mut block = vec![b'Z'; 158];
    put(&mut block, 0x56, b"12/31/1999");
    let info = BiosInfo::from_file(&image(b"", &block)).unwrap();
    assert_eq!(info.get_board_name().as_str(), "Z".repeat(60));
    assert_eq!(info.get_brand().as_str(), "Z".repeat(20));
    assert_eq!(info.get_build_number().as_str(), "Z".repeat(14));
    assert_eq!(info.get_expected_name().as_str(), "Z".repeat(12));
    assert_eq!(*info.get_build_date(), BuildDate { year: 1999, month: 12, day: 31 });
}

#[test]
fn text_after_nul_is_dropped() {
    let mut block = sample_block();
    put(&mut block, 0x41, b"AS\x00US");
    let info = BiosInfo::from_file(&image(b"", &block)).unwrap();
    assert_eq!(info.get_brand(), "AS");
}

#[test]
fn invalid_utf8_is_replaced() {
    let mut block = sample_block();
    put(&mut block, 0x61, b"40\xff21");
    let info = BiosInfo::from_file(&image(b"", &block)).unwrap();
    assert_eq!(info.get_build_number(), "40\u{FFFD}21");
}

#[test]
fn zero_date_gives_default_date() {
    let mut block = sample_block();
    put(&mut block, 0x56, &[0u8; 10]);
    let info = BiosInfo::from_file(&image(b"", &block)).unwrap();
    assert_eq!(*info.get_build_date(), BuildDate { year: 1970, month: 1, day: 1 });
}

#[test]
fn impossible_date_gives_default_date() {
    let mut block = sample_block();
    put(&mut block, 0x56, b"02/30/2020");
    let info = BiosInfo::from_file(&image(b"", &block)).unwrap();
    assert_eq!(*info.get_build_date(), BuildDate { year: 1970, month: 1, day: 1 });
    assert_eq!(info.get_expected_name(), "TGX570PW.CAP");
}

#[test]
fn parsing_twice_gives_equal_records() {
    let data = image(b"head", &sample_block());
    let a = BiosInfo::from_file(&data).unwrap();
    let b = BiosInfo::from_file(&data).unwrap();
    assert_eq!(a.get_board_name(), b.get_board_name());
    assert_eq!(a.get_brand(), b.get_brand());
    assert_eq!(a.get_build_date(), b.get_build_date());
    assert_eq!(a.get_build_number(), b.get_build_number());
    assert_eq!(a.get_expected_name(), b.get_expected_name());
}

#[test]
fn first_of_two_markers_is_used() {
    let mut second = sample_block();
    put(&mut second, 0x88, b"SECOND.CAP\x00\x00");
    let mut data = image(b"", &sample_block());
    data.extend_from_slice(MARKER);
    data.extend_from_slice(&second);
    let info = BiosInfo::from_file(&data).unwrap();
    assert_eq!(info.get_expected_name(), "TGX570PW.CAP");
}

#[test]
fn near_marker_is_not_matched() {
    let mut data = b"$BOOTEFIX$BOOTEF".to_vec();
    data.extend_from_slice(&image(b"", &sample_block()));
    assert_eq!(find_marker(&data), Some(16));
    let info = BiosInfo::from_file(&data).unwrap();
    assert_eq!(info.get_brand(), "ASUS");
}

#[test]
fn marker_right_after_dollar_is_found() {
    assert_eq!(find_marker(b"$$BOOTEFI$"), Some(1));
    assert_eq!(find_marker(b"$BOOTEFI$$BOOTEFI$"), Some(0));
    assert_eq!(find_marker(b"$BOOTEFI"), None);
}

#[test]
fn board_model_joins_brand_and_name() {
    let info = BiosInfo::from_file(&image(b"", &sample_block())).unwrap();
    assert_eq!(info.board_model(), "ASUS TUF GAMING X570-PLUS (WI-FI)");
}

#[test]
fn describe_lists_every_field() {
    let info = BiosInfo::from_file(&image(b"", &sample_block())).unwrap();
    assert_eq!(
        info.describe(),
        "Board name: TUF GAMING X570-PLUS (WI-FI)\nBrand: ASUS\nBuild date: 2020-01-02\n\
         Build number: 4021\nExpected name: TGX570PW.CAP"
    );
}

#[test]
fn parse_error_messages() {
    assert_eq!(ParseError::MissingHeader.message(), "Missing $BOOTEFI$ header in file");
    assert_eq!(ParseError::Truncated.message(), "Truncated $BOOTEFI$ info block in file");
}
