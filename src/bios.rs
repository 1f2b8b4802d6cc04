//! Locating the `$BOOTEFI$` metadata block in a firmware image and decoding
//! its fields.

use vstd::prelude::*;
use vstd::string::*;

use crate::date::{date_or_epoch, date_text, parsed_date, BuildDate, DATE_FORMAT};
use crate::text::{bytes_to_string, trim_nul, utf8_lossy};

verus! {

/// Length of the marker that opens the metadata block.
pub const INFO_HEADER_LEN: usize = 9;

/// First byte of the marker, `'$'`.
pub const INFO_HEADER_FIRST: u8 = 0x24;

/// Size of the metadata block that follows the marker.
pub const BIOS_INFO_SIZE: usize = 158;

/// Where the board name begins, from the end of the marker.
pub const BOARD_NAME_OFFSET: usize = 0x05;

/// Number of bytes reserved for the board name.
pub const BOARD_NAME_LEN: usize = 60;

/// Where the brand begins, from the end of the marker.
pub const BRAND_NAME_OFFSET: usize = 0x41;

/// Number of bytes reserved for the brand.
pub const BRAND_NAME_LEN: usize = 20;

/// Where the build date begins, from the end of the marker.
pub const DATE_OFFSET: usize = 0x56;

/// Number of bytes reserved for the build date.
pub const DATE_LEN: usize = 10;

/// Where the build number begins, from the end of the marker.
pub const BUILD_NUMBER_OFFSET: usize = 0x61;

/// Number of bytes reserved for the build number.
pub const BUILD_NUMBER_LEN: usize = 14;

/// Where the expected file name begins, from the end of the marker.
pub const CAP_NAME_OFFSET: usize = 0x88;

/// Number of bytes reserved for the expected file name.
pub const CAP_NAME_LEN: usize = 12;

/// The marker `"$BOOTEFI$"`.
pub open spec fn bootefi_marker() -> Seq<u8> {
    seq![0x24u8, 0x42u8, 0x4Fu8, 0x4Fu8, 0x54u8, 0x45u8, 0x46u8, 0x49u8, 0x24u8]
}

/// The marker's bytes.
pub fn bios_info_header() -> (r: [u8; 9])
    ensures
        r@ == bootefi_marker(),
{
    let r: [u8; 9] = [0x24, 0x42, 0x4F, 0x4F, 0x54, 0x45, 0x46, 0x49, 0x24];
    assert(r@ =~= bootefi_marker());
    r
}

/// The nine bytes of `data` from index `i` on are the marker.
pub open spec fn marker_at(data: Seq<u8>, i: int) -> bool {
    &&& 0 <= i
    &&& i + INFO_HEADER_LEN <= data.len()
    &&& forall|k: int| 0 <= k < INFO_HEADER_LEN ==> #[trigger] data[i + k] == bootefi_marker()[k]
}

/// The marker occurs somewhere in `data`.
pub open spec fn has_marker(data: Seq<u8>) -> bool {
    exists|i: int| marker_at(data, i)
}

/// The marker occurs at `i` and nowhere before.
pub open spec fn is_first_marker(data: Seq<u8>, i: int) -> bool {
    &&& marker_at(data, i)
    &&& forall|j: int| 0 <= j < i ==> !marker_at(data, j)
}

/// Whether the marker stands in `data` at index `i`.
fn marker_matches_at(data: &[u8], i: usize) -> (r: bool)
    requires
        i + INFO_HEADER_LEN <= data@.len(),
    ensures
        r == marker_at(data@, i as int),
{
    let header = bios_info_header();
    let n = data.len();
    let mut k: usize = 0;
    while k < INFO_HEADER_LEN
        invariant
            k <= INFO_HEADER_LEN,
            n == data@.len(),
            i + INFO_HEADER_LEN <= data@.len(),
            header@ == bootefi_marker(),
            forall|j: int| 0 <= j < k ==> data@[i + j] == bootefi_marker()[j],
        decreases INFO_HEADER_LEN - k,
    {
        if data[i + k] != header[k] {
            return false;
        }
        k = k + 1;
    }
    true
}

/// Returns the index of the first occurrence of the marker in `data`, or
/// `None` where it does not occur.
pub fn find_marker(data: &[u8]) -> (r: Option<usize>)
    ensures
        match r {
            Some(i) => is_first_marker(data@, i as int),
            None => !has_marker(data@),
        },
{
    let n = data.len();
    if n < INFO_HEADER_LEN {
        return None;
    }
    let mut i: usize = 0;
    while i <= n - INFO_HEADER_LEN
        invariant
            n == data@.len(),
            INFO_HEADER_LEN <= n,
            i <= n - INFO_HEADER_LEN + 1,
            forall|j: int| 0 <= j < i ==> !marker_at(data@, j),
        decreases n - INFO_HEADER_LEN + 1 - i,
    {
        if data[i] == INFO_HEADER_FIRST && marker_matches_at(data, i) {
            return Some(i);
        }
        proof {
            if data@[i as int] != INFO_HEADER_FIRST {
                assert(data@[i + 0] != bootefi_marker()[0]);
            }
        }
        i = i + 1;
    }
    None
}


/// Why no metadata could be read from an image.
#[derive(Clone, Copy, Debug, PartialEq, Eq, Structural)]
pub enum ParseError {
    /// The `$BOOTEFI$` marker occurs nowhere in the image.
    MissingHeader,
    /// Fewer than a whole metadata block follow the marker.
    Truncated,
}

impl ParseError {
    /// A sentence that describes the failure.
    pub fn message(&self) -> (r: &'static str)
        ensures
            *self == ParseError::MissingHeader ==> r@ == "Missing $BOOTEFI$ header in file"@,
            *self == ParseError::Truncated ==> r@ == "Truncated $BOOTEFI$ info block in file"@,
    {
        match self {
            ParseError::MissingHeader => "Missing $BOOTEFI$ header in file",
            ParseError::Truncated => "Truncated $BOOTEFI$ info block in file",
        }
    }
}

/// The metadata of an image, as values.
pub ghost struct BiosRecord {
    pub board_name: Seq<char>,
    pub brand: Seq<char>,
    pub build_date: BuildDate,
    pub build_number: Seq<char>,
    pub expected_name: Seq<char>,
}

/// A fixed-width text field of the block: lossy UTF-8, cut at the first NUL.
pub open spec fn field_text(block: Seq<u8>, offset: int, len: int) -> Seq<char> {
    trim_nul(utf8_lossy(block.subrange(offset, offset + len)))
}

/// The record that a metadata block holds.
pub open spec fn decode_block(block: Seq<u8>) -> BiosRecord {
    BiosRecord {
        board_name: field_text(block, BOARD_NAME_OFFSET as int, BOARD_NAME_LEN as int),
        brand: field_text(block, BRAND_NAME_OFFSET as int, BRAND_NAME_LEN as int),
        build_date: date_or_epoch(
            parsed_date(field_text(block, DATE_OFFSET as int, DATE_LEN as int), DATE_FORMAT@),
        ),
        build_number: field_text(block, BUILD_NUMBER_OFFSET as int, BUILD_NUMBER_LEN as int),
        expected_name: field_text(block, CAP_NAME_OFFSET as int, CAP_NAME_LEN as int),
    }
}

/// What reading the metadata of the image `data` gives: the block after the
/// first marker, decoded, or why there is none.
pub open spec fn parse_image(data: Seq<u8>) -> Result<BiosRecord, ParseError> {
    if !has_marker(data) {
        Err(ParseError::MissingHeader)
    } else {
        let i = choose|i: int| is_first_marker(data, i);
        let start = i + INFO_HEADER_LEN;
        if data.len() < start + BIOS_INFO_SIZE {
            Err(ParseError::Truncated)
        } else {
            Ok(decode_block(data.subrange(start, start + BIOS_INFO_SIZE)))
        }
    }
}

/// Two first occurrences of the marker are one.
proof fn lemma_first_marker_unique(data: Seq<u8>, i: int, j: int)
    requires
        is_first_marker(data, i),
        is_first_marker(data, j),
    ensures
        i == j,
{
}

/// An image shorter than the marker, or one in which the marker does not
/// occur, yields `MissingHeader`.
pub proof fn lemma_missing_header(data: Seq<u8>)
    requires
        data.len() < INFO_HEADER_LEN || !has_marker(data),
    ensures
        parse_image(data) == Err::<BiosRecord, ParseError>(ParseError::MissingHeader),
{
    assert forall|i: int| !marker_at(data, i) by {
        if data.len() >= INFO_HEADER_LEN {
            assert(!has_marker(data));
        }
    }
}

/// Where fewer than a whole block follow the first marker, the image yields
/// `Truncated`.
pub proof fn lemma_truncated_block(data: Seq<u8>, i: int)
    requires
        is_first_marker(data, i),
        data.len() < i + INFO_HEADER_LEN + BIOS_INFO_SIZE,
    ensures
        parse_image(data) == Err::<BiosRecord, ParseError>(ParseError::Truncated),
{
    let c = choose|c: int| is_first_marker(data, c);
    lemma_first_marker_unique(data, i, c);
}

/// An image that is the marker followed by a block decodes, field by field,
/// to the text at each field's offset and length, cut at its first NUL.
pub proof fn lemma_fields_at_offsets(block: Seq<u8>)
    requires
        block.len() == BIOS_INFO_SIZE,
    ensures
        parse_image(bootefi_marker() + block) == Ok::<BiosRecord, ParseError>(decode_block(block)),
        ({
            let r = decode_block(block);
            let date_text = trim_nul(utf8_lossy(block.subrange(0x56int, 0x60int)));
            &&& r.board_name == trim_nul(utf8_lossy(block.subrange(0x05int, 0x41int)))
            &&& r.brand == trim_nul(utf8_lossy(block.subrange(0x41int, 0x55int)))
            &&& r.build_date == date_or_epoch(parsed_date(date_text, DATE_FORMAT@))
            &&& r.build_number == trim_nul(utf8_lossy(block.subrange(0x61int, 0x6Fint)))
            &&& r.expected_name == trim_nul(utf8_lossy(block.subrange(0x88int, 0x94int)))
        }),
{
    let data = bootefi_marker() + block;
    assert(is_first_marker(data, 0));
    let c = choose|c: int| is_first_marker(data, c);
    lemma_first_marker_unique(data, 0, c);
    assert(data.subrange(INFO_HEADER_LEN as int, INFO_HEADER_LEN + BIOS_INFO_SIZE) =~= block);
}

/// Reading the same image twice gives records equal field for field.
pub proof fn lemma_parse_deterministic(data: Seq<u8>, first: BiosRecord, second: BiosRecord)
    requires
        parse_image(data) == Ok::<BiosRecord, ParseError>(first),
        parse_image(data) == Ok::<BiosRecord, ParseError>(second),
    ensures
        first.board_name == second.board_name,
        first.brand == second.brand,
        first.build_date == second.build_date,
        first.build_number == second.build_number,
        first.expected_name == second.expected_name,
{
}

/// Information describing a firmware image, as read from its metadata block.
pub struct BiosInfo {
    /// Name of the target motherboard.
    board_name: String,
    /// Brand of the motherboard.
    brand: String,
    /// Reported build date.
    build_date: BuildDate,
    /// Reported build number.
    build_number: String,
    /// File name the target motherboard expects this image to have, such as
    /// `TGX570PW.CAP`.
    expected_name: String,
}

impl View for BiosInfo {
    type V = BiosRecord;

    closed spec fn view(&self) -> BiosRecord {
        BiosRecord {
            board_name: self.board_name@,
            brand: self.brand@,
            build_date: self.build_date,
            build_number: self.build_number@,
            expected_name: self.expected_name@,
        }
    }
}

impl BiosInfo {
    #[verifier::type_invariant]
    closed spec fn inv(&self) -> bool {
        self.build_date.wf()
    }

    /// Reads the metadata block of the image whose bytes are `data`: the
    /// block after the first `$BOOTEFI$` marker.
    pub fn from_file(data: &[u8]) -> (r: Result<BiosInfo, ParseError>)
        ensures
            match r {
                Ok(info) => parse_image(data@) == Ok::<BiosRecord, ParseError>(info@),
                Err(e) => parse_image(data@) == Err::<BiosRecord, ParseError>(e),
            },
            r matches Ok(info) ==> info@.build_date.wf(),
    {
        let n = data.len();
        let i = match find_marker(data) {
            Some(i) => i,
            None => {
                return Err(ParseError::MissingHeader);
            },
        };
        proof {
            let c = choose|c: int| is_first_marker(data@, c);
            lemma_first_marker_unique(data@, i as int, c);
        }
        let start = i + INFO_HEADER_LEN;
        if n - start < BIOS_INFO_SIZE {
            return Err(ParseError::Truncated);
        }
        let block = &data[start..start + BIOS_INFO_SIZE];
        let board_name = bytes_to_string(block, BOARD_NAME_OFFSET, BOARD_NAME_LEN);
        let brand = bytes_to_string(block, BRAND_NAME_OFFSET, BRAND_NAME_LEN);
        let raw_date = bytes_to_string(block, DATE_OFFSET, DATE_LEN);
        let build_date = BuildDate::parse_lenient(raw_date.as_str());
        let build_number = bytes_to_string(block, BUILD_NUMBER_OFFSET, BUILD_NUMBER_LEN);
        let expected_name = bytes_to_string(block, CAP_NAME_OFFSET, CAP_NAME_LEN);
        let info = BiosInfo { board_name, brand, build_date, build_number, expected_name };
        proof {
            assert(info@ == decode_block(block@));
        }
        Ok(info)
    }

    pub fn get_board_name(&self) -> (r: &String)
        ensures
            r@ == self@.board_name,
    {
        &self.board_name
    }

    pub fn get_brand(&self) -> (r: &String)
        ensures
            r@ == self@.brand,
    {
        &self.brand
    }

    pub fn get_build_date(&self) -> (r: &BuildDate)
        ensures
            *r == self@.build_date,
            r.wf(),
    {
        proof {
            use_type_invariant(self);
        }
        &self.build_date
    }

    pub fn get_build_number(&self) -> (r: &String)
        ensures
            r@ == self@.build_number,
    {
        &self.build_number
    }

    pub fn get_expected_name(&self) -> (r: &String)
        ensures
            r@ == self@.expected_name,
    {
        &self.expected_name
    }

    /// The board model as shown to a user: brand, a space, board name.
    pub fn board_model(&self) -> (r: String)
        ensures
            r@ == self@.brand + " "@ + self@.board_name,
    {
        let mut r = self.brand.clone();
        r.append(" ");
        r.append(self.board_name.as_str());
        r
    }

    /// All five fields, one per line, each after its label.
    pub fn describe(&self) -> (r: String)
        ensures
            r@ == "Board name: "@ + self@.board_name + "\nBrand: "@ + self@.brand
                + "\nBuild date: "@ + date_text(self@.build_date) + "\nBuild number: "@
                + self@.build_number + "\nExpected name: "@ + self@.expected_name,
    {
        proof {
            use_type_invariant(self);
        }
        let date = self.build_date.to_iso_string();
        let mut r = String::from_str("Board name: ");
        r.append(self.board_name.as_str());
        r.append("\nBrand: ");
        r.append(self.brand.as_str());
        r.append("\nBuild date: ");
        r.append(date.as_str());
        r.append("\nBuild number: ");
        r.append(self.build_number.as_str());
        r.append("\nExpected name: ");
        r.append(self.expected_name.as_str());
        r
    }
}

} // verus!
