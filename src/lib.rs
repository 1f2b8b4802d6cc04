//! Reads the identifying metadata block out of a firmware image: board name,
//! brand, build date, build number and the file name the board expects.

pub mod bios;
pub mod date;
pub mod text;
pub mod validate;

pub use bios::{find_marker, BiosInfo, ParseError};
pub use date::{BuildDate, DATE_FORMAT, MAX_YEAR, MIN_YEAR};
pub use text::{bytes_to_string, trim_after_null};
pub use validate::{validate_file, FileMetadata, ValidationError, MAX_FILE_SIZE};
