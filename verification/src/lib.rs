//! Metadata of media files: pixel dimensions and creation time, read from MP4,
//! Matroska and EXIF-bearing containers, and the policy that combines what two
//! independent readers of one file found.
//!
//! The library works on bytes and on plain values. It opens no file, runs no
//! program and walks no box of a movie: the bytes of a file, the readers of
//! the two movie containers, and the outcome of an external inspection tool
//! where one is used, are handed in by the caller.
//!
//! * [`container`] tells from a path which container a file is.
//! * [`mp4_helper`] and [`mkv_helper`] give the record of a movie from what
//!   its reader found, [`exif_helper`] reads the record of an image;
//!   [`extract`] picks among them.
//! * [`timestamp`] holds the instants and the rules by which a container's
//!   raw creation time becomes one; [`datetime`] reads and writes dates as text.
//! * [`mediainfo`] reads the record out of the report of the external tool.
//! * [`reconcile`] combines a native outcome with that of the external tool.
//! * [`metadata`] and [`error`] hold the record and the failures; [`text`] and
//!   [`select`] hold what the others need of texts and sequences.
//!
//! # What is proved and what is not
//!
//! Every function states what it returns, and the statement is proved. The
//! proofs end at the calls into other crates and into parts of the standard
//! library that have no specification: the reader of EXIF blocks, the image
//! decoder, the reading and writing of dates by `chrono`, the lower-casing of
//! a text that is not ASCII, and the extension of a path. Each such call
//! stands in a small function of its own whose comment says what is taken on
//! trust. What these calls return is given a name, and the contracts say
//! exactly what the library makes of it. Of the readers that the caller hands
//! in, and of the external tool, nothing is taken on trust: the contracts
//! hold for whatever they return.

pub mod container;
pub mod datetime;
pub mod error;
pub mod exif_helper;
pub mod extract;
pub mod mediainfo;
pub mod metadata;
pub mod mkv_helper;
pub mod mp4_helper;
pub mod reconcile;
pub mod select;
pub mod text;
pub mod timestamp;

pub use container::{
    classify_lowered, container_type_of_extension, get_container_type, ContainerKind, ContainerType,
};
pub use datetime::{parse_canonical_date, parse_date, parse_date_as, try_parse_date};
pub use error::{ErrorKind, MediainfoError, MetadataError};
pub use exif_helper::extract_exif_metadata;
pub use extract::{
    extract_creation_date, extract_file_metadata, extract_metadata, extract_native_creation_date,
};
pub use metadata::MetaData;
pub use mkv_helper::extract_mkv_metadata;
pub use mp4_helper::extract_mp4_metadata;
pub use reconcile::{
    extract_combined_metadata, extract_file_creation_date, merge_metadata, needs_external_attempt,
    reconcile, resolve_creation_date,
};
pub use text::{ascii_lowercase, decimal_text, parse_string_to_u64, str_eq, strip_affixes};
pub use timestamp::{convert_mkv_time, convert_mp4_time, Timestamp};
