//! What can go wrong, by kind.

use vstd::prelude::*;

verus! {

/// `std::io::Error`, carried as it came.
#[verifier::external_type_specification]
#[verifier::external_body]
pub struct ExIoError(std::io::Error);

/// `exif::Error` of the `kamadak-exif` crate, carried as it came.
#[verifier::external_type_specification]
#[verifier::external_body]
pub struct ExExifError(exif::Error);

/// `matroska::MatroskaError`, carried as it came.
#[verifier::external_type_specification]
#[verifier::external_body]
pub struct ExMatroskaError(matroska::MatroskaError);

/// `mp4::Error`, carried as it came.
#[verifier::external_type_specification]
#[verifier::external_body]
pub struct ExMp4Error(mp4::Error);

/// `serde_json::Error`, carried as it came.
#[verifier::external_type_specification]
#[verifier::external_body]
pub struct ExJsonError(serde_json::Error);

/// Failures of the external inspection tool.
#[derive(Debug)]
pub enum MediainfoError {
    /// The tool's executable was not found.
    ToolNotFound,
    /// The tool ran and failed; the text says how.
    CommandError(String),
    /// The tool's report names no video and no image track.
    MetadataNotFound,
    /// The tool's report could not be read as a report.
    Json(serde_json::Error),
}

/// Failures of metadata extraction.
#[derive(Debug)]
pub enum MetadataError {
    /// The file's extension, given here in lower case, names no supported container.
    UnsupportedContainerType(String),
    /// The file could not be opened or read.
    Io(std::io::Error),
    /// The EXIF block is missing or malformed.
    Exif(exif::Error),
    /// The Matroska structure is malformed.
    Matroska(matroska::MatroskaError),
    /// The MP4 box structure is malformed.
    Mp4(mp4::Error),
    /// A creation date was asked for and the container holds none.
    CreationDateNotFound,
    /// A date field is present and its text, given here, is no date.
    DateTimeParseError(String),
    /// The external inspection tool failed.
    Mediainfo(MediainfoError),
}

/// The kind of a failure, with the text it carries and without the foreign
/// error values, of which nothing is known here.
pub enum ErrorKind {
    UnsupportedContainerType(Seq<char>),
    Io,
    Exif,
    Matroska,
    Mp4,
    CreationDateNotFound,
    DateTimeParseError(Seq<char>),
    ToolNotFound,
    CommandFailed(Seq<char>),
    MetadataNotFound,
    ReportParseError,
}

impl View for MediainfoError {
    type V = ErrorKind;

    open spec fn view(&self) -> ErrorKind {
        match *self {
            MediainfoError::ToolNotFound => ErrorKind::ToolNotFound,
            MediainfoError::CommandError(detail) => ErrorKind::CommandFailed(detail@),
            MediainfoError::MetadataNotFound => ErrorKind::MetadataNotFound,
            MediainfoError::Json(_) => ErrorKind::ReportParseError,
        }
    }
}

impl View for MetadataError {
    type V = ErrorKind;

    open spec fn view(&self) -> ErrorKind {
        match *self {
            MetadataError::UnsupportedContainerType(extension) => ErrorKind::UnsupportedContainerType(
                extension@,
            ),
            MetadataError::Io(_) => ErrorKind::Io,
            MetadataError::Exif(_) => ErrorKind::Exif,
            MetadataError::Matroska(_) => ErrorKind::Matroska,
            MetadataError::Mp4(_) => ErrorKind::Mp4,
            MetadataError::CreationDateNotFound => ErrorKind::CreationDateNotFound,
            MetadataError::DateTimeParseError(text) => ErrorKind::DateTimeParseError(text@),
            MetadataError::Mediainfo(inner) => inner@,
        }
    }
}

/// An outcome with its failure by kind.
pub open spec fn by_kind<T>(outcome: Result<T, MetadataError>) -> Result<T, ErrorKind> {
    match outcome {
        Ok(found) => Ok(found),
        Err(failure) => Err(failure@),
    }
}

} // verus!
