//! Native extraction: from a file to its record, by the rules of the container
//! that the file is.
//!
//! The tags of an image are read here. The boxes of an MP4 file and the
//! elements of a Matroska file are read by the caller's readers, which are
//! handed in and are called with the bytes where the file is of their
//! container, and not otherwise.

use crate::container::{
    classified, deciding_extension, get_container_type, lowered_extension, ContainerKind,
    ContainerType,
};
use crate::error::{by_kind, ErrorKind, MetadataError};
use crate::exif_helper::{
    exif_creation_date_result, exif_result, extract_exif_creation_date, extract_exif_metadata,
};
use crate::metadata::MetaData;
use crate::mkv_helper::{
    extract_mkv_creation_date, extract_mkv_metadata, mkv_date_result, mkv_result, MkvSummary,
};
use crate::mp4_helper::{
    extract_mp4_creation_date, extract_mp4_metadata, mp4_date_result, mp4_result, Mp4Summary,
};
use crate::timestamp::Timestamp;
use vstd::prelude::*;

verus! {

/// What was read of a file: of a movie what its reader found or how it
/// failed, of an image the bytes and the extension.
pub enum Reading {
    Mp4(Result<Mp4Summary, mp4::Error>),
    Mkv(Result<MkvSummary, matroska::MatroskaError>),
    Image { data: Seq<u8>, extension: Seq<char> },
}

/// Whether `reading` is what was read of a file of the given container with
/// the given bytes and size: for a movie an outcome of the reader of its
/// container, called with the bytes, and for MP4 with the size; for an image
/// the bytes themselves.
pub open spec fn is_reading<
    P: FnOnce(&[u8], u64) -> Result<Mp4Summary, mp4::Error>,
    K: FnOnce(&[u8]) -> Result<MkvSummary, matroska::MatroskaError>,
>(
    data: &[u8],
    file_size: u64,
    container: ContainerKind,
    read_mp4: P,
    read_mkv: K,
    reading: Reading,
) -> bool {
    match container {
        ContainerKind::Mp4 => reading matches Reading::Mp4(read) && call_ensures(
            read_mp4,
            (data, file_size),
            read,
        ),
        ContainerKind::Mkv => reading matches Reading::Mkv(read) && call_ensures(
            read_mkv,
            (data,),
            read,
        ),
        ContainerKind::Exif(extension) => reading == (Reading::Image { data: data@, extension }),
    }
}

/// The record of a file, from what was read of it.
pub open spec fn extraction_result(reading: Reading) -> Result<MetaData, ErrorKind> {
    match reading {
        Reading::Mp4(read) => mp4_result(read),
        Reading::Mkv(read) => mkv_result(read),
        Reading::Image { data, extension } => exif_result(data, extension),
    }
}

/// The creation date of a file, from what was read of it, where the date is
/// all that is asked for: a file that holds none is a failure.
pub open spec fn creation_date_result(reading: Reading) -> Result<Timestamp, ErrorKind> {
    match reading {
        Reading::Mp4(read) => mp4_date_result(read),
        Reading::Mkv(read) => mkv_date_result(read),
        Reading::Image { data, .. } => exif_creation_date_result(data),
    }
}

/// Extracts the record of a file from its bytes, by the rules of the given
/// container. `file_size` is the length of the file; only the reader of MP4
/// is given it.
pub fn extract_metadata<
    P: FnOnce(&[u8], u64) -> Result<Mp4Summary, mp4::Error>,
    K: FnOnce(&[u8]) -> Result<MkvSummary, matroska::MatroskaError>,
>(data: &[u8], file_size: u64, container_type: ContainerType, read_mp4: P, read_mkv: K) -> (outcome:
    Result<MetaData, MetadataError>)
    requires
        call_requires(read_mp4, (data, file_size)),
        call_requires(read_mkv, (data,)),
    ensures
        exists|reading: Reading|
            #[trigger] is_reading(data, file_size, container_type@, read_mp4, read_mkv, reading)
                && by_kind(outcome) == extraction_result(reading),
{
    match container_type {
        ContainerType::Mp4 => {
            let read = read_mp4(data, file_size);
            let ghost reading = Reading::Mp4(read);
            let outcome = extract_mp4_metadata(read);
            assert(is_reading(data, file_size, container_type@, read_mp4, read_mkv, reading));
            outcome
        },
        ContainerType::Mkv => {
            let read = read_mkv(data);
            let ghost reading = Reading::Mkv(read);
            let outcome = extract_mkv_metadata(read);
            assert(is_reading(data, file_size, container_type@, read_mp4, read_mkv, reading));
            outcome
        },
        ContainerType::Exif(extension) => {
            let ghost reading = Reading::Image { data: data@, extension: extension@ };
            let outcome = extract_exif_metadata(data, extension);
            assert(is_reading(data, file_size, container_type@, read_mp4, read_mkv, reading));
            outcome
        },
    }
}

/// Extracts the creation date of a file from its bytes, by the rules of the
/// given container, and nothing else.
pub fn extract_creation_date<
    P: FnOnce(&[u8], u64) -> Result<Mp4Summary, mp4::Error>,
    K: FnOnce(&[u8]) -> Result<MkvSummary, matroska::MatroskaError>,
>(data: &[u8], file_size: u64, container_type: &ContainerType, read_mp4: P, read_mkv: K) -> (outcome:
    Result<Timestamp, MetadataError>)
    requires
        call_requires(read_mp4, (data, file_size)),
        call_requires(read_mkv, (data,)),
    ensures
        exists|reading: Reading|
            #[trigger] is_reading(data, file_size, container_type@, read_mp4, read_mkv, reading)
                && by_kind(outcome) == creation_date_result(reading),
{
    match container_type {
        ContainerType::Mp4 => {
            let read = read_mp4(data, file_size);
            let ghost reading = Reading::Mp4(read);
            let outcome = extract_mp4_creation_date(read);
            assert(is_reading(data, file_size, container_type@, read_mp4, read_mkv, reading));
            outcome
        },
        ContainerType::Mkv => {
            let read = read_mkv(data);
            let ghost reading = Reading::Mkv(read);
            let outcome = extract_mkv_creation_date(read);
            assert(is_reading(data, file_size, container_type@, read_mp4, read_mkv, reading));
            outcome
        },
        ContainerType::Exif(extension) => {
            let ghost reading = Reading::Image { data: data@, extension: extension@ };
            let outcome = extract_exif_creation_date(data);
            assert(is_reading(data, file_size, container_type@, read_mp4, read_mkv, reading));
            outcome
        },
    }
}

/// Extracts the record of a file from its path and its bytes: the path says
/// which container the file is, the bytes are read by that container's rules.
/// A path that names no supported container fails before a byte is looked at.
pub fn extract_file_metadata<
    P: FnOnce(&[u8], u64) -> Result<Mp4Summary, mp4::Error>,
    K: FnOnce(&[u8]) -> Result<MkvSummary, matroska::MatroskaError>,
>(file_path: &str, data: &[u8], file_size: u64, read_mp4: P, read_mkv: K) -> (outcome: Result<
    MetaData,
    MetadataError,
>)
    requires
        call_requires(read_mp4, (data, file_size)),
        call_requires(read_mkv, (data,)),
    ensures
        match classified(lowered_extension(deciding_extension(file_path@))) {
            Ok(container) => exists|reading: Reading|
                #[trigger] is_reading(data, file_size, container, read_mp4, read_mkv, reading)
                    && by_kind(outcome) == extraction_result(reading),
            Err(failure) => by_kind(outcome) == Err::<MetaData, ErrorKind>(failure),
        },
{
    match get_container_type(file_path) {
        Ok(container_type) => extract_metadata(data, file_size, container_type, read_mp4, read_mkv),
        Err(failure) => Err(failure),
    }
}

/// The native attempt at the creation date alone, from the path and the bytes
/// of a file: the path says which container the file is, and the date is read
/// by that container's rules. A path that names no supported container is a
/// failure of this attempt, as is a file without a date.
pub fn extract_native_creation_date<
    P: FnOnce(&[u8], u64) -> Result<Mp4Summary, mp4::Error>,
    K: FnOnce(&[u8]) -> Result<MkvSummary, matroska::MatroskaError>,
>(file_path: &str, data: &[u8], file_size: u64, read_mp4: P, read_mkv: K) -> (outcome: Result<
    Timestamp,
    MetadataError,
>)
    requires
        call_requires(read_mp4, (data, file_size)),
        call_requires(read_mkv, (data,)),
    ensures
        match classified(lowered_extension(deciding_extension(file_path@))) {
            Ok(container) => exists|reading: Reading|
                #[trigger] is_reading(data, file_size, container, read_mp4, read_mkv, reading)
                    && by_kind(outcome) == creation_date_result(reading),
            Err(failure) => by_kind(outcome) == Err::<Timestamp, ErrorKind>(failure),
        },
{
    match get_container_type(file_path) {
        Ok(container_type) => extract_creation_date(
            data,
            file_size,
            &container_type,
            read_mp4,
            read_mkv,
        ),
        Err(failure) => Err(failure),
    }
}

/// Extraction can be repeated: what was read of a file decides the outcome, be
/// it a record or a failure of some kind. Two outcomes for the same reading
/// are the same.
pub proof fn extraction_is_repeatable(
    reading: Reading,
    one: Result<MetaData, MetadataError>,
    other: Result<MetaData, MetadataError>,
)
    requires
        by_kind(one) == extraction_result(reading),
        by_kind(other) == extraction_result(reading),
    ensures
        one is Ok <==> other is Ok,
        one is Ok ==> one->Ok_0 == other->Ok_0,
        one is Err ==> one->Err_0@ == other->Err_0@,
{
}

/// The two requests agree on the date. Where the date alone is found, the
/// record holds that date. Where the date alone is missing, the record is
/// found and leaves the date open. Where the date alone fails for any other
/// reason, a text that is no date or a file that cannot be read, the record
/// fails for the same reason.
pub proof fn date_request_agrees_with_record(reading: Reading)
    ensures
        match creation_date_result(reading) {
            Ok(date) => extraction_result(reading) matches Ok(record) && record.creation_date
                == Some(date),
            Err(ErrorKind::CreationDateNotFound) => extraction_result(reading) matches Ok(record)
                && record.creation_date is None,
            Err(failure) => extraction_result(reading) == Err::<MetaData, ErrorKind>(failure),
        },
{
}

} // verus!
