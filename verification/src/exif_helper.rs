//! Images with an EXIF block: what the tags say of size and creation time.
//!
//! Three tags may hold the creation time. They are asked in a fixed order, the
//! time of the original capture first, then the time of digitization, then the
//! generic date and time of the file, and the first that is present decides:
//! its text is the date, or it is an error.

use crate::datetime::{canonical_date, parse_canonical_date};
use crate::error::{by_kind, ErrorKind, MetadataError};
use crate::metadata::MetaData;
use crate::timestamp::Timestamp;
use vstd::prelude::*;

verus! {

/// What is read of an EXIF block: the tags of the primary image that bear on
/// creation time and size, each as the block has it or `None`.
#[derive(Debug)]
pub struct ExifAttributes {
    /// `DateTimeOriginal`: when the picture was taken.
    pub date_time_original: Option<String>,
    /// `DateTimeDigitized`: when the picture was digitized.
    pub date_time_digitized: Option<String>,
    /// `DateTime`: when the file was last changed.
    pub date_time: Option<String>,
    /// `PixelXDimension`: the width.
    pub pixel_x_dimension: Option<u32>,
    /// `PixelYDimension`: the height.
    pub pixel_y_dimension: Option<u32>,
}

/// The tags with their texts as plain text.
pub struct ExifValues {
    pub date_time_original: Option<Seq<char>>,
    pub date_time_digitized: Option<Seq<char>>,
    pub date_time: Option<Seq<char>>,
    pub pixel_x_dimension: Option<u32>,
    pub pixel_y_dimension: Option<u32>,
}

/// A text that may be missing, as plain text.
pub open spec fn plain(text: Option<String>) -> Option<Seq<char>> {
    match text {
        Some(text) => Some(text@),
        None => None,
    }
}

impl View for ExifAttributes {
    type V = ExifValues;

    open spec fn view(&self) -> ExifValues {
        ExifValues {
            date_time_original: plain(self.date_time_original),
            date_time_digitized: plain(self.date_time_digitized),
            date_time: plain(self.date_time),
            pixel_x_dimension: self.pixel_x_dimension,
            pixel_y_dimension: self.pixel_y_dimension,
        }
    }
}

/// What the `kamadak-exif` crate reads out of the bytes of an image file: of
/// the primary image, the three date tags as it displays them and the two
/// pixel dimensions; `None` where it finds no EXIF block that it can read.
pub uninterp spec fn exif_of(data: Seq<u8>) -> Option<ExifValues>;

/// What the `image` crate reads as width and height out of the bytes of an
/// image file, taking them for the format that the extension names; `None`
/// where the extension names no format that it knows or the bytes are not of
/// that format.
pub uninterp spec fn image_dimensions_of(data: Seq<u8>, extension: Seq<char>) -> Option<(u32, u32)>;

/// Calls `exif::Reader::read_from_container` on the bytes and hands out five
/// fields of the primary image, found with `Exif::get_field`: the three date
/// tags as `display_value().with_unit(..)` writes them, and the two pixel
/// dimensions as `get_uint(0)` of their values.
///
/// Nothing is proved of it. The contract claims only that the outcome depends
/// on the bytes alone.
#[verifier::external_body]
fn read_exif(data: &[u8]) -> (read: Result<ExifAttributes, exif::Error>)
    ensures
        match read {
            Ok(attributes) => exif_of(data@) == Some(attributes@),
            Err(_) => exif_of(data@) is None,
        },
{
    let exif = exif::Reader::new().read_from_container(&mut std::io::Cursor::new(data))?;
    let field = |tag: exif::Tag| exif.get_field(tag, exif::In::PRIMARY);
    let text = |tag: exif::Tag| field(tag).map(|found| found.display_value().with_unit(&exif).to_string());
    let uint = |tag: exif::Tag| field(tag).and_then(|found| found.value.get_uint(0));
    Ok(ExifAttributes {
        date_time_original: text(exif::Tag::DateTimeOriginal),
        date_time_digitized: text(exif::Tag::DateTimeDigitized),
        date_time: text(exif::Tag::DateTime),
        pixel_x_dimension: uint(exif::Tag::PixelXDimension),
        pixel_y_dimension: uint(exif::Tag::PixelYDimension),
    })
}

/// Calls `image::ImageFormat::from_extension` and, with the format it names,
/// `image::ImageReader::with_format(..).into_dimensions()` on the bytes.
///
/// Nothing is proved of it. The contract claims only that the outcome depends
/// on the bytes and the extension alone.
#[verifier::external_body]
fn decode_image_dimensions(data: &[u8], extension: &str) -> (dimensions: Option<(u32, u32)>)
    ensures
        dimensions == image_dimensions_of(data@, extension@),
{
    let format = image::ImageFormat::from_extension(extension)?;
    image::ImageReader::with_format(std::io::Cursor::new(data), format).into_dimensions().ok()
}

/// The date text that decides: that of the first tag present, in the order
/// original, digitized, generic.
pub open spec fn deciding_date_text(values: ExifValues) -> Option<Seq<char>> {
    match values.date_time_original {
        Some(text) => Some(text),
        None => match values.date_time_digitized {
            Some(text) => Some(text),
            None => values.date_time,
        },
    }
}

/// The creation date that the tags give: the instant that the deciding text
/// names, a failure with that text where it names none, and a failure where no
/// date tag is present.
pub open spec fn exif_date_result(values: ExifValues) -> Result<Timestamp, ErrorKind> {
    match deciding_date_text(values) {
        Some(text) => match canonical_date(text) {
            Some(instant) => Ok(instant),
            None => Err(ErrorKind::DateTimeParseError(text)),
        },
        None => Err(ErrorKind::CreationDateNotFound),
    }
}

/// A pixel dimension as the tags state it; zero where they do not.
pub open spec fn stated(dimension: Option<u32>) -> u64 {
    match dimension {
        Some(pixels) => pixels as u64,
        None => 0,
    }
}

/// Dimensions with each unknown side taken from the decoded image, where the
/// image could be decoded.
pub open spec fn filled(width: u64, height: u64, decoded: Option<(u32, u32)>) -> (u64, u64) {
    match decoded {
        Some((decoded_width, decoded_height)) => (
            if width == 0 {
                decoded_width as u64
            } else {
                width
            },
            if height == 0 {
                decoded_height as u64
            } else {
                height
            },
        ),
        None => (width, height),
    }
}

/// The dimensions of an image: those that the tags state, and for a side that
/// they leave open the one that decoding the image gives.
pub open spec fn exif_dimensions(values: ExifValues, data: Seq<u8>, extension: Seq<char>) -> (
    u64,
    u64,
) {
    let width = stated(values.pixel_x_dimension);
    let height = stated(values.pixel_y_dimension);
    if width == 0 || height == 0 {
        filled(width, height, image_dimensions_of(data, extension))
    } else {
        (width, height)
    }
}

/// The record of an image file. A file without a readable EXIF block has none.
/// A date tag whose text names no instant fails the extraction; the absence of
/// all date tags does not, and leaves the date open.
pub open spec fn exif_result(data: Seq<u8>, extension: Seq<char>) -> Result<MetaData, ErrorKind> {
    match exif_of(data) {
        Some(values) => {
            let (width, height) = exif_dimensions(values, data, extension);
            match exif_date_result(values) {
                Ok(instant) => Ok(MetaData { width, height, creation_date: Some(instant) }),
                Err(ErrorKind::CreationDateNotFound) => Ok(
                    MetaData { width, height, creation_date: None },
                ),
                Err(failure) => Err(failure),
            }
        },
        None => Err(ErrorKind::Exif),
    }
}

/// The creation date of an image file, where it is all that is asked for: the
/// absence of all date tags is a failure.
pub open spec fn exif_creation_date_result(data: Seq<u8>) -> Result<Timestamp, ErrorKind> {
    match exif_of(data) {
        Some(values) => exif_date_result(values),
        None => Err(ErrorKind::Exif),
    }
}

/// The text of the date tag that decides, if any date tag is present.
fn deciding_date(attributes: &ExifAttributes) -> (text: Option<&String>)
    ensures
        plain(
            match text {
                Some(found) => Some(*found),
                None => None,
            },
        ) == deciding_date_text(attributes@),
{
    match &attributes.date_time_original {
        Some(text) => Some(text),
        None => match &attributes.date_time_digitized {
            Some(text) => Some(text),
            None => match &attributes.date_time {
                Some(text) => Some(text),
                None => None,
            },
        },
    }
}

/// Resolves the creation date from the date tags.
pub fn get_creation_date(attributes: &ExifAttributes) -> (date: Result<Timestamp, MetadataError>)
    ensures
        by_kind(date) == exif_date_result(attributes@),
{
    match deciding_date(attributes) {
        Some(text) => match parse_canonical_date(text.as_str()) {
            Some(instant) => Ok(instant),
            None => Err(MetadataError::DateTimeParseError(text.clone())),
        },
        None => Err(MetadataError::CreationDateNotFound),
    }
}

/// Fills each unknown side from the decoded image, if there is one.
pub fn fill_missing_dimensions(width: u64, height: u64, decoded: Option<(u32, u32)>) -> (sides: (
    u64,
    u64,
))
    ensures
        sides == filled(width, height, decoded),
{
    match decoded {
        Some((decoded_width, decoded_height)) => (
            if width == 0 {
                decoded_width as u64
            } else {
                width
            },
            if height == 0 {
                decoded_height as u64
            } else {
                height
            },
        ),
        None => (width, height),
    }
}

/// Resolves width and height from the dimension tags and, where they leave a
/// side open, from the image itself.
pub fn get_width_and_height(attributes: &ExifAttributes, data: &[u8], extension: &str) -> (sides: (
    u64,
    u64,
))
    ensures
        sides == exif_dimensions(attributes@, data@, extension@),
{
    let width: u64 = match attributes.pixel_x_dimension {
        Some(pixels) => pixels as u64,
        None => 0,
    };
    let height: u64 = match attributes.pixel_y_dimension {
        Some(pixels) => pixels as u64,
        None => 0,
    };
    if width == 0 || height == 0 {
        fill_missing_dimensions(width, height, decode_image_dimensions(data, extension))
    } else {
        (width, height)
    }
}

/// Extracts the record of an image file from its bytes; `extension` is the
/// file's extension in lower case.
pub fn extract_exif_metadata(data: &[u8], extension: String) -> (outcome: Result<
    MetaData,
    MetadataError,
>)
    ensures
        by_kind(outcome) == exif_result(data@, extension@),
{
    let attributes = match read_exif(data) {
        Ok(attributes) => attributes,
        Err(failure) => {
            return Err(MetadataError::Exif(failure));
        },
    };
    let (width, height) = get_width_and_height(&attributes, data, extension.as_str());
    match get_creation_date(&attributes) {
        Ok(instant) => Ok(MetaData { width, height, creation_date: Some(instant) }),
        Err(MetadataError::CreationDateNotFound) => Ok(
            MetaData { width, height, creation_date: None },
        ),
        Err(failure) => Err(failure),
    }
}

/// Extracts the creation date of an image file from its bytes. A file without
/// any date tag is a failure here.
pub fn extract_exif_creation_date(data: &[u8]) -> (outcome: Result<Timestamp, MetadataError>)
    ensures
        by_kind(outcome) == exif_creation_date_result(data@),
{
    match read_exif(data) {
        Ok(attributes) => get_creation_date(&attributes),
        Err(failure) => Err(MetadataError::Exif(failure)),
    }
}

/// The time of the original capture outranks the other two date tags: where it
/// is present, the creation date is what its text names, whatever the time of
/// digitization and the generic date say.
pub proof fn original_date_decides(values: ExifValues, others: ExifValues)
    requires
        values.date_time_original is Some,
        others.date_time_original == values.date_time_original,
    ensures
        deciding_date_text(values) == values.date_time_original,
        exif_date_result(values) == exif_date_result(others),
        exif_date_result(values) matches Ok(instant) ==> canonical_date(
            values.date_time_original->0,
        ) == Some(instant),
{
}

/// A date tag that is present is never passed over for one of lower rank: if
/// the text that decides names no instant, the outcome is the failure that
/// carries this text.
pub proof fn bad_date_is_not_skipped(values: ExifValues)
    requires
        deciding_date_text(values) matches Some(text) && canonical_date(text) is None,
    ensures
        exif_date_result(values) == Err::<Timestamp, ErrorKind>(
            ErrorKind::DateTimeParseError(deciding_date_text(values)->0),
        ),
{
}

} // verus!
