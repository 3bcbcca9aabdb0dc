//! The external inspection tool's report, and what it says of a file.
//!
//! The tool is `mediainfo`. Running it and reading its output into tracks is
//! the caller's part; what the tracks mean is decided here.

use crate::datetime::{canonical_date, parse_canonical_date};
use crate::error::{by_kind, ErrorKind, MediainfoError, MetadataError};
use crate::metadata::MetaData;
use crate::select::{
    first_where, last_where, lemma_first_where_is_first, lemma_first_where_stays,
    lemma_last_where_is_last,
};
use crate::text::{strip_affixes, without_prefixes, without_suffixes};
use crate::timestamp::Timestamp;
use vstd::prelude::*;

verus! {

/// The report's section on the file as a whole.
#[derive(Debug)]
pub struct GeneralTrack {
    /// When the media was recorded, as text.
    pub recorded_date: Option<String>,
    /// When the media was encoded, as text.
    pub encoded_date: Option<String>,
}

/// The report's section on a video track.
#[derive(Debug)]
pub struct VideoTrack {
    pub width: u64,
    pub height: u64,
}

/// The report's section on an image.
#[derive(Debug)]
pub struct ImageTrack {
    pub width: u64,
    pub height: u64,
}

/// One section of the report.
#[derive(Debug)]
pub enum Track {
    General(GeneralTrack),
    Video(VideoTrack),
    Image(ImageTrack),
    /// A section of any other kind: audio, text, menu.
    Other,
}

/// The date text of a section: of a general section its recorded date or,
/// without one, its encoded date; of any other section none.
pub open spec fn date_text_of(track: Track) -> Option<Seq<char>> {
    match track {
        Track::General(GeneralTrack { recorded_date: Some(recorded), .. }) => Some(recorded@),
        Track::General(GeneralTrack { recorded_date: None, encoded_date: Some(encoded) }) => Some(
            encoded@,
        ),
        _ => None,
    }
}

/// The dimensions that a section states: those of a video or image section.
pub open spec fn dimensions_of(track: Track) -> Option<(u64, u64)> {
    match track {
        Track::Video(video) => Some((video.width, video.height)),
        Track::Image(image) => Some((image.width, image.height)),
        _ => None,
    }
}

/// A date text of the report without the `UTC` marks around it.
pub open spec fn unmarked(text: Seq<char>) -> Seq<char> {
    without_suffixes(without_prefixes(text, "UTC "@), " UTC"@)
}

/// The instant that a date text of the report names: the text without its
/// `UTC` marks, read as `YYYY-MM-DD HH:MM:SS`.
pub open spec fn report_date(text: Seq<char>) -> Option<Timestamp> {
    canonical_date(unmarked(text))
}

/// Whether a section has a date text that names no instant.
pub open spec fn has_bad_date(track: Track) -> bool {
    date_text_of(track) matches Some(text) && report_date(text) is None
}

/// The unmarked date text of the first section whose date text names no
/// instant; `None` where every date text names one.
pub open spec fn first_bad_date(tracks: Seq<Track>) -> Option<Seq<char>> {
    match first_where(tracks, |track: Track| has_bad_date(track)) {
        Some(track) => Some(unmarked(date_text_of(track)->0)),
        None => None,
    }
}

/// The date text of the last section that has one.
pub open spec fn last_date_text(tracks: Seq<Track>) -> Option<Seq<char>> {
    match last_where(tracks, |track: Track| date_text_of(track) is Some) {
        Some(track) => date_text_of(track),
        None => None,
    }
}

/// The dimensions of the last section that states any.
pub open spec fn last_dimensions(tracks: Seq<Track>) -> Option<(u64, u64)> {
    match last_where(tracks, |track: Track| dimensions_of(track) is Some) {
        Some(track) => dimensions_of(track),
        None => None,
    }
}

/// The creation date that the sections give: the instant of the last date text.
pub open spec fn report_creation_date(tracks: Seq<Track>) -> Option<Timestamp> {
    match last_date_text(tracks) {
        Some(text) => report_date(text),
        None => None,
    }
}

/// What a report says of its file.
///
/// A date text that names no instant fails the whole report, with the first
/// such text. A report without video and image section says nothing usable,
/// whatever dates it holds. Otherwise the record has the dimensions of the
/// last video or image section and the instant of the last date text.
pub open spec fn report_result(tracks: Seq<Track>) -> Result<MetaData, ErrorKind> {
    match first_bad_date(tracks) {
        Some(text) => Err(ErrorKind::DateTimeParseError(text)),
        None => match last_dimensions(tracks) {
            Some((width, height)) => Ok(
                MetaData { width, height, creation_date: report_creation_date(tracks) },
            ),
            None => Err(ErrorKind::MetadataNotFound),
        },
    }
}

/// Reads a date text of the report: `YYYY-MM-DD HH:MM:SS`, with or without
/// `UTC` before or after it. A text that names no instant is handed back,
/// without the marks, in the failure.
pub fn parse_datetime(datetime: &str) -> (date: Result<Timestamp, MetadataError>)
    ensures
        by_kind(date) == match report_date(datetime@) {
            Some(instant) => Ok::<Timestamp, ErrorKind>(instant),
            None => Err(ErrorKind::DateTimeParseError(unmarked(datetime@))),
        },
{
    let core = strip_affixes(datetime, "UTC ", " UTC");
    match parse_canonical_date(core) {
        Some(instant) => Ok(instant),
        None => Err(MetadataError::DateTimeParseError(core.to_owned())),
    }
}

/// The date text of a general section that counts, if it has one.
fn counted_date(general: &GeneralTrack) -> (text: Option<&str>)
    ensures
        match text {
            Some(found) => date_text_of(Track::General(*general)) == Some(found@),
            None => date_text_of(Track::General(*general)) is None,
        },
{
    match &general.recorded_date {
        Some(recorded) => Some(recorded.as_str()),
        None => match &general.encoded_date {
            Some(encoded) => Some(encoded.as_str()),
            None => None,
        },
    }
}

/// Extracts the record of a file from the sections of the tool's report.
pub fn extract_metadata_from_tracks(tracks: &Vec<Track>) -> (outcome: Result<
    MetaData,
    MetadataError,
>)
    ensures
        by_kind(outcome) == report_result(tracks@),
{
    let mut metadata = MetaData { width: 0, height: 0, creation_date: None };
    let mut is_media = false;
    let mut at: usize = 0;
    while at < tracks.len()
        invariant
            at <= tracks.len(),
            first_bad_date(tracks@.take(at as int)) is None,
            metadata.creation_date == report_creation_date(tracks@.take(at as int)),
            is_media == last_dimensions(tracks@.take(at as int)) is Some,
            is_media ==> last_dimensions(tracks@.take(at as int)) == Some(
                (metadata.width, metadata.height),
            ),
        decreases tracks.len() - at,
    {
        let ghost seen = tracks@.take(at as int);
        let ghost more = tracks@.take(at + 1);
        assert(more.drop_last() =~= seen);
        match &tracks[at] {
            Track::General(general) => {
                if let Some(text) = counted_date(general) {
                    match parse_datetime(text) {
                        Ok(instant) => {
                            metadata.creation_date = Some(instant);
                        },
                        Err(failure) => {
                            proof {
                                lemma_first_where_stays(
                                    more,
                                    tracks@,
                                    |track: Track| has_bad_date(track),
                                );
                            }
                            return Err(failure);
                        },
                    }
                }
            },
            Track::Video(video) => {
                metadata.width = video.width;
                metadata.height = video.height;
                is_media = true;
            },
            Track::Image(image) => {
                metadata.width = image.width;
                metadata.height = image.height;
                is_media = true;
            },
            Track::Other => {},
        }
        at += 1;
    }
    assert(tracks@.take(at as int) =~= tracks@);
    if is_media {
        Ok(metadata)
    } else {
        Err(MetadataError::Mediainfo(MediainfoError::MetadataNotFound))
    }
}

/// What a report says of its file, told by the positions of its sections.
///
/// A failure over a date names the first section whose date is bad. A failure
/// for want of media means that no date is bad and no section states
/// dimensions. A record has the dimensions of a section after which no section
/// states any, and the date of a section after which no section has a date
/// text, or no date where no section has one.
pub proof fn report_result_by_position(tracks: Seq<Track>)
    ensures
        match report_result(tracks) {
            Err(ErrorKind::DateTimeParseError(text)) => exists|at: int|
                0 <= at < tracks.len() && has_bad_date(#[trigger] tracks[at]) && text == unmarked(
                    date_text_of(tracks[at])->0,
                ) && forall|before: int|
                    0 <= before < at ==> !has_bad_date(#[trigger] tracks[before]),
            Err(_) => forall|at: int|
                0 <= at < tracks.len() ==> !has_bad_date(#[trigger] tracks[at]) && dimensions_of(
                    tracks[at],
                ) is None,
            Ok(record) => {
                &&& forall|at: int| 0 <= at < tracks.len() ==> !has_bad_date(#[trigger] tracks[at])
                &&& exists|at: int|
                    0 <= at < tracks.len() && dimensions_of(#[trigger] tracks[at]) == Some(
                        (record.width, record.height),
                    ) && forall|after: int|
                        at < after < tracks.len() ==> dimensions_of(#[trigger] tracks[after])
                            is None
                &&& match record.creation_date {
                    Some(date) => exists|at: int|
                        0 <= at < tracks.len() && date_text_of(#[trigger] tracks[at]) is Some
                            && report_date(date_text_of(tracks[at])->0) == Some(date) && forall|
                            after: int,
                        |
                            at < after < tracks.len() ==> date_text_of(#[trigger] tracks[after])
                                is None,
                    None => forall|at: int|
                        0 <= at < tracks.len() ==> date_text_of(#[trigger] tracks[at]) is None,
                }
            },
        },
{
    lemma_first_where_is_first(tracks, |track: Track| has_bad_date(track));
    lemma_last_where_is_last(tracks, |track: Track| date_text_of(track) is Some);
    lemma_last_where_is_last(tracks, |track: Track| dimensions_of(track) is Some);
}

} // verus!
