//! Matroska: what the segment says of its first video track and of its date.
//!
//! The elements of a file are not read here. The caller reads them, with a
//! parser of its choice, and hands in the tracks and the date that it found,
//! or the parser's failure.

use crate::error::{by_kind, ErrorKind, MetadataError};
use crate::metadata::MetaData;
use crate::select::{first_where, lemma_first_where_stays};
use crate::timestamp::{convert_mkv_time, mkv_time, Timestamp};
use vstd::prelude::*;

verus! {

/// The size at which a video track asks to be displayed, as far as it says.
#[derive(Clone, Copy, Debug, PartialEq, Eq)]
pub struct MkvVideo {
    pub display_width: Option<u64>,
    pub display_height: Option<u64>,
}

/// One track of a segment.
#[derive(Clone, Copy, Debug, PartialEq, Eq)]
pub struct MkvTrack {
    /// Whether the track is of the video type.
    pub is_video: bool,
    /// The track's video settings, if it has any.
    pub video: Option<MkvVideo>,
}

/// What is read of a Matroska file.
#[derive(Debug)]
pub struct MkvSummary {
    /// The tracks, in the order of the file.
    pub tracks: Vec<MkvTrack>,
    /// The segment's date, in nanoseconds since 2001-01-01T00:00:00Z.
    pub date_utc: Option<i64>,
}

/// The first video track among `tracks`.
pub open spec fn first_video_track(tracks: Seq<MkvTrack>) -> Option<MkvTrack> {
    first_where(tracks, |track: MkvTrack| track.is_video)
}

/// The dimensions that the tracks give: the display size of the first video
/// track, each side zero where the track does not state it, and both zero
/// where there is no video track or it has no video settings.
pub open spec fn mkv_dimensions(tracks: Seq<MkvTrack>) -> (u64, u64) {
    match first_video_track(tracks) {
        Some(MkvTrack { video: Some(video), .. }) => (
            match video.display_width {
                Some(width) => width,
                None => 0,
            },
            match video.display_height {
                Some(height) => height,
                None => 0,
            },
        ),
        _ => (0, 0),
    }
}

/// The record that tracks and segment date give.
pub open spec fn mkv_record(tracks: Seq<MkvTrack>, date_utc: Option<i64>) -> MetaData {
    MetaData {
        width: mkv_dimensions(tracks).0,
        height: mkv_dimensions(tracks).1,
        creation_date: match date_utc {
            Some(raw) => Some(mkv_time(raw)),
            None => None,
        },
    }
}

/// The record of a Matroska file, from what was read of it. A file that could
/// not be read has none.
pub open spec fn mkv_result(read: Result<MkvSummary, matroska::MatroskaError>) -> Result<
    MetaData,
    ErrorKind,
> {
    match read {
        Ok(summary) => Ok(mkv_record(summary.tracks@, summary.date_utc)),
        Err(_) => Err(ErrorKind::Matroska),
    }
}

/// The creation date of a Matroska file, from what was read of it, where the
/// date is all that is asked for: a segment without a date is a failure.
pub open spec fn mkv_date_result(read: Result<MkvSummary, matroska::MatroskaError>) -> Result<
    Timestamp,
    ErrorKind,
> {
    match read {
        Ok(summary) => match summary.date_utc {
            Some(raw) => Ok(mkv_time(raw)),
            None => Err(ErrorKind::CreationDateNotFound),
        },
        Err(_) => Err(ErrorKind::Matroska),
    }
}

/// Finds the first video track.
pub fn find_video_track(tracks: &Vec<MkvTrack>) -> (found: Option<MkvTrack>)
    ensures
        found == first_video_track(tracks@),
{
    let ghost wanted = |track: MkvTrack| track.is_video;
    let mut at: usize = 0;
    while at < tracks.len()
        invariant
            at <= tracks.len(),
            wanted == (|track: MkvTrack| track.is_video),
            first_where(tracks@.take(at as int), wanted) is None,
        decreases tracks.len() - at,
    {
        let ghost more = tracks@.take(at + 1);
        assert(more.drop_last() =~= tracks@.take(at as int));
        if tracks[at].is_video {
            proof {
                lemma_first_where_stays(more, tracks@, wanted);
            }
            return Some(tracks[at]);
        }
        at += 1;
    }
    assert(tracks@.take(at as int) =~= tracks@);
    None
}

/// The record that a summary gives.
pub fn mkv_metadata(summary: &MkvSummary) -> (record: MetaData)
    ensures
        record == mkv_record(summary.tracks@, summary.date_utc),
{
    let (width, height) = match find_video_track(&summary.tracks) {
        Some(MkvTrack { video: Some(video), .. }) => (
            match video.display_width {
                Some(width) => width,
                None => 0,
            },
            match video.display_height {
                Some(height) => height,
                None => 0,
            },
        ),
        _ => (0, 0),
    };
    let creation_date = match summary.date_utc {
        Some(raw) => Some(convert_mkv_time(raw)),
        None => None,
    };
    MetaData { width, height, creation_date }
}

/// Extracts the record of a Matroska file from what was read of it. The
/// failure of reading is handed on.
pub fn extract_mkv_metadata(read: Result<MkvSummary, matroska::MatroskaError>) -> (outcome: Result<
    MetaData,
    MetadataError,
>)
    ensures
        by_kind(outcome) == mkv_result(read),
{
    match read {
        Ok(summary) => Ok(mkv_metadata(&summary)),
        Err(failure) => Err(MetadataError::Matroska(failure)),
    }
}

/// Extracts the creation date of a Matroska file from what was read of it. A
/// segment without a date is a failure here.
pub fn extract_mkv_creation_date(read: Result<MkvSummary, matroska::MatroskaError>) -> (outcome:
    Result<Timestamp, MetadataError>)
    ensures
        by_kind(outcome) == mkv_date_result(read),
{
    match read {
        Ok(summary) => match summary.date_utc {
            Some(raw) => Ok(convert_mkv_time(raw)),
            None => Err(MetadataError::CreationDateNotFound),
        },
        Err(failure) => Err(MetadataError::Matroska(failure)),
    }
}

} // verus!
