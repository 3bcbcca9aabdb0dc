//! MP4: what the movie header says of its video track and of its creation time.
//!
//! The boxes of a file are not read here. The caller reads them, with a parser
//! of its choice, and hands in the tracks and the creation time that it found,
//! or the parser's failure.
//!
//! A movie may hold several video tracks. The one with the least track number
//! gives the dimensions, so that the same file always gives the same record,
//! in whatever order its tracks are handed in.

use crate::error::{by_kind, ErrorKind, MetadataError};
use crate::metadata::MetaData;
use crate::timestamp::{convert_mp4_time, mp4_time, Timestamp};
use vstd::multiset::Multiset;
use vstd::prelude::*;

verus! {

/// What a track carries.
#[derive(Clone, Copy, Debug, PartialEq, Eq)]
pub enum TrackKind {
    Video,
    Audio,
    Subtitle,
}

/// One track of a movie.
#[derive(Clone, Copy, Debug, PartialEq, Eq)]
pub struct Mp4Track {
    /// The number by which the movie knows the track.
    pub id: u32,
    /// What the track carries; `None` where its handler is of no known kind.
    pub kind: Option<TrackKind>,
    pub width: u16,
    pub height: u16,
}

/// What is read of an MP4 file.
#[derive(Debug)]
pub struct Mp4Summary {
    /// The tracks, in no particular order.
    pub tracks: Vec<Mp4Track>,
    /// The movie header's creation time, in seconds since 1904-01-01T00:00:00Z.
    pub creation_time: u64,
}

/// Whether a track carries video.
pub open spec fn is_video(track: Mp4Track) -> bool {
    track.kind == Some(TrackKind::Video)
}

/// Whether `track` is a video track of the movie and no video track of the
/// movie has a lesser number.
pub open spec fn is_least_video(tracks: Multiset<Mp4Track>, track: Mp4Track) -> bool {
    &&& tracks.contains(track)
    &&& is_video(track)
    &&& forall|other: Mp4Track|
        #[trigger] tracks.contains(other) && is_video(other) ==> track.id <= other.id
}

/// Whether the tracks of a movie are told apart by their numbers.
pub open spec fn has_distinct_ids(tracks: Multiset<Mp4Track>) -> bool {
    forall|a: Mp4Track, b: Mp4Track|
        #[trigger] tracks.contains(a) && #[trigger] tracks.contains(b) && a.id == b.id ==> a == b
}

/// The video track with the least number, if the movie has a video track.
pub open spec fn least_video_track(tracks: Multiset<Mp4Track>) -> Option<Mp4Track> {
    if exists|track: Mp4Track| is_least_video(tracks, track) {
        Some(choose|track: Mp4Track| is_least_video(tracks, track))
    } else {
        None
    }
}

/// The video track with the least number among tracks in a given order; of
/// several with that number, the first.
pub open spec fn least_video_among(tracks: Seq<Mp4Track>) -> Option<Mp4Track>
    decreases tracks.len(),
{
    if tracks.len() == 0 {
        None
    } else {
        match least_video_among(tracks.drop_last()) {
            Some(least) => if is_video(tracks.last()) && tracks.last().id < least.id {
                Some(tracks.last())
            } else {
                Some(least)
            },
            None => if is_video(tracks.last()) {
                Some(tracks.last())
            } else {
                None
            },
        }
    }
}

/// The record that a video track, if any, and a creation time give: the
/// dimensions of the track, zero without one, and the instant that the
/// creation time stands for.
pub open spec fn mp4_record(video: Option<Mp4Track>, creation_time: u64) -> MetaData {
    MetaData {
        width: match video {
            Some(track) => track.width as u64,
            None => 0,
        },
        height: match video {
            Some(track) => track.height as u64,
            None => 0,
        },
        creation_date: mp4_time(creation_time),
    }
}

/// The record of an MP4 file, from what was read of it: the dimensions of the
/// video track with the least number, and the instant of the creation time.
/// A file that could not be read has none.
pub open spec fn mp4_result(read: Result<Mp4Summary, mp4::Error>) -> Result<MetaData, ErrorKind> {
    match read {
        Ok(summary) => Ok(mp4_record(least_video_among(summary.tracks@), summary.creation_time)),
        Err(_) => Err(ErrorKind::Mp4),
    }
}

/// The creation date of an MP4 file, from what was read of it, where the date
/// is all that is asked for: a creation time of zero is a failure.
pub open spec fn mp4_date_result(read: Result<Mp4Summary, mp4::Error>) -> Result<
    Timestamp,
    ErrorKind,
> {
    match read {
        Ok(summary) => match mp4_time(summary.creation_time) {
            Some(instant) => Ok(instant),
            None => Err(ErrorKind::CreationDateNotFound),
        },
        Err(_) => Err(ErrorKind::Mp4),
    }
}

/// Finds the video track with the least number.
pub fn find_video_track(tracks: &Vec<Mp4Track>) -> (found: Option<Mp4Track>)
    ensures
        found == least_video_among(tracks@),
{
    let mut found: Option<Mp4Track> = None;
    let mut at: usize = 0;
    while at < tracks.len()
        invariant
            at <= tracks.len(),
            found == least_video_among(tracks@.take(at as int)),
        decreases tracks.len() - at,
    {
        let ghost more = tracks@.take(at + 1);
        assert(more.drop_last() =~= tracks@.take(at as int));
        let track = tracks[at];
        let video = match track.kind {
            Some(TrackKind::Video) => true,
            _ => false,
        };
        if video {
            let lesser = match found {
                Some(least) => track.id < least.id,
                None => true,
            };
            if lesser {
                found = Some(track);
            }
        }
        at += 1;
    }
    assert(tracks@.take(at as int) =~= tracks@);
    found
}

/// The record that a summary gives.
pub fn mp4_metadata(summary: &Mp4Summary) -> (record: MetaData)
    ensures
        record == mp4_record(least_video_among(summary.tracks@), summary.creation_time),
{
    let (width, height) = match find_video_track(&summary.tracks) {
        Some(track) => (track.width as u64, track.height as u64),
        None => (0, 0),
    };
    MetaData { width, height, creation_date: convert_mp4_time(summary.creation_time) }
}

/// Extracts the record of an MP4 file from what was read of it. The failure of
/// reading is handed on.
pub fn extract_mp4_metadata(read: Result<Mp4Summary, mp4::Error>) -> (outcome: Result<
    MetaData,
    MetadataError,
>)
    ensures
        by_kind(outcome) == mp4_result(read),
{
    match read {
        Ok(summary) => Ok(mp4_metadata(&summary)),
        Err(failure) => Err(MetadataError::Mp4(failure)),
    }
}

/// Extracts the creation date of an MP4 file from what was read of it. A
/// movie header without a creation time is a failure here.
pub fn extract_mp4_creation_date(read: Result<Mp4Summary, mp4::Error>) -> (outcome: Result<
    Timestamp,
    MetadataError,
>)
    ensures
        by_kind(outcome) == mp4_date_result(read),
{
    match read {
        Ok(summary) => match convert_mp4_time(summary.creation_time) {
            Some(instant) => Ok(instant),
            None => Err(MetadataError::CreationDateNotFound),
        },
        Err(failure) => Err(MetadataError::Mp4(failure)),
    }
}

/// Tracks whose numbers differ from position to position are told apart by
/// their numbers as a bag too.
pub proof fn lemma_distinct_ids(tracks: Seq<Mp4Track>)
    requires
        forall|i: int, j: int| 0 <= i < j < tracks.len() ==> tracks[i].id != tracks[j].id,
    ensures
        has_distinct_ids(tracks.to_multiset()),
{
    tracks.to_multiset_ensures();
    assert forall|a: Mp4Track, b: Mp4Track|
        #[trigger] tracks.to_multiset().contains(a) && #[trigger] tracks.to_multiset().contains(b)
            && a.id == b.id implies a == b by {
        // Both are tracks at some position, and positions with the same
        // number are one position.
        let i = choose|i: int| 0 <= i < tracks.len() && tracks[i] == a;
        let j = choose|j: int| 0 <= j < tracks.len() && tracks[j] == b;
        assert(i == j);
    }
}

/// The video track that is found among tracks in a given order is a video
/// track with the least number of the movie, and nothing is found only where
/// the movie has no video track.
pub proof fn lemma_least_video_is_least(tracks: Seq<Mp4Track>)
    ensures
        match least_video_among(tracks) {
            Some(least) => is_least_video(tracks.to_multiset(), least),
            None => forall|track: Mp4Track|
                #[trigger] tracks.to_multiset().contains(track) ==> !is_video(track),
        },
    decreases tracks.len(),
{
    tracks.to_multiset_ensures();
    if tracks.len() > 0 {
        let front = tracks.drop_last();
        let last = tracks.last();
        lemma_least_video_is_least(front);
        front.to_multiset_ensures();
        assert forall|track: Mp4Track| #[trigger]
            tracks.to_multiset().contains(track) implies front.to_multiset().contains(track)
            || track == last by {
            let at = choose|at: int| 0 <= at < tracks.len() && tracks[at] == track;
            if at < front.len() {
                assert(front[at] == track);
            }
        }
        assert forall|track: Mp4Track| #[trigger]
            front.to_multiset().contains(track) implies tracks.to_multiset().contains(track) by {
            let at = choose|at: int| 0 <= at < front.len() && front[at] == track;
            assert(tracks[at] == track);
        }
    }
}

/// Where the tracks of a movie are told apart by their numbers, the order in
/// which they come makes no difference to the video track that is found.
pub proof fn lemma_least_video_in_any_order(tracks: Seq<Mp4Track>)
    requires
        has_distinct_ids(tracks.to_multiset()),
    ensures
        least_video_among(tracks) == least_video_track(tracks.to_multiset()),
{
    let bag = tracks.to_multiset();
    lemma_least_video_is_least(tracks);
    match least_video_among(tracks) {
        Some(least) => {
            // Neither has the lesser number, so they have the same, and are one.
            let chosen = choose|track: Mp4Track| is_least_video(bag, track);
            assert(chosen == least);
        },
        None => {},
    }
}

/// The order in which the tracks of a movie are handed in makes no difference
/// to the video track that is found, as long as no two tracks have the same
/// number.
pub proof fn video_track_is_independent_of_order(one: Seq<Mp4Track>, other: Seq<Mp4Track>)
    requires
        one.to_multiset() == other.to_multiset(),
        forall|i: int, j: int| 0 <= i < j < one.len() ==> one[i].id != one[j].id,
    ensures
        least_video_among(one) == least_video_among(other),
{
    lemma_distinct_ids(one);
    lemma_least_video_in_any_order(one);
    lemma_least_video_in_any_order(other);
}

} // verus!
