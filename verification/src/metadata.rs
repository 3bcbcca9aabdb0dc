//! The canonical record.

use crate::text::{decimal, decimal_text};
use crate::timestamp::Timestamp;
use vstd::prelude::*;
use vstd::string::*;

verus! {

/// What was found in one media file.
///
/// A width or height of zero means that it is not known. A record with no
/// width, no height and no creation date says that nothing was found.
#[derive(Debug, PartialEq)]
pub struct MetaData {
    /// Pixel width; zero where unknown.
    pub width: u64,
    /// Pixel height; zero where unknown.
    pub height: u64,
    /// When the media was created; `None` where the file does not say.
    pub creation_date: Option<Timestamp>,
}

impl MetaData {
    /// Both dimensions are known and so is the creation date.
    pub open spec fn complete(self) -> bool {
        self.width > 0 && self.height > 0 && self.creation_date is Some
    }

    /// Nothing is known: no dimension and no creation date.
    pub open spec fn empty(self) -> bool {
        self.width == 0 && self.height == 0 && self.creation_date is None
    }

    /// The record in words, with `date` for the creation date.
    pub open spec fn rendered_with(self, date: Seq<char>) -> Seq<char> {
        "width: "@ + decimal(self.width as nat) + ", height: "@ + decimal(self.height as nat)
            + ", creation_date: "@ + date
    }

    /// The creation date in words: RFC 3339 text in UTC, or `None` for a record
    /// without a date. Nothing where the date cannot be written.
    pub open spec fn date_text(self) -> Option<Seq<char>> {
        match self.creation_date {
            Some(date) => date.rfc3339(),
            None => Some("None"@),
        }
    }

    /// Whether both dimensions and the creation date are known.
    pub fn is_complete(&self) -> (complete: bool)
        ensures
            complete == self.complete(),
    {
        self.height > 0 && self.width > 0 && self.creation_date.is_some()
    }

    /// Renders the record as `width: W, height: H, creation_date: D`, with the
    /// given text for `D`.
    pub fn render_with(&self, date: &str) -> (text: String)
        ensures
            text@ == self.rendered_with(date@),
    {
        let mut text = String::from_str("width: ");
        let width = decimal_text(self.width);
        text.append(width.as_str());
        text.append(", height: ");
        let height = decimal_text(self.height);
        text.append(height.as_str());
        text.append(", creation_date: ");
        text.append(date);
        text
    }

    /// Renders the record as `width: W, height: H, creation_date: D`, where `D`
    /// is the creation date as RFC 3339 text in UTC, or `None`.
    pub fn to_string(&self) -> (text: String)
        requires
            self.date_text() is Some,
        ensures
            text@ == self.rendered_with(self.date_text()->0),
    {
        match self.creation_date {
            Some(date) => match date.to_rfc3339() {
                Some(written) => self.render_with(written.as_str()),
                None => vstd::pervasive::unreached(),
            },
            None => self.render_with("None"),
        }
    }

    /// Renders the record as [`MetaData::to_string`] does; `None` where the
    /// creation date cannot be written.
    pub fn try_to_string(&self) -> (text: Option<String>)
        ensures
            text is Some == self.date_text() is Some,
            text matches Some(written) ==> written@ == self.rendered_with(self.date_text()->0),
    {
        if let Some(date) = self.creation_date {
            if date.to_rfc3339().is_none() {
                return None;
            }
        }
        Some(self.to_string())
    }
}

} // verus!
