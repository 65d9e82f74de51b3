//! Split engine: turns one raw deck record into its (front, back) pair
//! of card faces.
//!
//! The front always carries the record's own content with the base
//! palette. The back reuses the front's content when the record gives no
//! explicit back, and carries the explicit back content otherwise; in
//! both cases the back is marked promoted, selecting the alternate
//! ground palette.

use vstd::prelude::*;
use vstd::string::StringExecFns;
use crate::model::{Animal, AnimalView, AnimalCard, AnimalCardView};

verus! {

/// One raw deck record as loaded from the input: the front content and
/// an optional explicit back content.
#[derive(Debug)]
pub struct DeckRecord {
    pub img: String,
    pub points: Vec<u8>,
    pub back: Option<Animal>,
}

/// Mathematical image of a [`DeckRecord`].
pub struct DeckRecordView {
    pub img: Seq<char>,
    pub points: Seq<u8>,
    pub back: Option<AnimalView>,
}

impl View for DeckRecord {
    type V = DeckRecordView;

    open spec fn view(&self) -> DeckRecordView {
        DeckRecordView {
            img: self.img@,
            points: self.points@,
            back: match self.back {
                Some(a) => Some(a@),
                None => None,
            },
        }
    }
}

/// The front face a record splits into: the record's own content, the
/// shared path prefix, and the base palette.
pub open spec fn front_view(rec: DeckRecordView, rel: Seq<char>) -> AnimalCardView {
    AnimalCardView {
        content: AnimalView { img: rec.img, points: rec.points },
        relative_path: rel,
        promoted: false,
    }
}

/// The back face a record splits into: the explicit back content when
/// one is given, the front's content otherwise, always promoted.
pub open spec fn back_view(rec: DeckRecordView, rel: Seq<char>) -> AnimalCardView {
    AnimalCardView {
        content: match rec.back {
            Some(b) => b,
            None => AnimalView { img: rec.img, points: rec.points },
        },
        relative_path: rel,
        promoted: true,
    }
}

impl DeckRecord {
    /// Split this record into its (front, back) pair of faces, both
    /// resolving artwork under the prefix `rel`.
    pub fn split(&self, rel: &str) -> (r: (AnimalCard, AnimalCard))
        ensures
            r.0@ == front_view(self@, rel@),
            r.1@ == back_view(self@, rel@),
            r.0@.promoted == false,
            r.1@.promoted == true,
            self@.back is None ==> r.1@.content == r.0@.content,
            (self@.back matches Some(b) ==> r.1@.content == b),
    {
        let fcard = AnimalCard {
            content: Animal { img: self.img.clone(), points: self.points.clone() },
            relative_path: String::from_str(rel),
            promoted: false,
        };
        proof {
            assert(fcard.content.points@ =~= self.points@);
        }
        let bcard = match &self.back {
            Some(b) => AnimalCard {
                content: b.clone(),
                relative_path: String::from_str(rel),
                promoted: true,
            },
            None => {
                let mut dup = fcard.clone();
                dup.promoted = true;
                dup
            },
        };
        (fcard, bcard)
    }
}

} // verus!
