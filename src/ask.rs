//! Asks: questions posted as stories with a text of their own.
//!
//! The API has no kind tag of its own for a question: an ask is served
//! tagged "story", like any story. This crate treats an ask as a story that
//! carries a text, and tells the two apart only by the fields that each
//! requires: an ask needs `text` where a story needs `url`. A record tagged
//! "story" that holds both resolves to either.

use vstd::prelude::*;
use crate::comment::Comment;
use crate::error::HError;
use crate::gather::Gather;
use crate::item::{has_tag, ids_or_empty, tag_matches, take_ids_or_empty, Item, ItemView};

verus! {

/// A question posted as a story with a text of its own.
#[derive(Debug)]
#[non_exhaustive]
pub struct Ask {
    /// The name of the user who posted the question.
    pub by: String,
    /// The total number of comments.
    pub comments: u64,
    /// The unique id of the question.
    pub id: u64,
    /// The ids of the top-level comments, in order.
    pub kids: Vec<u64>,
    /// The score of the question.
    pub score: i64,
    /// The text of the question.
    pub text: String,
    /// When the question was posted, in Unix seconds.
    pub time: u64,
    /// The title of the question.
    pub title: String,
}

/// The mathematical value of a `Ask`.
pub struct AskView {
    pub by: Seq<char>,
    pub comments: u64,
    pub id: u64,
    pub kids: Seq<u64>,
    pub score: i64,
    pub text: Seq<char>,
    pub time: u64,
    pub title: Seq<char>,
}

impl View for Ask {
    type V = AskView;

    open spec fn view(&self) -> AskView {
        AskView {
            by: self.by@,
            comments: self.comments,
            id: self.id,
            kids: self.kids@,
            score: self.score,
            text: self.text@,
            time: self.time,
            title: self.title@,
        }
    }
}

/// Whether a record is tagged "story" and has every field that an `Ask` needs.
pub open spec fn is_ask(i: ItemView) -> bool {
    &&& has_tag(i.kind, "story"@)
    &&& i.by is Some
    &&& i.descendants is Some
    &&& i.score is Some
    &&& i.text is Some
    &&& i.time is Some
    &&& i.title is Some
}

/// The ask that a record resolves to, if it resolves to one.
pub open spec fn resolve_ask(i: ItemView) -> Option<AskView> {
    if is_ask(i) {
        Some(
            AskView {
                by: i.by->0,
                comments: i.descendants->0,
                id: i.id,
                kids: ids_or_empty(i.kids),
                score: i.score->0,
                text: i.text->0,
                time: i.time->0,
                title: i.title->0,
            },
        )
    } else {
        None
    }
}

impl Ask {
    /// Resolves a record into an ask: the record must be tagged "story" and
    /// hold every field needed; an absent id list stands for an empty one.
    pub fn try_from(item: Item) -> (r: Result<Ask, HError>)
        ensures
            match resolve_ask(item@) {
                Some(v) => r is Ok && r->Ok_0@ == v,
                None => r is Err && r->Err_0 is ConversionFailed,
            },
    {
        if !tag_matches(&item.kind, "story") {
            return Err(HError::ConversionFailed);
        }
        if item.by.is_none() || item.descendants.is_none() || item.score.is_none() ||
            item.text.is_none() || item.time.is_none() || item.title.is_none() {
            return Err(HError::ConversionFailed);
        }
        Ok(Ask {
            by: item.by.unwrap(),
            comments: item.descendants.unwrap(),
            id: item.id,
            kids: take_ids_or_empty(item.kids),
            score: item.score.unwrap(),
            text: item.text.unwrap(),
            time: item.time.unwrap(),
            title: item.title.unwrap(),
        })
    }

    /// The strict traversal over the question's top-level comments: every id must resolve to a comment.
    pub fn comments(&self) -> (r: Gather<Comment>)
        ensures
            r.wf(),
            r.ids() == self.kids@,
            r.position() == 0,
            r.found() == Seq::<Comment>::empty(),
    {
        Gather::new(self.kids.clone())
    }
}
} // verus!
