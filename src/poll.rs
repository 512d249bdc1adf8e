//! Polls and their options.

use vstd::prelude::*;
use crate::comment::Comment;
use crate::error::HError;
use crate::gather::Gather;
use crate::item::{has_tag, ids_or_empty, tag_matches, take_ids_or_empty, Item, ItemView};

verus! {

/// A poll.
#[derive(Debug)]
#[non_exhaustive]
pub struct Poll {
    /// The name of the user who created the poll.
    pub by: String,
    /// The total number of comments.
    pub comments: u64,
    /// The unique id of the poll.
    pub id: u64,
    /// The ids of the top-level comments, in order.
    pub kids: Vec<u64>,
    /// The ids of the poll's options, in order.
    pub parts: Vec<u64>,
    /// The score of the poll.
    pub score: i64,
    /// The text of the poll.
    pub text: String,
    /// When the poll was created, in Unix seconds.
    pub time: u64,
    /// The title of the poll.
    pub title: String,
}

/// The mathematical value of a `Poll`.
pub struct PollView {
    pub by: Seq<char>,
    pub comments: u64,
    pub id: u64,
    pub kids: Seq<u64>,
    pub parts: Seq<u64>,
    pub score: i64,
    pub text: Seq<char>,
    pub time: u64,
    pub title: Seq<char>,
}

impl View for Poll {
    type V = PollView;

    open spec fn view(&self) -> PollView {
        PollView {
            by: self.by@,
            comments: self.comments,
            id: self.id,
            kids: self.kids@,
            parts: self.parts@,
            score: self.score,
            text: self.text@,
            time: self.time,
            title: self.title@,
        }
    }
}

/// Whether a record is tagged "poll" and has every field that a `Poll` needs.
pub open spec fn is_poll(i: ItemView) -> bool {
    &&& has_tag(i.kind, "poll"@)
    &&& i.by is Some
    &&& i.descendants is Some
    &&& i.score is Some
    &&& i.text is Some
    &&& i.time is Some
    &&& i.title is Some
}

/// The poll that a record resolves to, if it resolves to one.
pub open spec fn resolve_poll(i: ItemView) -> Option<PollView> {
    if is_poll(i) {
        Some(
            PollView {
                by: i.by->0,
                comments: i.descendants->0,
                id: i.id,
                kids: ids_or_empty(i.kids),
                parts: ids_or_empty(i.parts),
                score: i.score->0,
                text: i.text->0,
                time: i.time->0,
                title: i.title->0,
            },
        )
    } else {
        None
    }
}

impl Poll {
    /// Resolves a record into a poll: the record must be tagged "poll" and
    /// hold every field needed; an absent id list stands for an empty one.
    pub fn try_from(item: Item) -> (r: Result<Poll, HError>)
        ensures
            match resolve_poll(item@) {
                Some(v) => r is Ok && r->Ok_0@ == v,
                None => r is Err && r->Err_0 is ConversionFailed,
            },
    {
        if !tag_matches(&item.kind, "poll") {
            return Err(HError::ConversionFailed);
        }
        if item.by.is_none() || item.descendants.is_none() || item.score.is_none() ||
            item.text.is_none() || item.time.is_none() || item.title.is_none() {
            return Err(HError::ConversionFailed);
        }
        Ok(Poll {
            by: item.by.unwrap(),
            comments: item.descendants.unwrap(),
            id: item.id,
            kids: take_ids_or_empty(item.kids),
            parts: take_ids_or_empty(item.parts),
            score: item.score.unwrap(),
            text: item.text.unwrap(),
            time: item.time.unwrap(),
            title: item.title.unwrap(),
        })
    }

    /// The strict traversal over the poll's top-level comments: every id must resolve to a comment.
    pub fn comments(&self) -> (r: Gather<Comment>)
        ensures
            r.wf(),
            r.ids() == self.kids@,
            r.position() == 0,
            r.found() == Seq::<Comment>::empty(),
    {
        Gather::new(self.kids.clone())
    }

    /// The strict traversal over the poll's options: every id must resolve to a poll option.
    pub fn options(&self) -> (r: Gather<PollOption>)
        ensures
            r.wf(),
            r.ids() == self.parts@,
            r.position() == 0,
            r.found() == Seq::<PollOption>::empty(),
    {
        Gather::new(self.parts.clone())
    }
}

/// One option of a poll.
#[derive(Debug)]
#[non_exhaustive]
pub struct PollOption {
    /// The name of the user who created the option.
    pub by: String,
    /// The unique id of the option.
    pub id: u64,
    /// The id of the poll that the option belongs to.
    pub poll: u64,
    /// The score of the option.
    pub score: i64,
    /// The text of the option.
    pub text: String,
    /// When the option was created, in Unix seconds.
    pub time: u64,
}

/// The mathematical value of a `PollOption`.
pub struct PollOptionView {
    pub by: Seq<char>,
    pub id: u64,
    pub poll: u64,
    pub score: i64,
    pub text: Seq<char>,
    pub time: u64,
}

impl View for PollOption {
    type V = PollOptionView;

    open spec fn view(&self) -> PollOptionView {
        PollOptionView {
            by: self.by@,
            id: self.id,
            poll: self.poll,
            score: self.score,
            text: self.text@,
            time: self.time,
        }
    }
}

/// Whether a record is tagged "pollopt" and has every field that a `PollOption` needs.
pub open spec fn is_poll_option(i: ItemView) -> bool {
    &&& has_tag(i.kind, "pollopt"@)
    &&& i.by is Some
    &&& i.poll is Some
    &&& i.score is Some
    &&& i.text is Some
    &&& i.time is Some
}

/// The poll option that a record resolves to, if it resolves to one.
pub open spec fn resolve_poll_option(i: ItemView) -> Option<PollOptionView> {
    if is_poll_option(i) {
        Some(
            PollOptionView {
                by: i.by->0,
                id: i.id,
                poll: i.poll->0,
                score: i.score->0,
                text: i.text->0,
                time: i.time->0,
            },
        )
    } else {
        None
    }
}

impl PollOption {
    /// Resolves a record into a poll option: the record must be tagged "pollopt" and
    /// hold every field needed; an absent id list stands for an empty one.
    pub fn try_from(item: Item) -> (r: Result<PollOption, HError>)
        ensures
            match resolve_poll_option(item@) {
                Some(v) => r is Ok && r->Ok_0@ == v,
                None => r is Err && r->Err_0 is ConversionFailed,
            },
    {
        if !tag_matches(&item.kind, "pollopt") {
            return Err(HError::ConversionFailed);
        }
        if item.by.is_none() || item.poll.is_none() || item.score.is_none() ||
            item.text.is_none() || item.time.is_none() {
            return Err(HError::ConversionFailed);
        }
        Ok(PollOption {
            by: item.by.unwrap(),
            id: item.id,
            poll: item.poll.unwrap(),
            score: item.score.unwrap(),
            text: item.text.unwrap(),
            time: item.time.unwrap(),
        })
    }

}
} // verus!
