//! Comments on submissions and on other comments.

use vstd::prelude::*;
use crate::error::HError;
use crate::gather::Gather;
use crate::item::{has_tag, ids_or_empty, tag_matches, take_ids_or_empty, Item, ItemView};

verus! {

/// A comment on a submission or on another comment.
#[derive(Debug)]
#[non_exhaustive]
pub struct Comment {
    /// The name of the user who wrote the comment.
    pub by: String,
    /// The unique id of the comment.
    pub id: u64,
    /// The ids of the direct replies, in order.
    pub kids: Vec<u64>,
    /// The id of the item that the comment answers: a comment, a story, an ask or a poll.
    pub parent: u64,
    /// The text of the comment.
    pub text: String,
    /// When the comment was written, in Unix seconds.
    pub time: u64,
}

/// The mathematical value of a `Comment`.
pub struct CommentView {
    pub by: Seq<char>,
    pub id: u64,
    pub kids: Seq<u64>,
    pub parent: u64,
    pub text: Seq<char>,
    pub time: u64,
}

impl View for Comment {
    type V = CommentView;

    open spec fn view(&self) -> CommentView {
        CommentView {
            by: self.by@,
            id: self.id,
            kids: self.kids@,
            parent: self.parent,
            text: self.text@,
            time: self.time,
        }
    }
}

/// Whether a record is tagged "comment" and has every field that a `Comment` needs.
pub open spec fn is_comment(i: ItemView) -> bool {
    &&& has_tag(i.kind, "comment"@)
    &&& i.by is Some
    &&& i.parent is Some
    &&& i.text is Some
    &&& i.time is Some
}

/// The comment that a record resolves to, if it resolves to one.
pub open spec fn resolve_comment(i: ItemView) -> Option<CommentView> {
    if is_comment(i) {
        Some(
            CommentView {
                by: i.by->0,
                id: i.id,
                kids: ids_or_empty(i.kids),
                parent: i.parent->0,
                text: i.text->0,
                time: i.time->0,
            },
        )
    } else {
        None
    }
}

impl Comment {
    /// Resolves a record into a comment: the record must be tagged "comment" and
    /// hold every field needed; an absent id list stands for an empty one.
    pub fn try_from(item: Item) -> (r: Result<Comment, HError>)
        ensures
            match resolve_comment(item@) {
                Some(v) => r is Ok && r->Ok_0@ == v,
                None => r is Err && r->Err_0 is ConversionFailed,
            },
    {
        if !tag_matches(&item.kind, "comment") {
            return Err(HError::ConversionFailed);
        }
        if item.by.is_none() || item.parent.is_none() || item.text.is_none() ||
            item.time.is_none() {
            return Err(HError::ConversionFailed);
        }
        Ok(Comment {
            by: item.by.unwrap(),
            id: item.id,
            kids: take_ids_or_empty(item.kids),
            parent: item.parent.unwrap(),
            text: item.text.unwrap(),
            time: item.time.unwrap(),
        })
    }

    /// The strict traversal over the comment's direct replies: every id must resolve to a comment.
    pub fn replies(&self) -> (r: Gather<Comment>)
        ensures
            r.wf(),
            r.ids() == self.kids@,
            r.position() == 0,
            r.found() == Seq::<Comment>::empty(),
    {
        Gather::new(self.kids.clone())
    }
}
} // verus!
