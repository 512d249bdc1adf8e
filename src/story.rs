//! Stories: submissions that lead to a URL.

use vstd::prelude::*;
use crate::comment::Comment;
use crate::error::HError;
use crate::gather::Gather;
use crate::item::{has_tag, ids_or_empty, tag_matches, take_ids_or_empty, Item, ItemView};

verus! {

/// A story submission.
#[derive(Debug)]
#[non_exhaustive]
pub struct Story {
    /// The name of the user who submitted the story.
    pub by: String,
    /// The total number of comments.
    pub comments: u64,
    /// The unique id of the story.
    pub id: u64,
    /// The ids of the top-level comments, in order.
    pub kids: Vec<u64>,
    /// The score of the story.
    pub score: i64,
    /// When the story was submitted, in Unix seconds.
    pub time: u64,
    /// The title of the story.
    pub title: String,
    /// Where the story leads.
    pub url: String,
}

/// The mathematical value of a `Story`.
pub struct StoryView {
    pub by: Seq<char>,
    pub comments: u64,
    pub id: u64,
    pub kids: Seq<u64>,
    pub score: i64,
    pub time: u64,
    pub title: Seq<char>,
    pub url: Seq<char>,
}

impl View for Story {
    type V = StoryView;

    open spec fn view(&self) -> StoryView {
        StoryView {
            by: self.by@,
            comments: self.comments,
            id: self.id,
            kids: self.kids@,
            score: self.score,
            time: self.time,
            title: self.title@,
            url: self.url@,
        }
    }
}

/// Whether a record is tagged "story" and has every field that a `Story` needs.
pub open spec fn is_story(i: ItemView) -> bool {
    &&& has_tag(i.kind, "story"@)
    &&& i.by is Some
    &&& i.descendants is Some
    &&& i.score is Some
    &&& i.time is Some
    &&& i.title is Some
    &&& i.url is Some
}

/// The story that a record resolves to, if it resolves to one.
pub open spec fn resolve_story(i: ItemView) -> Option<StoryView> {
    if is_story(i) {
        Some(
            StoryView {
                by: i.by->0,
                comments: i.descendants->0,
                id: i.id,
                kids: ids_or_empty(i.kids),
                score: i.score->0,
                time: i.time->0,
                title: i.title->0,
                url: i.url->0,
            },
        )
    } else {
        None
    }
}

impl Story {
    /// Resolves a record into a story: the record must be tagged "story" and
    /// hold every field needed; an absent id list stands for an empty one.
    pub fn try_from(item: Item) -> (r: Result<Story, HError>)
        ensures
            match resolve_story(item@) {
                Some(v) => r is Ok && r->Ok_0@ == v,
                None => r is Err && r->Err_0 is ConversionFailed,
            },
    {
        if !tag_matches(&item.kind, "story") {
            return Err(HError::ConversionFailed);
        }
        if item.by.is_none() || item.descendants.is_none() || item.score.is_none() ||
            item.time.is_none() || item.title.is_none() || item.url.is_none() {
            return Err(HError::ConversionFailed);
        }
        Ok(Story {
            by: item.by.unwrap(),
            comments: item.descendants.unwrap(),
            id: item.id,
            kids: take_ids_or_empty(item.kids),
            score: item.score.unwrap(),
            time: item.time.unwrap(),
            title: item.title.unwrap(),
            url: item.url.unwrap(),
        })
    }

    /// The strict traversal over the story's top-level comments: every id must resolve to a comment.
    pub fn comments(&self) -> (r: Gather<Comment>)
        ensures
            r.wf(),
            r.ids() == self.kids@,
            r.position() == 0,
            r.found() == Seq::<Comment>::empty(),
    {
        Gather::new(self.kids.clone())
    }
}
} // verus!
