//! The record in which the API serves every item, whatever its kind.

use vstd::prelude::*;

verus! {

/// One item as the API serves it: an id, and every other field optional.
///
/// A deleted or dead item carries its id and little else.
#[derive(Debug, Default, Clone)]
pub struct Item {
    pub id: u64,
    pub deleted: Option<bool>,
    /// The kind tag: "story", "comment", "job", "poll" or "pollopt".
    pub kind: Option<String>,
    pub by: Option<String>,
    pub time: Option<u64>,
    pub text: Option<String>,
    pub dead: Option<bool>,
    pub parent: Option<u64>,
    pub poll: Option<u64>,
    pub kids: Option<Vec<u64>>,
    pub url: Option<String>,
    pub score: Option<i64>,
    pub title: Option<String>,
    pub parts: Option<Vec<u64>>,
    pub descendants: Option<u64>,
}

/// The mathematical value of an `Item`: strings as character sequences, id lists as sequences.
pub struct ItemView {
    pub id: u64,
    pub deleted: Option<bool>,
    pub kind: Option<Seq<char>>,
    pub by: Option<Seq<char>>,
    pub time: Option<u64>,
    pub text: Option<Seq<char>>,
    pub dead: Option<bool>,
    pub parent: Option<u64>,
    pub poll: Option<u64>,
    pub kids: Option<Seq<u64>>,
    pub url: Option<Seq<char>>,
    pub score: Option<i64>,
    pub title: Option<Seq<char>>,
    pub parts: Option<Seq<u64>>,
    pub descendants: Option<u64>,
}

impl View for Item {
    type V = ItemView;

    open spec fn view(&self) -> ItemView {
        ItemView {
            id: self.id,
            deleted: self.deleted,
            kind: self.kind.deep_view(),
            by: self.by.deep_view(),
            time: self.time,
            text: self.text.deep_view(),
            dead: self.dead,
            parent: self.parent,
            poll: self.poll,
            kids: self.kids.deep_view(),
            url: self.url.deep_view(),
            score: self.score,
            title: self.title.deep_view(),
            parts: self.parts.deep_view(),
            descendants: self.descendants,
        }
    }
}

/// The id list that an optional field stands for: an absent list is an empty one.
pub open spec fn ids_or_empty(ids: Option<Seq<u64>>) -> Seq<u64> {
    match ids {
        Some(s) => s,
        None => Seq::empty(),
    }
}

/// Whether an optional kind tag is present and equal to `tag`.
pub open spec fn has_tag(kind: Option<Seq<char>>, tag: Seq<char>) -> bool {
    kind == Some(tag)
}

/// Takes an optional id list, putting an empty list where it is absent.
pub fn take_ids_or_empty(ids: Option<Vec<u64>>) -> (r: Vec<u64>)
    ensures
        r@ == ids_or_empty(ids.deep_view()),
{
    match ids {
        Some(v) => v,
        None => Vec::new(),
    }
}

/// Tells whether the kind tag of a record is present and equal to `tag`.
pub fn tag_matches(kind: &Option<String>, tag: &str) -> (r: bool)
    ensures
        r == has_tag(kind.deep_view(), tag@),
{
    match kind {
        Some(k) => {
            let expected = String::from_str(tag);
            *k == expected
        },
        None => false,
    }
}

impl Item {
    /// A record with the given id and no other field.
    pub fn new(id: u64) -> (r: Item)
        ensures
            r@ == (ItemView {
                id,
                deleted: None,
                kind: None,
                by: None,
                time: None,
                text: None,
                dead: None,
                parent: None,
                poll: None,
                kids: None,
                url: None,
                score: None,
                title: None,
                parts: None,
                descendants: None,
            }),
    {
        Item {
            id,
            deleted: None,
            kind: None,
            by: None,
            time: None,
            text: None,
            dead: None,
            parent: None,
            poll: None,
            kids: None,
            url: None,
            score: None,
            title: None,
            parts: None,
            descendants: None,
        }
    }
}

/// The change feed: the ids of items and the names of users that changed lately.
#[derive(Debug, Default)]
pub struct Update {
    pub items: Vec<u64>,
    pub profiles: Vec<String>,
}

} // verus!
