//! Users and the traversals over what they submitted.

use vstd::prelude::*;
use crate::comment::Comment;
use crate::gather::Sift;
use crate::poll::Poll;
use crate::story::Story;

verus! {

/// A user of the site.
#[derive(Debug)]
#[non_exhaustive]
pub struct User {
    /// The user's name: unique and case-sensitive.
    pub id: String,
    /// When the account was created, in Unix seconds.
    pub created: u64,
    /// The user's karma.
    pub karma: u64,
    /// The user's self-description.
    pub about: String,
    /// The ids of everything the user submitted, of any kind, newest first.
    pub submitted: Vec<u64>,
}

/// The mathematical value of a `User`.
pub struct UserView {
    pub id: Seq<char>,
    pub created: u64,
    pub karma: u64,
    pub about: Seq<char>,
    pub submitted: Seq<u64>,
}

impl View for User {
    type V = UserView;

    open spec fn view(&self) -> UserView {
        UserView {
            id: self.id@,
            created: self.created,
            karma: self.karma,
            about: self.about@,
            submitted: self.submitted@,
        }
    }
}

impl User {
    /// A user with the given name, creation time, karma, self-description and submissions.
    pub fn new(id: String, created: u64, karma: u64, about: String, submitted: Vec<u64>) -> (r: User)
        ensures
            r@ == (UserView { id: id@, created, karma, about: about@, submitted: submitted@ }),
    {
        User { id, created, karma, about, submitted }
    }

    /// The tolerant traversal over the user's submissions that keeps the comments
    /// among them and passes over every id that does not resolve to one.
    pub fn comments(&self) -> (r: Sift<Comment>)
        ensures
            r.wf(),
            r.ids() == self.submitted@,
            r.position() == 0,
            r.found() == Seq::<Comment>::empty(),
    {
        Sift::new(self.submitted.clone())
    }

    /// The tolerant traversal over the user's submissions that keeps the polls
    /// among them and passes over every id that does not resolve to one.
    pub fn polls(&self) -> (r: Sift<Poll>)
        ensures
            r.wf(),
            r.ids() == self.submitted@,
            r.position() == 0,
            r.found() == Seq::<Poll>::empty(),
    {
        Sift::new(self.submitted.clone())
    }

    /// The tolerant traversal over the user's submissions that keeps the stories
    /// among them and passes over every id that does not resolve to one.
    pub fn stories(&self) -> (r: Sift<Story>)
        ensures
            r.wf(),
            r.ids() == self.submitted@,
            r.position() == 0,
            r.found() == Seq::<Story>::empty(),
    {
        Sift::new(self.submitted.clone())
    }
}

} // verus!
