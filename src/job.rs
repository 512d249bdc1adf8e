//! Job postings.

use vstd::prelude::*;
use crate::error::HError;
use crate::item::{has_tag, tag_matches, Item, ItemView};

verus! {

/// A job posting.
#[derive(Debug)]
#[non_exhaustive]
pub struct Job {
    /// The name of the user who posted the job.
    pub by: String,
    /// The unique id of the posting.
    pub id: u64,
    /// The score of the posting.
    pub score: i64,
    /// When the job was posted, in Unix seconds.
    pub time: u64,
    /// The title of the posting.
    pub title: String,
    /// Where the posting leads.
    pub url: String,
}

/// The mathematical value of a `Job`.
pub struct JobView {
    pub by: Seq<char>,
    pub id: u64,
    pub score: i64,
    pub time: u64,
    pub title: Seq<char>,
    pub url: Seq<char>,
}

impl View for Job {
    type V = JobView;

    open spec fn view(&self) -> JobView {
        JobView {
            by: self.by@,
            id: self.id,
            score: self.score,
            time: self.time,
            title: self.title@,
            url: self.url@,
        }
    }
}

/// Whether a record is tagged "job" and has every field that a `Job` needs.
pub open spec fn is_job(i: ItemView) -> bool {
    &&& has_tag(i.kind, "job"@)
    &&& i.by is Some
    &&& i.score is Some
    &&& i.time is Some
    &&& i.title is Some
    &&& i.url is Some
}

/// The job that a record resolves to, if it resolves to one.
pub open spec fn resolve_job(i: ItemView) -> Option<JobView> {
    if is_job(i) {
        Some(
            JobView {
                by: i.by->0,
                id: i.id,
                score: i.score->0,
                time: i.time->0,
                title: i.title->0,
                url: i.url->0,
            },
        )
    } else {
        None
    }
}

impl Job {
    /// Resolves a record into a job: the record must be tagged "job" and
    /// hold every field needed; an absent id list stands for an empty one.
    pub fn try_from(item: Item) -> (r: Result<Job, HError>)
        ensures
            match resolve_job(item@) {
                Some(v) => r is Ok && r->Ok_0@ == v,
                None => r is Err && r->Err_0 is ConversionFailed,
            },
    {
        if !tag_matches(&item.kind, "job") {
            return Err(HError::ConversionFailed);
        }
        if item.by.is_none() || item.score.is_none() || item.time.is_none() ||
            item.title.is_none() || item.url.is_none() {
            return Err(HError::ConversionFailed);
        }
        Ok(Job {
            by: item.by.unwrap(),
            id: item.id,
            score: item.score.unwrap(),
            time: item.time.unwrap(),
            title: item.title.unwrap(),
            url: item.url.unwrap(),
        })
    }

}
} // verus!
