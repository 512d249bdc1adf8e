//! A synchronous client library for the Hacker News API.
//!
//! Every item of the API arrives as one loosely typed record (`Item`). The
//! resolvers (`Story::try_from` and its kin) check the record's kind tag and
//! the fields that a typed entity needs, and build that entity or fail with
//! `HError::ConversionFailed`. Fetching is left to a driver: the traversals
//! over child ids are plans (`Gather`, `Sift`) that it feeds with the outcome
//! of each fetch.

pub mod ask;
pub mod comment;
pub mod endpoint;
pub mod error;
pub mod gather;
pub mod item;
pub mod job;
pub mod laws;
pub mod poll;
pub mod story;
pub mod user;
pub mod wire;
