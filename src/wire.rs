//! Decoding of the id lists that the list endpoints serve.

use vstd::prelude::*;
use crate::error::HError;

verus! {

/// The ids that a JSON body holds, if it is an array of unsigned integers.
pub uninterp spec fn json_id_list(body: Seq<char>) -> Option<Seq<u64>>;

/// Relies on `miniserde::json::from_str` at `Vec<u64>`: whether a body parses,
/// and to which ids, depends on the body alone.
#[verifier::external_body]
fn parse_id_list(body: &str) -> (r: Result<Vec<u64>, miniserde::Error>)
    ensures
        r is Ok <==> json_id_list(body@) is Some,
        r is Ok ==> r->Ok_0@ == json_id_list(body@)->0,
{
    miniserde::json::from_str::<Vec<u64>>(body)
}

/// Decodes the body of a list endpoint into its ids, in the order served.
pub fn decode_ids(body: &str) -> (r: Result<Vec<u64>, HError>)
    ensures
        match json_id_list(body@) {
            Some(ids) => r is Ok && r->Ok_0@ == ids,
            None => r is Err && r->Err_0 is Miniserde,
        },
{
    match parse_id_list(body) {
        Ok(ids) => Ok(ids),
        Err(e) => Err(HError::Miniserde(e)),
    }
}

} // verus!
