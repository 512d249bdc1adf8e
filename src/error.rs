//! The errors that the library reports.

use vstd::prelude::*;

verus! {

/// ureq's error: a failed request or a status that is not a success.
#[verifier::external_type_specification]
#[verifier::external_body]
pub struct ExUreqError(ureq::Error);

/// miniserde's error: a body that is not JSON of the expected shape.
#[verifier::external_type_specification]
#[verifier::external_body]
pub struct ExMiniserdeError(miniserde::Error);

/// std's I/O error: the body of a response could not be read.
#[verifier::external_type_specification]
#[verifier::external_body]
pub struct ExIoError(std::io::Error);

/// All the ways in which an operation of this crate can fail.
#[derive(Debug)]
pub enum HError {
    /// The request failed in transport, or the server answered with an error status.
    UReq(ureq::Error),
    /// The body was not JSON of the shape that the endpoint serves.
    Miniserde(miniserde::Error),
    /// The body of the response could not be read.
    Io(std::io::Error),
    /// The record has the wrong kind tag, or lacks a field that the entity needs.
    ConversionFailed,
}

impl From<ureq::Error> for HError {
    fn from(err: ureq::Error) -> Self {
        HError::UReq(err)
    }
}

impl vstd::std_specs::convert::FromSpecImpl<ureq::Error> for HError {
    open spec fn obeys_from_spec() -> bool {
        true
    }

    open spec fn from_spec(v: ureq::Error) -> HError {
        HError::UReq(v)
    }
}

impl From<miniserde::Error> for HError {
    fn from(err: miniserde::Error) -> Self {
        HError::Miniserde(err)
    }
}

impl vstd::std_specs::convert::FromSpecImpl<miniserde::Error> for HError {
    open spec fn obeys_from_spec() -> bool {
        true
    }

    open spec fn from_spec(v: miniserde::Error) -> HError {
        HError::Miniserde(v)
    }
}

impl From<std::io::Error> for HError {
    fn from(err: std::io::Error) -> Self {
        HError::Io(err)
    }
}

impl vstd::std_specs::convert::FromSpecImpl<std::io::Error> for HError {
    open spec fn obeys_from_spec() -> bool {
        true
    }

    open spec fn from_spec(v: std::io::Error) -> HError {
        HError::Io(v)
    }
}

/// The text that describes a failed conversion.
pub open spec fn conversion_failed_text() -> Seq<char> {
    "Conversion between returned data and our representation failed."@
}

/// Appends `text` to `prefix`.
fn joined(prefix: &str, text: String) -> (r: String)
    ensures
        r@ == prefix@ + text@,
{
    let mut r = String::from_str(prefix);
    r.append(text.as_str());
    r
}

impl HError {
    /// A description of the error for people: the source of the failure,
    /// followed by what the failing crate says of it.
    pub fn message(&self) -> (r: String)
        ensures
            *self is ConversionFailed ==> r@ == conversion_failed_text(),
            *self is UReq ==> "UReq Error: "@.is_prefix_of(r@),
            *self is Miniserde ==> "Miniserde Error: "@.is_prefix_of(r@),
            *self is Io ==> "Io Error: "@.is_prefix_of(r@),
    {
        match self {
            HError::UReq(e) => {
                let r = joined("UReq Error: ", e.to_string());
                assert(r@.subrange(0, "UReq Error: "@.len() as int) =~= "UReq Error: "@);
                r
            },
            HError::Miniserde(e) => {
                let r = joined("Miniserde Error: ", e.to_string());
                assert(r@.subrange(0, "Miniserde Error: "@.len() as int) =~= "Miniserde Error: "@);
                r
            },
            HError::Io(e) => {
                let r = joined("Io Error: ", e.to_string());
                assert(r@.subrange(0, "Io Error: "@.len() as int) =~= "Io Error: "@);
                r
            },
            HError::ConversionFailed => String::from_str(
                "Conversion between returned data and our representation failed.",
            ),
        }
    }
}

} // verus!
