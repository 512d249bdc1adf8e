//! The URLs of the API's resources.

use vstd::prelude::*;

verus! {

/// The host that serves the API.
pub const URL: &'static str = "https://hacker-news.firebaseio.com";

/// The version of the API in use.
pub const VERSION: &'static str = "v0";

/// The decimal digit that stands for `d`, where `d < 10`.
pub open spec fn digit_char(d: nat) -> char {
    (('0' as u8) + d) as char
}

/// The decimal numeral of `n`, without leading zeros.
pub open spec fn decimal(n: nat) -> Seq<char>
    decreases n,
{
    if n < 10 {
        seq![digit_char(n)]
    } else {
        decimal(n / 10).push(digit_char(n % 10))
    }
}

/// The URL of the resource at `path` under the API's root.
pub open spec fn endpoint_url(path: Seq<char>) -> Seq<char> {
    "https://hacker-news.firebaseio.com"@ + "/"@ + "v0"@ + "/"@ + path
}

/// Relies on std's `Display` for `u64` (through `ToString`): the decimal
/// numeral of the number, without sign or leading zeros.
#[verifier::external_body]
fn decimal_text(n: u64) -> (r: String)
    ensures
        r@ == decimal(n as nat),
{
    n.to_string()
}

/// The builder of the API's resource URLs.
pub struct Endpoint;

impl Endpoint {
    /// The URL of the resource at `arg` under the API's root.
    pub fn build(arg: String) -> (r: String)
        ensures
            r@ == endpoint_url(arg@),
    {
        let mut r = String::from_str(URL);
        r.append("/");
        r.append(VERSION);
        r.append("/");
        r.append(arg.as_str());
        r
    }

    /// The URL of the item with the given id.
    pub fn item(id: u64) -> (r: String)
        ensures
            r@ == endpoint_url("item/"@ + decimal(id as nat) + ".json"@),
    {
        let mut path = String::from_str("item/");
        let digits = decimal_text(id);
        path.append(digits.as_str());
        path.append(".json");
        Endpoint::build(path)
    }

    /// The URL of the user with the given name; the name is not checked.
    pub fn user(name: &str) -> (r: String)
        ensures
            r@ == endpoint_url("user/"@ + name@ + ".json"@),
    {
        let mut path = String::from_str("user/");
        path.append(name);
        path.append(".json");
        Endpoint::build(path)
    }

    /// The URL of the largest item id in use.
    pub fn maxitem() -> (r: String)
        ensures
            r@ == endpoint_url("maxitem.json"@),
    {
        Endpoint::build(String::from_str("maxitem.json"))
    }

    /// The URL of the ids of the top stories.
    pub fn topstories() -> (r: String)
        ensures
            r@ == endpoint_url("topstories.json"@),
    {
        Endpoint::build(String::from_str("topstories.json"))
    }

    /// The URL of the ids of the newest stories.
    pub fn newstories() -> (r: String)
        ensures
            r@ == endpoint_url("newstories.json"@),
    {
        Endpoint::build(String::from_str("newstories.json"))
    }

    /// The URL of the ids of the best stories.
    pub fn beststories() -> (r: String)
        ensures
            r@ == endpoint_url("beststories.json"@),
    {
        Endpoint::build(String::from_str("beststories.json"))
    }

    /// The URL of the ids of the latest asks.
    pub fn askstories() -> (r: String)
        ensures
            r@ == endpoint_url("askstories.json"@),
    {
        Endpoint::build(String::from_str("askstories.json"))
    }

    /// The URL of the ids of the latest show stories.
    pub fn showstories() -> (r: String)
        ensures
            r@ == endpoint_url("showstories.json"@),
    {
        Endpoint::build(String::from_str("showstories.json"))
    }

    /// The URL of the change feed.
    pub fn updates() -> (r: String)
        ensures
            r@ == endpoint_url("updates.json"@),
    {
        Endpoint::build(String::from_str("updates.json"))
    }
}

} // verus!
