use hnews::endpoint::Endpoint;
use hnews::error::HError;
use hnews::wire::decode_ids;

#[test]
fn item_url() {
    assert_eq!(Endpoint::item(8863), "https://hacker-news.firebaseio.com/v0/item/8863.json");
    assert_eq!(Endpoint::item(0), "https://hacker-news.firebaseio.com/v0/item/0.json");
}

#[test]
fn user_url() {
    assert_eq!(Endpoint::user("jl"), "https://hacker-news.firebaseio.com/v0/user/jl.json");
    assert_eq!(Endpoint::user(""), "https://hacker-news.firebaseio.com/v0/user/.json");
}

#[test]
fn list_urls() {
    assert_eq!(Endpoint::maxitem(), "https://hacker-news.firebaseio.com/v0/maxitem.json");
    assert_eq!(Endpoint::topstories(), "https://hacker-news.firebaseio.com/v0/topstories.json");
    assert_eq!(Endpoint::newstories(), "https://hacker-news.firebaseio.com/v0/newstories.json");
    assert_eq!(Endpoint::beststories(), "https://hacker-news.firebaseio.com/v0/beststories.json");
    assert_eq!(Endpoint::askstories(), "https://hacker-news.firebaseio.com/v0/askstories.json");
    assert_eq!(Endpoint::showstories(), "https://hacker-news.firebaseio.com/v0/showstories.json");
    assert_eq!(Endpoint::updates(), "https://hacker-news.firebaseio.com/v0/updates.json");
    assert_eq!(Endpoint::build("x".to_string()), "https://hacker-news.firebaseio.com/v0/x");
}

#[test]
fn ids_decode_in_order() {
    assert_eq!(decode_ids("[3, 1, 2]").unwrap(), vec![3, 1, 2]);
    assert_eq!(decode_ids("[]").unwrap(), Vec::<u64>::new());
}

#[test]
fn malformed_ids_are_a_decode_error() {
    assert!(matches!(decode_ids("[1, \"two\"]"), Err(HError::Miniserde(_))));
    assert!(matches!(decode_ids("not json"), Err(HError::Miniserde(_))));
}

#[test]
fn error_messages() {
    assert_eq!(
        HError::ConversionFailed.message(),
        "Conversion between returned data and our representation failed."
    );
    let e = decode_ids("{").unwrap_err();
    assert!(e.message().starts_with("Miniserde Error: "));
    let io = HError::from(std::io::Error::new(std::io::ErrorKind::Other, "gone"));
    assert_eq!(io.message(), "Io Error: gone");
}
