use hnews::ask::Ask;
use hnews::comment::Comment;
use hnews::error::HError;
use hnews::item::Item;
use hnews::job::Job;
use hnews::poll::{Poll, PollOption};
use hnews::story::Story;

fn text(s: &str) -> Option<String> {
    Some(s.to_string())
}

fn ask_item() -> Item {
    Item {
        id: 121003,
        kind: text("story"),
        by: text("tel"),
        time: Some(1203647620),
        text: text("<i>or</i> HN: the Next Iteration<p>I get the impression that with Arc being released a lot of people who never had time for HN before are suddenly dropping in more often."),
        kids: Some(vec![121016, 121109, 121168]),
        score: Some(25),
        title: text("Ask HN: The Arc Effect"),
        descendants: Some(16),
        ..Default::default()
    }
}

fn comment_item() -> Item {
    Item {
        id: 2921983,
        kind: text("comment"),
        by: text("norvig"),
        time: Some(1314211127),
        text: text("Aw shucks, guys ... you make me blush with your compliments."),
        parent: Some(2921506),
        kids: Some(vec![2922097, 2922429, 2924562, 2922709, 2922573, 2922140, 2922141]),
        ..Default::default()
    }
}

fn job_item() -> Item {
    Item {
        id: 192327,
        kind: text("job"),
        by: text("justin"),
        time: Some(1210981217),
        text: text(""),
        url: text(""),
        score: Some(6),
        title: text("Justin.tv is looking for a Lead Flash Engineer!"),
        ..Default::default()
    }
}

fn poll_item() -> Item {
    Item {
        id: 126809,
        kind: text("poll"),
        by: text("pg"),
        time: Some(1204403652),
        text: text(""),
        kids: Some(vec![126822, 126823, 126917, 127000]),
        parts: Some(vec![126810, 126811, 126812]),
        score: Some(46),
        title: text("Poll: What would happen if News.YC had explicit support for polls?"),
        descendants: Some(54),
        ..Default::default()
    }
}

fn poll_option_item() -> Item {
    Item {
        id: 160705,
        kind: text("pollopt"),
        by: text("pg"),
        time: Some(1207886576),
        text: text("Yes, ban them; I'm tired of seeing Valleywag stories on News.YC."),
        poll: Some(160704),
        score: Some(335),
        ..Default::default()
    }
}

fn story_item() -> Item {
    Item {
        id: 8863,
        kind: text("story"),
        by: text("dhouston"),
        time: Some(1175714200),
        kids: Some(vec![8952, 9224, 8917, 8884, 8887]),
        url: text("http://www.getdropbox.com/u/2/screencast.html"),
        score: Some(111),
        title: text("My YC app: Dropbox - Throw away your USB drive"),
        descendants: Some(71),
        ..Default::default()
    }
}

#[test]
fn test_ask() {
    let ask = Ask::try_from(ask_item()).unwrap();
    assert_eq!(ask.id, 121003);
    assert_eq!(ask.by, "tel");
    assert_eq!(ask.comments, 16);
    assert_eq!(ask.kids, vec![121016, 121109, 121168]);
    assert_eq!(ask.score, 25);
    assert_eq!(ask.time, 1203647620);
    assert_eq!(ask.title, "Ask HN: The Arc Effect");
}

#[test]
fn test_comment() {
    let comment = Comment::try_from(comment_item()).unwrap();
    assert_eq!(comment.id, 2921983);
    assert_eq!(comment.by, "norvig");
    assert_eq!(comment.parent, 2921506);
    assert_eq!(comment.time, 1314211127);
    assert_eq!(comment.kids.len(), 7);
}

#[test]
fn test_job() {
    let job = Job::try_from(job_item()).unwrap();
    assert_eq!(job.id, 192327);
    assert_eq!(job.by, "justin");
    assert_eq!(job.score, 6);
    assert_eq!(job.url, "");
}

#[test]
fn test_poll() {
    let poll = Poll::try_from(poll_item()).unwrap();
    assert_eq!(poll.id, 126809);
    assert_eq!(poll.comments, 54);
    assert_eq!(poll.parts, vec![126810, 126811, 126812]);
    assert_eq!(poll.kids, vec![126822, 126823, 126917, 127000]);
}

#[test]
fn test_poll_option() {
    let option = PollOption::try_from(poll_option_item()).unwrap();
    assert_eq!(option.id, 160705);
    assert_eq!(option.poll, 160704);
    assert_eq!(option.score, 335);
}

#[test]
fn test_story() {
    let story = Story::try_from(story_item()).unwrap();
    assert_eq!(story.id, 8863);
    assert_eq!(story.by, "dhouston");
    assert_eq!(story.comments, 71);
    assert_eq!(story.url, "http://www.getdropbox.com/u/2/screencast.html");
    assert_eq!(story.kids, vec![8952, 9224, 8917, 8884, 8887]);
}

#[test]
fn comment_keeps_its_fields() {
    let item = comment_item();
    let expected = item.clone();
    let comment = Comment::try_from(item).unwrap();
    assert_eq!(Some(comment.by), expected.by);
    assert_eq!(comment.id, expected.id);
    assert_eq!(Some(comment.kids), expected.kids);
    assert_eq!(Some(comment.parent), expected.parent);
    assert_eq!(Some(comment.text), expected.text);
    assert_eq!(Some(comment.time), expected.time);
}

#[test]
fn wrong_tag_is_refused() {
    assert!(matches!(Job::try_from(story_item()), Err(HError::ConversionFailed)));
    assert!(matches!(Comment::try_from(story_item()), Err(HError::ConversionFailed)));
    assert!(matches!(Story::try_from(job_item()), Err(HError::ConversionFailed)));
    assert!(matches!(Poll::try_from(poll_option_item()), Err(HError::ConversionFailed)));
    assert!(matches!(PollOption::try_from(poll_item()), Err(HError::ConversionFailed)));
    assert!(matches!(Ask::try_from(comment_item()), Err(HError::ConversionFailed)));
    let mut untagged = story_item();
    untagged.kind = None;
    assert!(matches!(Story::try_from(untagged), Err(HError::ConversionFailed)));
}

#[test]
fn absent_kids_and_parts_are_empty() {
    let mut item = comment_item();
    item.kids = None;
    assert!(Comment::try_from(item).unwrap().kids.is_empty());
    let mut item = story_item();
    item.kids = None;
    assert!(Story::try_from(item).unwrap().kids.is_empty());
    let mut item = poll_item();
    item.kids = None;
    item.parts = None;
    let poll = Poll::try_from(item).unwrap();
    assert!(poll.kids.is_empty());
    assert!(poll.parts.is_empty());
}

#[test]
fn missing_field_is_refused() {
    let mut item = story_item();
    item.url = None;
    assert!(matches!(Story::try_from(item), Err(HError::ConversionFailed)));
    let mut item = comment_item();
    item.parent = None;
    assert!(matches!(Comment::try_from(item), Err(HError::ConversionFailed)));
    let mut item = poll_option_item();
    item.poll = None;
    assert!(matches!(PollOption::try_from(item), Err(HError::ConversionFailed)));
    let mut item = job_item();
    item.score = None;
    assert!(matches!(Job::try_from(item), Err(HError::ConversionFailed)));
    let mut item = poll_item();
    item.descendants = None;
    assert!(matches!(Poll::try_from(item), Err(HError::ConversionFailed)));
    // A story without a text is no ask.
    assert!(matches!(Ask::try_from(story_item()), Err(HError::ConversionFailed)));
}

#[test]
fn deleted_item_is_refused() {
    let item = Item {
        id: 5,
        deleted: Some(true),
        kind: text("comment"),
        time: Some(1),
        parent: Some(4),
        ..Default::default()
    };
    assert!(matches!(Comment::try_from(item), Err(HError::ConversionFailed)));
    let bare = Item::new(6);
    assert_eq!(bare.id, 6);
    assert!(matches!(Story::try_from(bare), Err(HError::ConversionFailed)));
}

#[test]
fn resolving_twice_agrees() {
    let first = Story::try_from(story_item()).unwrap();
    let second = Story::try_from(story_item()).unwrap();
    assert_eq!(first.by, second.by);
    assert_eq!(first.comments, second.comments);
    assert_eq!(first.id, second.id);
    assert_eq!(first.kids, second.kids);
    assert_eq!(first.score, second.score);
    assert_eq!(first.time, second.time);
    assert_eq!(first.title, second.title);
    assert_eq!(first.url, second.url);
}

#[test]
fn example_record_resolves_as_ask() {
    let item = Item {
        id: 1,
        kind: text("story"),
        by: text("a"),
        time: Some(100),
        text: text(""),
        descendants: Some(5),
        score: Some(10),
        title: text("t"),
        kids: Some(vec![2, 3]),
        ..Default::default()
    };
    let ask = Ask::try_from(item).unwrap();
    assert_eq!(ask.by, "a");
    assert_eq!(ask.comments, 5);
    assert_eq!(ask.id, 1);
    assert_eq!(ask.score, 10);
    assert_eq!(ask.text, "");
    assert_eq!(ask.time, 100);
    assert_eq!(ask.title, "t");
    assert_eq!(ask.kids, vec![2, 3]);
}
