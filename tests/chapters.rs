use static_text::chapters::{extract_enchiridion, Chapters};
use static_text::reply::Reply;

fn text(status: u16, body: &str) -> Reply {
    Reply::Text { status, body: body.to_string() }
}

#[test]
fn split_three_chapters() {
    assert_eq!(extract_enchiridion("A****B****C"), vec!["A", "B", "C"]);
}

#[test]
fn three_chapters_by_number() {
    let c = Chapters::from_text("A****B****C");
    assert_eq!(c.len(), 3);
    assert_eq!(c.chapter_reply(1), text(200, "A"));
    assert_eq!(c.chapter_reply(2), text(200, "B"));
    assert_eq!(c.chapter_reply(3), text(200, "C"));
    assert_eq!(c.chapter_reply(4), Reply::NotFoundPage);
    assert_eq!(c.chapter_reply(4).status(), 404);
}

#[test]
fn chapter_zero_is_not_found() {
    let c = Chapters::from_text("A****B");
    assert_eq!(c.get(0), None);
    assert_eq!(c.chapter_reply(0), Reply::NotFoundPage);
    assert_eq!(c.chapter_reply(usize::MAX), Reply::NotFoundPage);
}

#[test]
fn split_keeps_whitespace_verbatim() {
    assert_eq!(
        extract_enchiridion("\n One \n****\tTwo  "),
        vec!["\n One \n", "\tTwo  "]
    );
}

#[test]
fn split_without_delimiter_is_one_chapter() {
    assert_eq!(extract_enchiridion("no stars * here ***"), vec!["no stars * here ***"]);
}

#[test]
fn split_empty_text() {
    assert_eq!(extract_enchiridion(""), vec![""]);
}

#[test]
fn split_delimiter_alone() {
    assert_eq!(extract_enchiridion("****"), vec!["", ""]);
    assert_eq!(extract_enchiridion("********"), vec!["", "", ""]);
}

#[test]
fn split_takes_leftmost_delimiter() {
    assert_eq!(extract_enchiridion("a*****b"), vec!["a", "*b"]);
    assert_eq!(extract_enchiridion("a*******b"), vec!["a", "***b"]);
}

#[test]
fn split_matches_std_split() {
    let s = "Épictète ****** ἐγχειρίδιον****x****";
    let expected: Vec<&str> = s.split("****").collect();
    assert_eq!(extract_enchiridion(s), expected);
}

#[test]
fn get_returns_chapter_text() {
    let c = Chapters::from_text("first****second");
    assert_eq!(c.get(1).map(|s| s.as_str()), Some("first"));
    assert_eq!(c.get(2).map(|s| s.as_str()), Some("second"));
    assert_eq!(c.get(3), None);
}
