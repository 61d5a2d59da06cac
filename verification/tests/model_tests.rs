use queuebot::db::{Database, Song};
use queuebot::parse::parse;
use queuebot::reply::{render_reply, severity_prefix, u64_to_string, MessageType, Reply};
use queuebot::user::{calculate_hash, get_user};

#[test]
fn parse_rejects_text_without_prefix() {
    assert!(parse("join please").is_none());
    assert!(parse("").is_none());
    assert!(parse("q join").is_none());
}

#[test]
fn parse_lowercases_and_tokenizes() {
    let tokens = parse("!Q  JoIn   NoW").unwrap();
    assert_eq!(tokens, vec!["!q", "join", "now"]);
}

#[test]
fn parse_accepts_bare_prefix() {
    let tokens = parse("!q").unwrap();
    assert_eq!(tokens, vec!["!q"]);
    let tokens = parse("!qjoin").unwrap();
    assert_eq!(tokens, vec!["!qjoin"]);
}

#[test]
fn parse_splits_on_ascii_whitespace() {
    let tokens = parse("!q\tadd\n<@B>\r ok").unwrap();
    assert_eq!(tokens, vec!["!q", "add", "<@b>", "ok"]);
}

#[test]
fn user_strings_are_exact() {
    let u = get_user("Kapua", "0002", false);
    assert_eq!(u.get_mention(), "<@Kapua>");
    assert_eq!(u.get_tag(), "Kapua#0002");
    assert_eq!(u.get_name(), "Kapua");
    assert!(!u.is_staff);
}

#[test]
fn user_equality_is_by_identifier() {
    let u1 = get_user("Russ", "0004", false);
    let u2 = get_user("Russ", "9999", true);
    let u3 = get_user("Jordan", "0004", false);
    assert!(u1 == u2);
    assert!(u1 != u3);
}

#[test]
fn hash_is_deterministic() {
    assert_eq!(calculate_hash("Bennett"), calculate_hash("Bennett"));
    let u = get_user("Bennett", "0003", false);
    assert_eq!(u.uuid, calculate_hash("Bennett"));
}

#[test]
fn numbers_render_in_decimal() {
    assert_eq!(u64_to_string(0), "0");
    assert_eq!(u64_to_string(7), "7");
    assert_eq!(u64_to_string(12), "12");
    assert_eq!(u64_to_string(105), "105");
    assert_eq!(u64_to_string(u64::MAX), "18446744073709551615");
}

#[test]
fn severity_prefixes_are_fixed() {
    assert_eq!(severity_prefix(&None), "");
    assert_eq!(severity_prefix(&Some(MessageType::Warning)), "[warning] ");
    assert_eq!(severity_prefix(&Some(MessageType::Success)), "[success] ");
    assert_eq!(severity_prefix(&Some(MessageType::Error)), "[error] ");
}

#[test]
fn render_prepends_the_prefix() {
    let r = Reply { severity: Some(MessageType::Warning), text: String::from("careful") };
    assert_eq!(render_reply(&r), "[warning] careful");
    let r = Reply { severity: None, text: String::from("Pong!") };
    assert_eq!(render_reply(&r), "Pong!");
}

fn sample_db() -> Database {
    Database {
        songs: vec![
            Song {
                name: String::from("Hey"),
                author: String::from("Ana"),
                duration: 180,
            },
            Song {
                name: String::from("Ho"),
                author: String::from("Bo"),
                duration: 200,
            },
        ],
    }
}

#[test]
fn get_song_in_range() {
    let db = sample_db();
    let s = db.get_song(1).unwrap();
    assert_eq!(s.name, "Ho");
    assert_eq!(s.author, "Bo");
    assert_eq!(s.duration, 200);
}

#[test]
fn get_song_out_of_range() {
    let db = sample_db();
    assert!(db.get_song(2).is_none());
    assert!(db.get_song(usize::MAX).is_none());
}
