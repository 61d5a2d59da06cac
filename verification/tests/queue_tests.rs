use queuebot::bot::{Message, QueueBot};
use queuebot::reply::MessageType;
use queuebot::user::{get_user, User};

fn msg(author: &User, text: &str) -> Message {
    Message { author: author.clone(), text: String::from(text), mentions: None }
}

fn msg_with(author: &User, text: &str, mentions: Vec<User>) -> Message {
    Message { author: author.clone(), text: String::from(text), mentions: Some(mentions) }
}

fn staff() -> User {
    get_user("T", "0001", true)
}

fn students() -> (User, User, User) {
    (
        get_user("A", "0002", false),
        get_user("B", "0003", false),
        get_user("C", "0004", false),
    )
}

#[test]
fn ping_pongs() {
    let t = staff();
    let mut bot = QueueBot::new();
    let r = bot.on_message(msg(&t, "!q ping")).unwrap();
    assert_eq!(r.severity, None);
    assert_eq!(r.text, "Pong!");
}

#[test]
fn no_reply_without_prefix() {
    let (a, _, _) = students();
    let mut bot = QueueBot::new();
    assert!(bot.on_message(msg(&a, "hello there")).is_none());
    assert!(bot.on_message(msg(&a, "join")).is_none());
    assert!(bot.on_message(msg(&a, "")).is_none());
}

#[test]
fn prefix_is_case_insensitive() {
    let (a, _, _) = students();
    let mut bot = QueueBot::new();
    let r = bot.on_message(msg(&a, "!Q JoIn")).unwrap();
    assert_eq!(r.severity, Some(MessageType::Success));
    assert_eq!(r.text, "<@A> You have been added to the queue at position 1");
}

#[test]
fn too_short_message_is_invalid_syntax() {
    let (a, _, _) = students();
    let mut bot = QueueBot::new();
    let r = bot.on_message(msg(&a, "!q")).unwrap();
    assert_eq!(r.severity, Some(MessageType::Warning));
    assert_eq!(r.text, "<@A> invalid syntax.");
}

#[test]
fn unknown_command_is_invalid_syntax() {
    let (a, _, _) = students();
    let mut bot = QueueBot::new();
    let r = bot.on_message(msg(&a, "!q dance")).unwrap();
    assert_eq!(r.severity, Some(MessageType::Warning));
    assert_eq!(r.text, "<@A> invalid syntax.");
}

#[test]
fn join_reports_one_based_position() {
    let (a, b, _) = students();
    let mut bot = QueueBot::new();
    let r = bot.on_message(msg(&a, "!q join")).unwrap();
    assert_eq!(r.severity, Some(MessageType::Success));
    assert_eq!(r.text, "<@A> You have been added to the queue at position 1");
    let r = bot.on_message(msg(&b, "!q join")).unwrap();
    assert_eq!(r.text, "<@B> You have been added to the queue at position 2");
}

#[test]
fn join_twice_warns_and_keeps_queue() {
    let (a, _, _) = students();
    let mut bot = QueueBot::new();
    bot.on_message(msg(&a, "!q join")).unwrap();
    let r = bot.on_message(msg(&a, "!q join")).unwrap();
    assert_eq!(r.severity, Some(MessageType::Warning));
    assert_eq!(r.text, "You are already in the queue!");
    let r = bot.on_message(msg(&a, "!q list")).unwrap();
    assert_eq!(r.text, "Queue: [A#0002]");
}

#[test]
fn leave_twice_warns_second_time() {
    let (a, _, _) = students();
    let mut bot = QueueBot::new();
    bot.on_message(msg(&a, "!q join")).unwrap();
    let r = bot.on_message(msg(&a, "!q leave")).unwrap();
    assert_eq!(r.severity, Some(MessageType::Success));
    assert_eq!(r.text, "<@A> You have been removed from the queue");
    let r = bot.on_message(msg(&a, "!q leave")).unwrap();
    assert_eq!(r.severity, Some(MessageType::Warning));
    assert_eq!(r.text, "<@A> You are not in the queue!");
    let r = bot.on_message(msg(&a, "!q list")).unwrap();
    assert_eq!(r.text, "Queue: []");
}

#[test]
fn mid_queue_removal_preserves_order() {
    let (a, b, c) = students();
    let mut bot = QueueBot::new();
    bot.on_message(msg(&a, "!q join")).unwrap();
    bot.on_message(msg(&b, "!q join")).unwrap();
    bot.on_message(msg(&c, "!q join")).unwrap();
    let r = bot.on_message(msg(&b, "!q leave")).unwrap();
    assert_eq!(r.severity, Some(MessageType::Success));
    let r = bot.on_message(msg(&a, "!q list")).unwrap();
    assert_eq!(r.text, "Queue: [A#0002, C#0004]");
}

#[test]
fn position_is_one_based_and_aliased() {
    let (a, b, _) = students();
    let mut bot = QueueBot::new();
    bot.on_message(msg(&a, "!q join")).unwrap();
    bot.on_message(msg(&b, "!q join")).unwrap();
    let r = bot.on_message(msg(&a, "!q pos")).unwrap();
    assert_eq!(r.severity, None);
    assert_eq!(r.text, "<@A> You are at position 1");
    let r = bot.on_message(msg(&b, "!q position")).unwrap();
    assert_eq!(r.severity, None);
    assert_eq!(r.text, "<@B> You are at position 2");
}

#[test]
fn position_when_absent_warns() {
    let (a, b, _) = students();
    let mut bot = QueueBot::new();
    bot.on_message(msg(&a, "!q join")).unwrap();
    let r = bot.on_message(msg(&b, "!q pos")).unwrap();
    assert_eq!(r.severity, Some(MessageType::Warning));
    assert_eq!(r.text, "<@B> You are not in the queue!");
}

#[test]
fn next_serves_fifo_and_shrinks_by_one() {
    let t = staff();
    let (a, b, c) = students();
    let mut bot = QueueBot::new();
    bot.on_message(msg(&a, "!q join")).unwrap();
    bot.on_message(msg(&b, "!q join")).unwrap();
    bot.on_message(msg(&c, "!q join")).unwrap();
    let r = bot.on_message(msg(&t, "!q next")).unwrap();
    assert_eq!(r.severity, None);
    assert_eq!(r.text, "The next person in line is <@A>");
    let r = bot.on_message(msg(&t, "!q list")).unwrap();
    assert_eq!(r.text, "Queue: [B#0003, C#0004]");
    let r = bot.on_message(msg(&t, "!q next")).unwrap();
    assert_eq!(r.text, "The next person in line is <@B>");
    let r = bot.on_message(msg(&t, "!q next")).unwrap();
    assert_eq!(r.text, "The next person in line is <@C>");
    let r = bot.on_message(msg(&t, "!q list")).unwrap();
    assert_eq!(r.text, "Queue: []");
}

#[test]
fn next_on_empty_queue_is_plain() {
    let t = staff();
    let mut bot = QueueBot::new();
    let r = bot.on_message(msg(&t, "!q next")).unwrap();
    assert_eq!(r.severity, None);
    assert_eq!(r.text, "<@T> There is no one in the queue");
}

#[test]
fn clear_empties_the_queue() {
    let t = staff();
    let (a, b, _) = students();
    let mut bot = QueueBot::new();
    bot.on_message(msg(&a, "!q join")).unwrap();
    bot.on_message(msg(&b, "!q join")).unwrap();
    let r = bot.on_message(msg(&t, "!q clear")).unwrap();
    assert_eq!(r.severity, Some(MessageType::Success));
    assert_eq!(r.text, "<@T> The queue has been cleared");
    let r = bot.on_message(msg(&t, "!q list")).unwrap();
    assert_eq!(r.text, "Queue: []");
}

#[test]
fn staff_commands_from_non_staff_are_invalid_syntax() {
    let (a, b, _) = students();
    let mut bot = QueueBot::new();
    bot.on_message(msg(&b, "!q join")).unwrap();
    for text in ["!q next", "!q clear", "!q add", "!q remove"] {
        let r = bot.on_message(msg(&a, text)).unwrap();
        assert_eq!(r.severity, Some(MessageType::Warning));
        assert_eq!(r.text, "<@A> invalid syntax.");
    }
    let r = bot.on_message(msg(&a, "!q list")).unwrap();
    assert_eq!(r.text, "Queue: [B#0003]");
}

#[test]
fn add_requires_exactly_one_mention() {
    let t = staff();
    let (a, b, _) = students();
    let mut bot = QueueBot::new();
    let r = bot.on_message(msg(&t, "!q add")).unwrap();
    assert_eq!(r.severity, Some(MessageType::Warning));
    assert_eq!(r.text, "<@T> You must `@mention` a user!");
    let r = bot.on_message(msg_with(&t, "!q add", vec![])).unwrap();
    assert_eq!(r.severity, Some(MessageType::Warning));
    assert_eq!(r.text, "<@T> You must `@mention` a user!");
    let r = bot.on_message(msg_with(&t, "!q add", vec![a.clone(), b.clone()])).unwrap();
    assert_eq!(r.severity, Some(MessageType::Warning));
    assert_eq!(r.text, "<@T> you must mention a single user!");
    let r = bot.on_message(msg(&t, "!q list")).unwrap();
    assert_eq!(r.text, "Queue: []");
}

#[test]
fn remove_requires_exactly_one_mention() {
    let t = staff();
    let (a, b, _) = students();
    let mut bot = QueueBot::new();
    bot.on_message(msg(&a, "!q join")).unwrap();
    let r = bot.on_message(msg(&t, "!q remove")).unwrap();
    assert_eq!(r.severity, Some(MessageType::Warning));
    assert_eq!(r.text, "<@T> You must `@mention` a user!");
    let r = bot.on_message(msg_with(&t, "!q remove", vec![])).unwrap();
    assert_eq!(r.severity, Some(MessageType::Warning));
    assert_eq!(r.text, "<@T> You must `@mention` a user!");
    let r = bot.on_message(msg_with(&t, "!q remove", vec![a.clone(), b.clone()])).unwrap();
    assert_eq!(r.severity, Some(MessageType::Warning));
    assert_eq!(r.text, "<@T> you must mention a single user!");
    let r = bot.on_message(msg(&t, "!q list")).unwrap();
    assert_eq!(r.text, "Queue: [A#0002]");
}

#[test]
fn add_appends_the_mentioned_user() {
    let t = staff();
    let (a, b, _) = students();
    let mut bot = QueueBot::new();
    bot.on_message(msg(&a, "!q join")).unwrap();
    let r = bot.on_message(msg_with(&t, "!q add <@B>", vec![b.clone()])).unwrap();
    assert_eq!(r.severity, Some(MessageType::Success));
    assert_eq!(r.text, "<@T> The student has been added to the queue!");
    let r = bot.on_message(msg(&t, "!q list")).unwrap();
    assert_eq!(r.text, "Queue: [A#0002, B#0003]");
    let r = bot.on_message(msg_with(&t, "!q add <@B>", vec![b.clone()])).unwrap();
    assert_eq!(r.severity, Some(MessageType::Warning));
    assert_eq!(r.text, "<@T> That student is already in the queue!");
}

#[test]
fn remove_takes_out_the_mentioned_user() {
    let t = staff();
    let (a, b, c) = students();
    let mut bot = QueueBot::new();
    bot.on_message(msg(&a, "!q join")).unwrap();
    bot.on_message(msg(&b, "!q join")).unwrap();
    bot.on_message(msg(&c, "!q join")).unwrap();
    let r = bot.on_message(msg_with(&t, "!q remove <@B>", vec![b.clone()])).unwrap();
    assert_eq!(r.severity, Some(MessageType::Success));
    assert_eq!(r.text, "<@T> The student has been removed from the queue!");
    let r = bot.on_message(msg(&t, "!q list")).unwrap();
    assert_eq!(r.text, "Queue: [A#0002, C#0004]");
    let r = bot.on_message(msg_with(&t, "!q remove <@B>", vec![b.clone()])).unwrap();
    assert_eq!(r.severity, Some(MessageType::Warning));
    assert_eq!(r.text, "<@T> The specified student is not in the queue!");
}

#[test]
fn positions_reach_two_digits() {
    let mut bot = QueueBot::new();
    let names = [
        "u01", "u02", "u03", "u04", "u05", "u06", "u07", "u08", "u09", "u10", "u11", "u12",
    ];
    for (i, name) in names.iter().enumerate() {
        let u = get_user(name, "0000", false);
        let r = bot.on_message(msg(&u, "!q join")).unwrap();
        assert_eq!(r.severity, Some(MessageType::Success));
        assert_eq!(
            r.text,
            format!("<@{}> You have been added to the queue at position {}", name, i + 1)
        );
    }
    let last = get_user("u12", "0000", false);
    let r = bot.on_message(msg(&last, "!q position")).unwrap();
    assert_eq!(r.text, "<@u12> You are at position 12");
}

#[test]
fn concrete_scenario() {
    let t = staff();
    let (a, b, c) = students();
    let mut bot = QueueBot::new();

    let r = bot.on_message(msg(&a, "!q join")).unwrap();
    assert_eq!(r.severity, Some(MessageType::Success));
    assert_eq!(r.text, "<@A> You have been added to the queue at position 1");

    let r = bot.on_message(msg(&b, "!q join")).unwrap();
    assert_eq!(r.severity, Some(MessageType::Success));
    assert_eq!(r.text, "<@B> You have been added to the queue at position 2");

    let r = bot.on_message(msg(&t, "!q next")).unwrap();
    assert_eq!(r.severity, None);
    assert_eq!(r.text, "The next person in line is <@A>");

    let r = bot.on_message(msg(&b, "!q leave")).unwrap();
    assert_eq!(r.severity, Some(MessageType::Success));
    assert_eq!(r.text, "<@B> You have been removed from the queue");

    let r = bot.on_message(msg(&c, "!q position")).unwrap();
    assert_eq!(r.severity, Some(MessageType::Warning));
    assert_eq!(r.text, "<@C> You are not in the queue!");

    let r = bot.on_message(msg(&a, "!q next")).unwrap();
    assert_eq!(r.severity, Some(MessageType::Warning));
    assert_eq!(r.text, "<@A> invalid syntax.");

    let r = bot.on_message(msg(&t, "!q list")).unwrap();
    assert_eq!(r.text, "Queue: []");
}
