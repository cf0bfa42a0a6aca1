use myrss::commands::{parse_message_command, MessageCommand, MessageParseError};

fn query(post: &str) -> (Option<String>, String) {
    match parse_message_command(post) {
        Some(Ok(MessageCommand::AIQuery { bot, query })) => (bot, query),
        other => panic!("not a query: {:?}", other),
    }
}

fn create(post: &str) -> (String, Option<String>, String) {
    match parse_message_command(post) {
        Some(Ok(MessageCommand::AICreate { name, lang, config })) => (name, lang, config),
        other => panic!("not a creation: {:?}", other),
    }
}

fn rejected(post: &str) -> String {
    match parse_message_command(post) {
        Some(Err(MessageParseError::InvalidCommand(text))) => text,
        other => panic!("not rejected: {:?}", other),
    }
}

#[test]
fn plain_text_is_no_command() {
    assert!(parse_message_command("hello").is_none());
    assert!(parse_message_command("").is_none());
    assert!(parse_message_command(" !online").is_none());
    assert!(parse_message_command("online!").is_none());
}

#[test]
fn online_is_recognised() {
    assert!(matches!(
        parse_message_command("!online"),
        Some(Ok(MessageCommand::NumUsersOnline))
    ));
}

#[test]
fn ask_names_the_bot_and_keeps_the_question() {
    assert_eq!(
        query("!ask greg what is 2+2"),
        (Some("greg".to_string()), "what is 2+2".to_string())
    );
}

#[test]
fn unknown_word_is_rejected_with_the_post() {
    let text = rejected("!bogus");
    assert_eq!(text, "!bogus");
    assert!(text.contains("bogus"));
}

#[test]
fn sigil_alone_is_rejected() {
    assert_eq!(rejected("!"), "!");
    assert_eq!(rejected("!   "), "!   ");
}

#[test]
fn ai_goes_to_the_default_bot() {
    assert_eq!(query("!ai hello there"), (None, "hello there".to_string()));
}

#[test]
fn ai_without_text_asks_nothing() {
    assert_eq!(query("!ai"), (None, String::new()));
    assert_eq!(query("!ai   "), (None, String::new()));
}

#[test]
fn free_text_keeps_inner_whitespace_and_loses_the_outer() {
    assert_eq!(query("!ai   one   two\tthree  \n"), (None, "one   two\tthree".to_string()));
    assert_eq!(
        query("!ask   Greg    why  not?   "),
        (Some("Greg".to_string()), "why  not?".to_string())
    );
}

#[test]
fn ask_needs_a_bot_and_a_question() {
    assert_eq!(rejected("!ask"), "!ask");
    assert_eq!(rejected("!ask greg"), "!ask greg");
    assert_eq!(rejected("!ask greg   "), "!ask greg   ");
}

#[test]
fn command_word_is_case_sensitive() {
    assert_eq!(rejected("!Online"), "!Online");
    assert_eq!(rejected("!HELP"), "!HELP");
    assert_eq!(rejected("!aix hello"), "!aix hello");
    assert_eq!(rejected("!a"), "!a");
}

#[test]
fn help_and_listbots_are_recognised() {
    assert!(matches!(parse_message_command("!help"), Some(Ok(MessageCommand::Help))));
    assert!(matches!(parse_message_command("!listbots"), Some(Ok(MessageCommand::ListBots))));
}

#[test]
fn commands_without_arguments_ignore_what_follows() {
    assert!(matches!(
        parse_message_command("!online now please"),
        Some(Ok(MessageCommand::NumUsersOnline))
    ));
    assert!(matches!(parse_message_command("!help me"), Some(Ok(MessageCommand::Help))));
    assert!(matches!(parse_message_command("!listbots all"), Some(Ok(MessageCommand::ListBots))));
}

#[test]
fn whitespace_may_follow_the_sigil() {
    assert!(matches!(parse_message_command("! help"), Some(Ok(MessageCommand::Help))));
    assert_eq!(query("!  ai hi"), (None, "hi".to_string()));
}

#[test]
fn newbot_without_language() {
    assert_eq!(
        create("!newbot Bard speak in verse, briefly"),
        ("Bard".to_string(), None, "speak in verse, briefly".to_string())
    );
}

#[test]
fn newbot_with_language() {
    assert_eq!(
        create("!newbot Bard lang=fr speak in verse"),
        ("Bard".to_string(), Some("fr".to_string()), "speak in verse".to_string())
    );
}

#[test]
fn newbot_with_language_and_no_instructions() {
    assert_eq!(
        create("!newbot Bard lang=fr"),
        ("Bard".to_string(), Some("fr".to_string()), String::new())
    );
    assert_eq!(create("!newbot Bard lang="), ("Bard".to_string(), Some(String::new()), String::new()));
}

#[test]
fn newbot_language_is_read_from_the_second_word_only() {
    assert_eq!(
        create("!newbot Bard be kind lang=fr"),
        ("Bard".to_string(), None, "be kind lang=fr".to_string())
    );
    assert_eq!(
        create("!newbot Bard LANG=fr be kind"),
        ("Bard".to_string(), None, "LANG=fr be kind".to_string())
    );
}

#[test]
fn newbot_needs_a_name_and_more() {
    assert_eq!(rejected("!newbot"), "!newbot");
    assert_eq!(rejected("!newbot Bard"), "!newbot Bard");
}

#[test]
fn removebot_takes_the_rest_as_the_name() {
    match parse_message_command("!removebot Greg") {
        Some(Ok(MessageCommand::RemoveBot { name })) => assert_eq!(name, "Greg"),
        other => panic!("{:?}", other),
    }
    match parse_message_command("!removebot   my bot  ") {
        Some(Ok(MessageCommand::RemoveBot { name })) => assert_eq!(name, "my bot"),
        other => panic!("{:?}", other),
    }
    match parse_message_command("!removebot") {
        Some(Ok(MessageCommand::RemoveBot { name })) => assert_eq!(name, ""),
        other => panic!("{:?}", other),
    }
}

#[test]
fn text_beyond_ascii_is_read_by_character() {
    assert_eq!(
        query("!ask grüß\u{3000}wie geht\u{a0}es?\u{2003}"),
        (Some("grüß".to_string()), "wie geht\u{a0}es?".to_string())
    );
    assert_eq!(
        create("!newbot 詩人 lang=日本語 俳句で答えて"),
        ("詩人".to_string(), Some("日本語".to_string()), "俳句で答えて".to_string())
    );
}
