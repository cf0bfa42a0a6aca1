use myrss::bots::Bot;
use myrss::commands::parse_message_command;
use myrss::content::Message;
use myrss::orchestrator::{bot_reply, execute_command, send_message, FollowUp, HELP_MESSAGE};
use myrss::registry::{AiContext, AiResponse, AiResponseError};
use tokio::sync::broadcast::channel;
use tokio::sync::broadcast::error::TryRecvError;

fn reply(f: FollowUp) -> Message {
    match f {
        FollowUp::Reply(m) => m,
        other => panic!("no reply: {:?}", other),
    }
}

fn run(ctx: &mut AiContext, post: &str, sender: &str, online: usize) -> (FollowUp, bool) {
    let command = parse_message_command(post).expect("a command");
    let outcome = execute_command(ctx, command, sender, online);
    (outcome.follow_up, outcome.registry_changed)
}

fn names(ctx: &AiContext) -> Vec<String> {
    ctx.bots().iter().map(|b| b.name().to_string()).collect()
}

#[test]
fn online_is_answered_by_the_server() {
    let mut ctx = AiContext::new(None);
    let (f, changed) = run(&mut ctx, "!online", "ann", 4);
    let m = reply(f);
    assert_eq!(m.sender, "Server");
    assert_eq!(m.contents, "<p>Users currently online: 4</p>");
    assert!(!m.should_notify);
    assert!(!changed);
}

#[test]
fn help_is_answered_with_the_help_text() {
    let mut ctx = AiContext::new(None);
    let (f, changed) = run(&mut ctx, "!help", "ann", 1);
    let m = reply(f);
    assert_eq!(m.sender, "Server");
    assert_eq!(m.contents, myrss::content::render(HELP_MESSAGE));
    assert!(m.contents.contains("!removebot"));
    assert!(!m.should_notify);
    assert!(!changed);
}

#[test]
fn a_question_becomes_a_query() {
    let mut ctx = AiContext::new(None);
    match run(&mut ctx, "!ask greg what is 2+2", "ann", 1) {
        (FollowUp::Query { bot, query }, false) => {
            assert_eq!(bot.as_deref(), Some("greg"));
            assert_eq!(query, "what is 2+2");
        }
        other => panic!("{:?}", other),
    }
    match run(&mut ctx, "!ai hello", "ann", 1) {
        (FollowUp::Query { bot, query }, false) => {
            assert_eq!(bot, None);
            assert_eq!(query, "hello");
        }
        other => panic!("{:?}", other),
    }
    assert!(ctx.bots()[0].message_history().is_empty());
}

#[test]
fn newbot_registers_a_bot_of_the_sender() {
    let mut ctx = AiContext::new(None);
    let (f, changed) = run(&mut ctx, "!newbot Bard lang=fr speak in verse", "ann", 1);
    let m = reply(f);
    assert_eq!(m.sender, "System");
    assert_eq!(m.contents, "<p>New bot created.</p>");
    assert!(!m.should_notify);
    assert!(changed);
    let bots = ctx.bots();
    assert_eq!(bots.len(), 2);
    assert_eq!(bots[1].name(), "Bard");
    assert_eq!(bots[1].created_by(), "ann");
    assert_eq!(bots[1].language(), "fr");
    assert_eq!(bots[1].custom_config(), "speak in verse");
}

#[test]
fn newbot_without_language_speaks_english() {
    let mut ctx = AiContext::new(None);
    run(&mut ctx, "!newbot Bard speak in verse", "ann", 1);
    let bots = ctx.bots();
    assert_eq!(bots[1].language(), "English");
    assert_eq!(bots[1].custom_config(), "speak in verse");
}

#[test]
fn listbots_names_every_bot() {
    let mut ctx = AiContext::new(None);
    ctx.add_bot(Bot::new("Bard".to_string(), "ann".to_string(), None, None));
    let (f, changed) = run(&mut ctx, "!listbots", "ann", 1);
    let m = reply(f);
    assert_eq!(m.sender, "System");
    assert_eq!(m.contents, myrss::content::render("Bots online:\n- Greg\n- Bard"));
    assert!(m.contents.contains("<li>Greg</li>"));
    assert!(m.contents.contains("<li>Bard</li>"));
    assert!(!changed);
}

#[test]
fn listbots_with_no_bots() {
    let mut ctx = AiContext::new(Some(vec![]));
    let (f, _) = run(&mut ctx, "!listbots", "ann", 1);
    assert_eq!(reply(f).contents, myrss::content::render("Bots online:\n"));
}

#[test]
fn removebot_removes_or_says_that_there_is_none() {
    let mut ctx = AiContext::new(None);
    let (f, changed) = run(&mut ctx, "!removebot greg", "ann", 1);
    let m = reply(f);
    assert_eq!(m.sender, "System");
    assert_eq!(m.contents, "<p>There is no bot by that name.</p>");
    assert!(!changed);
    assert_eq!(names(&ctx), vec!["Greg"]);

    let (f, changed) = run(&mut ctx, "!removebot Greg", "ann", 1);
    let m = reply(f);
    assert_eq!(m.sender, "System");
    assert_eq!(m.contents, "<p>Bot removed.</p>");
    assert!(!m.should_notify);
    assert!(changed);
    assert!(ctx.bots().is_empty());
}

#[test]
fn an_invalid_command_is_answered_by_the_server() {
    let mut ctx = AiContext::new(None);
    let (f, changed) = run(&mut ctx, "!bogus", "ann", 1);
    let m = reply(f);
    assert_eq!(m.sender, "Server");
    assert_eq!(
        m.contents,
        myrss::content::render("Invalid command `!bogus`. Use !help to list valid commands")
    );
    assert!(m.contents.contains("<code>!bogus</code>"));
    assert!(!m.should_notify);
    assert!(!changed);
}

#[test]
fn a_plain_post_is_published_and_nothing_follows() {
    let (hub, mut watcher) = channel::<Message>(10);
    let mut ctx = AiContext::new(None);
    let posted = send_message(&mut ctx, &hub, "ann", "hello *all*");
    assert!(matches!(posted.follow_up, FollowUp::Nothing));
    assert!(!posted.registry_changed);
    assert_eq!(posted.message.sender, "ann");
    assert_eq!(posted.message.contents, "<p>hello <em>all</em></p>");
    assert!(posted.message.should_notify);
    let seen = watcher.try_recv().expect("the post");
    assert_eq!(seen.contents, posted.message.contents);
    assert_eq!(seen.sender, "ann");
    assert!(matches!(watcher.try_recv(), Err(TryRecvError::Empty)));
}

#[test]
fn a_command_is_published_as_it_is_and_carried_out() {
    let (hub, mut watcher) = channel::<Message>(10);
    let _second = hub.subscribe();
    let mut ctx = AiContext::new(None);
    let posted = send_message(&mut ctx, &hub, "ann", "!online");
    assert_eq!(posted.message.sender, "ann");
    assert_eq!(posted.message.contents, "<p>!online</p>");
    assert!(posted.message.should_notify);
    let m = reply(posted.follow_up);
    assert_eq!(m.contents, "<p>Users currently online: 2</p>");
    let seen = watcher.try_recv().expect("the post");
    assert_eq!(seen.contents, "<p>!online</p>");
    assert!(matches!(watcher.try_recv(), Err(TryRecvError::Empty)));
}

#[test]
fn a_post_without_viewers_is_still_carried_out() {
    let (hub, first) = channel::<Message>(10);
    drop(first);
    let mut ctx = AiContext::new(None);
    let posted = send_message(&mut ctx, &hub, "ann", "!newbot Bard be brief");
    assert!(posted.registry_changed);
    assert_eq!(names(&ctx), vec!["Greg", "Bard"]);
    assert_eq!(reply(posted.follow_up).contents, "<p>New bot created.</p>");
}

#[test]
fn an_answer_is_published_under_the_bots_name() {
    let m = bot_reply(Ok(AiResponse { bot_name: "Greg".to_string(), response: "**4**".to_string() }))
        .expect("a message");
    assert_eq!(m.sender, "Greg (Bot)");
    assert_eq!(m.contents, "<p><strong>4</strong></p>");
    assert!(!m.should_notify);
}

#[test]
fn a_missing_bot_is_reported_and_a_failed_call_is_not() {
    let m = bot_reply(Err(AiResponseError::BotDoesNotExist("bard".to_string()))).expect("a message");
    assert_eq!(m.sender, "System");
    assert_eq!(m.contents, myrss::content::render("Bot \"bard\" does not exist"));
    assert!(m.contents.contains("bard"));
    assert!(!m.should_notify);
    let m = bot_reply(Err(AiResponseError::NoBotsFound)).expect("a message");
    assert_eq!(m.contents, "<p>There are no bots created currently</p>");
    assert!(bot_reply(Err(AiResponseError::ApiError("boom".to_string()))).is_none());
}
