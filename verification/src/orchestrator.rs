//! What a post sets in motion.
//!
//! Every post is published as it is, at once, whatever else it means. A post
//! that is a command is also carried out: most commands are answered with a
//! reply that is published a moment later, and a question for a bot becomes a
//! query that is answered when the completion service has replied.

use vstd::prelude::*;
use vstd::string::StringExecFns;
use tokio::sync::broadcast::Sender;
use crate::bots::{bots_view, new_bot, Bot, BotView};
use crate::commands::{
    opt_view, parse_command, parse_message_command, CommandView, MessageCommand,
    MessageParseError,
};
use crate::content::{construct_message, is_message, joined, lemma_joined_push, Message};
use crate::hub::{publish, receiver_count};
use crate::registry::{
    error_text, first_exact, AiContext, AiErrorView, AiResponse, AiResponseError, AiResponseView,
};
use crate::session::SYSTEM;
use crate::text::{decimal, decimal_string};

verus! {

/// The sender of replies about the feed itself.
pub const SERVER: &'static str = "Server";

/// What follows a bot's name where it is the sender of a message.
pub const BOT_SUFFIX: &'static str = " (Bot)";

/// Whether viewers are notified of what bots say.
pub const BOT_RESPONSES_NOTIFY: bool = false;

/// The reply to a request for help.
pub const HELP_MESSAGE: &'static str = "Valid commands:
- !ai &lt;message&gt; - ask a question to the default bot (greg)
- !ask &lt;bot&gt; &lt;message&gt; - ask a question to a bot by name
- !newbot &lt;name&gt; [lang:&lt;language&gt;] &lt;instructions&gt; - create a new
bot that follows custom instructions
- !listbots - list bots by name
- !removebot <bot> - remove a bot (you can only remove a bot you created)
- !online - ask how many users are online
- !help - show this message";

/// The reply to a request to create a bot.
pub const BOT_CREATED: &'static str = "New bot created.";

/// The reply to a request that removed a bot.
pub const BOT_REMOVED: &'static str = "Bot removed.";

/// The reply to a request to remove a bot that does not exist.
pub const NO_SUCH_BOT: &'static str = "There is no bot by that name.";

/// What opens the list of bots.
pub const BOTS_ONLINE: &'static str = "Bots online:\n";

/// What opens the reply to a request for the number of users.
pub const USERS_ONLINE: &'static str = "Users currently online: ";

/// What follows a post that was carried out.
#[derive(Debug)]
pub enum FollowUp {
    /// Nothing: the post was plain chat.
    Nothing,
    /// A reply, to be published a moment after the post.
    Reply(Message),
    /// A question for a bot: the named one, or the default bot.
    Query { bot: Option<String>, query: String },
}

/// What carrying out a command gave.
#[derive(Debug)]
pub struct Outcome {
    pub follow_up: FollowUp,
    /// Whether the registry changed and is to be written to storage.
    pub registry_changed: bool,
}

/// What a post gave.
#[derive(Debug)]
pub struct Posted {
    /// The post as it was published.
    pub message: Message,
    pub follow_up: FollowUp,
    /// Whether the registry changed and is to be written to storage.
    pub registry_changed: bool,
}

/// What a command asks for, before any time is stamped on it.
pub ghost enum Plan {
    Nothing,
    Reply { text: Seq<char>, from: Seq<char> },
    Query { bot: Option<Seq<char>>, query: Seq<char> },
}

/// The line of the list of bots that names one bot.
pub open spec fn bot_line(b: BotView) -> Seq<char> {
    "- "@ + b.name
}

/// The list of bots: a heading, then one line for each bot.
pub open spec fn bots_list_text(bots: Seq<BotView>) -> Seq<char> {
    BOTS_ONLINE@ + joined(bots.map_values(|b: BotView| bot_line(b)), "\n"@)
}

/// The reply to a request for the number of users.
pub open spec fn online_text(online: nat) -> Seq<char> {
    USERS_ONLINE@ + decimal(online)
}

/// The reply to a post that is no valid command.
pub open spec fn invalid_text(post: Seq<char>) -> Seq<char> {
    "Invalid command `"@ + post + "`. Use !help to list valid commands"@
}

/// The sender that a bot's answer is published under.
pub open spec fn bot_label(bot_name: Seq<char>) -> Seq<char> {
    bot_name + BOT_SUFFIX@
}

/// What a command asks for, given the registry and the number of users
/// online.
pub open spec fn plan_of(
    bots: Seq<BotView>,
    command: Result<CommandView, Seq<char>>,
    online: nat,
) -> Plan {
    match command {
        Ok(CommandView::NumUsersOnline) => Plan::Reply { text: online_text(online), from: SERVER@ },
        Ok(CommandView::AIQuery { bot, query }) => Plan::Query { bot, query },
        Ok(CommandView::Help) => Plan::Reply { text: HELP_MESSAGE@, from: SERVER@ },
        Ok(CommandView::AICreate { .. }) => Plan::Reply { text: BOT_CREATED@, from: SYSTEM@ },
        Ok(CommandView::ListBots) => Plan::Reply { text: bots_list_text(bots), from: SYSTEM@ },
        Ok(CommandView::RemoveBot { name }) => {
            if first_exact(bots, name, 0) < bots.len() {
                Plan::Reply { text: BOT_REMOVED@, from: SYSTEM@ }
            } else {
                Plan::Reply { text: NO_SUCH_BOT@, from: SYSTEM@ }
            }
        },
        Err(post) => Plan::Reply { text: invalid_text(post), from: SERVER@ },
    }
}

/// The registry after a command of `sender` was carried out: a bot was added
/// behind the others, the first bot of a name was removed, or nothing
/// changed.
pub open spec fn registry_after(
    bots: Seq<BotView>,
    command: Result<CommandView, Seq<char>>,
    sender: Seq<char>,
) -> Seq<BotView> {
    match command {
        Ok(CommandView::AICreate { name, lang, config }) => bots.push(
            new_bot(name, sender, Some(config), lang),
        ),
        Ok(CommandView::RemoveBot { name }) => {
            if first_exact(bots, name, 0) < bots.len() {
                bots.remove(first_exact(bots, name, 0))
            } else {
                bots
            }
        },
        _ => bots,
    }
}

/// What a post asks for: nothing where it is plain chat.
pub open spec fn plan_of_post(bots: Seq<BotView>, post: Seq<char>, online: nat) -> Plan {
    match parse_command(post) {
        Some(command) => plan_of(bots, command, online),
        None => Plan::Nothing,
    }
}

/// The registry after a post of `sender`.
pub open spec fn registry_after_post(bots: Seq<BotView>, post: Seq<char>, sender: Seq<char>) -> Seq<
    BotView,
> {
    match parse_command(post) {
        Some(command) => registry_after(bots, command, sender),
        None => bots,
    }
}

/// Whether a follow-up carries out a plan: the same query, or the reply with
/// the planned text and sender, of which viewers are not notified.
pub open spec fn carries_out(f: FollowUp, plan: Plan) -> bool {
    match plan {
        Plan::Nothing => f is Nothing,
        Plan::Reply { text, from } => f is Reply && is_message(f->Reply_0@, text, from, false),
        Plan::Query { bot, query } => f is Query && opt_view(f->Query_bot) == bot && f->Query_query@
            == query,
    }
}

/// What is published once a query was answered or failed, before any time is
/// stamped on it.
pub open spec fn answer_plan(result: Result<AiResponseView, AiErrorView>) -> Plan {
    match result {
        Ok(answer) => Plan::Reply { text: answer.response, from: bot_label(answer.bot_name) },
        Err(AiErrorView::ApiError(_)) => Plan::Nothing,
        Err(e) => Plan::Reply { text: error_text(e), from: SYSTEM@ },
    }
}

/// The mathematical value of the result of a query.
pub open spec fn answer_view(result: Result<AiResponse, AiResponseError>) -> Result<
    AiResponseView,
    AiErrorView,
> {
    match result {
        Ok(answer) => Ok(answer@),
        Err(e) => Err(e@),
    }
}

/// The mathematical value of the result of the parser on a command.
pub open spec fn command_view(command: Result<MessageCommand, MessageParseError>) -> Result<
    CommandView,
    Seq<char>,
> {
    match command {
        Ok(c) => Ok(c@),
        Err(e) => Err(e@),
    }
}

/// Builds the list of bots.
fn bots_list(bots: &Vec<Bot>) -> (r: String)
    ensures
        r@ == bots_list_text(bots_view(bots@)),
{
    let ghost all = bots_view(bots@);
    let ghost lines = all.map_values(|b: BotView| bot_line(b));
    let mut list = String::new();
    let mut i: usize = 0;
    while i < bots.len()
        invariant
            i <= bots.len(),
            all == bots_view(bots@),
            lines == all.map_values(|b: BotView| bot_line(b)),
            list@ == joined(lines.take(i as int), "\n"@),
        decreases bots.len() - i,
    {
        proof {
            lemma_joined_push(lines.take(i as int), lines[i as int], "\n"@);
            assert(lines.take(i + 1) =~= lines.take(i as int).push(lines[i as int]));
        }
        let ghost before = list@;
        if i > 0 {
            list.append("\n");
        }
        list.append("- ");
        list.append(bots[i].name());
        assert(list@ =~= if i == 0 {
            lines[i as int]
        } else {
            before + "\n"@ + lines[i as int]
        });
        i += 1;
    }
    assert(lines.take(i as int) =~= lines);
    let mut r = String::new();
    r.append(BOTS_ONLINE);
    r.append(list.as_str());
    assert(r@ =~= bots_list_text(all));
    r
}

/// Carries out a command of `sender` while `online` users are subscribed.
///
/// Creating a bot and removing one change the registry; every other command
/// leaves it as it is. A question for a bot is handed back as a query; every
/// other command, and a post that is no valid command, is answered with a
/// reply.
pub fn execute_command(
    ctx: &mut AiContext,
    command: Result<MessageCommand, MessageParseError>,
    sender: &str,
    online: usize,
) -> (r: Outcome)
    ensures
        final(ctx)@ == registry_after(old(ctx)@, command_view(command), sender@),
        carries_out(r.follow_up, plan_of(old(ctx)@, command_view(command), online as nat)),
        r.registry_changed == (final(ctx)@ != old(ctx)@),
{
    match command {
        Ok(MessageCommand::NumUsersOnline) => {
            let mut text = String::new();
            text.append(USERS_ONLINE);
            text.append(decimal_string(online).as_str());
            assert(text@ =~= online_text(online as nat));
            Outcome {
                follow_up: FollowUp::Reply(construct_message(text.as_str(), SERVER, false)),
                registry_changed: false,
            }
        },
        Ok(MessageCommand::AIQuery { bot, query }) => Outcome {
            follow_up: FollowUp::Query { bot, query },
            registry_changed: false,
        },
        Ok(MessageCommand::Help) => Outcome {
            follow_up: FollowUp::Reply(construct_message(HELP_MESSAGE, SERVER, false)),
            registry_changed: false,
        },
        Ok(MessageCommand::AICreate { name, lang, config }) => {
            ctx.add_bot(Bot::new(name, sender.to_owned(), Some(config), lang));
            assert(ctx@.len() == old(ctx)@.len() + 1);
            Outcome {
                follow_up: FollowUp::Reply(construct_message(BOT_CREATED, SYSTEM, false)),
                registry_changed: true,
            }
        },
        Ok(MessageCommand::ListBots) => {
            let text = bots_list(&ctx.bots());
            Outcome {
                follow_up: FollowUp::Reply(construct_message(text.as_str(), SYSTEM, false)),
                registry_changed: false,
            }
        },
        Ok(MessageCommand::RemoveBot { name }) => {
            let removed = ctx.remove_bot_by_name(name);
            if removed.is_some() {
                assert(ctx@.len() == old(ctx)@.len() - 1);
                Outcome {
                    follow_up: FollowUp::Reply(construct_message(BOT_REMOVED, SYSTEM, false)),
                    registry_changed: true,
                }
            } else {
                Outcome {
                    follow_up: FollowUp::Reply(construct_message(NO_SUCH_BOT, SYSTEM, false)),
                    registry_changed: false,
                }
            }
        },
        Err(MessageParseError::InvalidCommand(post)) => {
            let mut text = String::new();
            text.append("Invalid command `");
            text.append(post.as_str());
            text.append("`. Use !help to list valid commands");
            assert(text@ =~= invalid_text(post@));
            Outcome {
                follow_up: FollowUp::Reply(construct_message(text.as_str(), SERVER, false)),
                registry_changed: false,
            }
        },
    }
}

/// Takes a post of `sender`: publishes it at once, as it is and whatever it
/// means, and carries it out where it is a command. Viewers are notified of
/// the post, not of what follows it.
pub fn send_message(ctx: &mut AiContext, hub: &Sender<Message>, sender: &str, contents: &str) -> (r:
    Posted)
    ensures
        is_message(r.message@, contents@, sender@, true),
        final(ctx)@ == registry_after_post(old(ctx)@, contents@, sender@),
        exists|online: nat| carries_out(r.follow_up, #[trigger] plan_of_post(old(ctx)@, contents@, online)),
        r.registry_changed == (final(ctx)@ != old(ctx)@),
{
    let message = construct_message(contents, sender, true);
    let outcome = match parse_message_command(contents) {
        Some(command) => {
            let online = receiver_count(hub);
            let outcome = execute_command(ctx, command, sender, online);
            assert(carries_out(outcome.follow_up, plan_of_post(old(ctx)@, contents@, online as nat)));
            outcome
        },
        None => {
            assert(carries_out(FollowUp::Nothing, plan_of_post(old(ctx)@, contents@, 0)));
            Outcome { follow_up: FollowUp::Nothing, registry_changed: false }
        },
    };
    publish(hub, message.clone());
    Posted {
        message,
        follow_up: outcome.follow_up,
        registry_changed: outcome.registry_changed,
    }
}

/// Builds what is published once a query was answered or failed: the bot's
/// answer under the bot's name, the failure in words where the bot could not
/// be found, and nothing where the completion service failed.
pub fn bot_reply(result: Result<AiResponse, AiResponseError>) -> (r: Option<Message>)
    ensures
        match answer_plan(answer_view(result)) {
            Plan::Reply { text, from } => r is Some && is_message(
                r->0@,
                text,
                from,
                BOT_RESPONSES_NOTIFY,
            ),
            _ => r is None,
        },
{
    match result {
        Ok(answer) => {
            let mut label = String::new();
            label.append(answer.bot_name.as_str());
            label.append(BOT_SUFFIX);
            assert(label@ =~= bot_label(answer@.bot_name));
            Some(construct_message(answer.response.as_str(), label.as_str(), BOT_RESPONSES_NOTIFY))
        },
        Err(AiResponseError::ApiError(_)) => None,
        Err(e) => {
            let text = e.message();
            Some(construct_message(text.as_str(), SYSTEM, BOT_RESPONSES_NOTIFY))
        },
    }
}

} // verus!
