//! The command grammar of the chat feed.
//!
//! A post that starts with the sigil `!` is a command; anything else is plain
//! chat. The first whitespace-delimited word after the sigil selects the
//! command, and the text that follows is its argument.

use vstd::prelude::*;
use crate::text::{
    begins_with, chars_of, is_space, lemma_spaces_end, lemma_spaces_end_of_tail, lemma_text_end,
    lemma_text_end_from, lemma_text_end_of_tail, lemma_word_end, skip_spaces, skip_word,
    spaces_end, string_of, text_end, trim_back, trimmed, word_end, word_is,
};

verus! {

/// A command entered in the feed.
#[derive(Debug)]
pub enum MessageCommand {
    /// A question for a bot: the named one, or the default bot when `bot` is
    /// `None`.
    AIQuery { bot: Option<String>, query: String },
    /// A request to create a bot.
    AICreate { name: String, lang: Option<String>, config: String },
    /// A request to remove the bot of that name.
    RemoveBot { name: String },
    /// A request for the list of bots.
    ListBots,
    /// A request for the number of users online.
    NumUsersOnline,
    /// A request for the help text.
    Help,
}

/// Why a post that starts with the sigil is not a command.
#[derive(Debug)]
pub enum MessageParseError {
    /// The command word is unknown or its arguments are missing. Carries the
    /// whole post as it was entered.
    InvalidCommand(String),
}

/// The mathematical value of a `MessageCommand`.
pub ghost enum CommandView {
    AIQuery { bot: Option<Seq<char>>, query: Seq<char> },
    AICreate { name: Seq<char>, lang: Option<Seq<char>>, config: Seq<char> },
    RemoveBot { name: Seq<char> },
    ListBots,
    NumUsersOnline,
    Help,
}

/// The mathematical value of an optional string.
pub open spec fn opt_view(o: Option<String>) -> Option<Seq<char>> {
    match o {
        Some(s) => Some(s@),
        None => None,
    }
}

impl View for MessageCommand {
    type V = CommandView;

    open spec fn view(&self) -> CommandView {
        match *self {
            MessageCommand::AIQuery { bot, query } => CommandView::AIQuery {
                bot: opt_view(bot),
                query: query@,
            },
            MessageCommand::AICreate { name, lang, config } => CommandView::AICreate {
                name: name@,
                lang: opt_view(lang),
                config: config@,
            },
            MessageCommand::RemoveBot { name } => CommandView::RemoveBot { name: name@ },
            MessageCommand::ListBots => CommandView::ListBots,
            MessageCommand::NumUsersOnline => CommandView::NumUsersOnline,
            MessageCommand::Help => CommandView::Help,
        }
    }
}

impl View for MessageParseError {
    type V = Seq<char>;

    /// The post that was rejected.
    open spec fn view(&self) -> Seq<char> {
        match *self {
            MessageParseError::InvalidCommand(text) => text@,
        }
    }
}

/// The positions that the grammar reads in a post `s`: the bounds of the
/// command word and of the two words after it, and the end of the post once
/// its trailing whitespace is dropped.
pub ghost struct Layout {
    pub word: (int, int),
    pub first: (int, int),
    pub second: (int, int),
    pub third: int,
    pub end: int,
}

/// Where the words of `s` lie. The sigil at position 0 is skipped; each word
/// is a maximal run of characters that are not whitespace.
pub open spec fn layout(s: Seq<char>) -> Layout {
    let w0 = spaces_end(s, 1);
    let w1 = word_end(s, w0);
    let a0 = spaces_end(s, w1);
    let a1 = word_end(s, a0);
    let b0 = spaces_end(s, a1);
    let b1 = word_end(s, b0);
    let c0 = spaces_end(s, b1);
    Layout {
        word: (w0, w1),
        first: (a0, a1),
        second: (b0, b1),
        third: c0,
        end: text_end(s, w1, s.len() as int),
    }
}

/// The text of `s` from `from` up to the end of the post without its trailing
/// whitespace; empty when nothing but whitespace follows `from`.
pub open spec fn payload(s: Seq<char>, from: int, end: int) -> Seq<char> {
    if from < end {
        s.subrange(from, end)
    } else {
        Seq::empty()
    }
}

/// What a post that starts with the sigil means.
pub open spec fn classify(s: Seq<char>) -> Result<CommandView, Seq<char>> {
    let l = layout(s);
    let word = s.subrange(l.word.0, l.word.1);
    let first = s.subrange(l.first.0, l.first.1);
    let second = s.subrange(l.second.0, l.second.1);
    let two_arguments = l.second.0 < l.second.1;
    if word == "ai"@ {
        Ok(CommandView::AIQuery { bot: None, query: payload(s, l.first.0, l.end) })
    } else if word == "ask"@ && two_arguments {
        Ok(CommandView::AIQuery { bot: Some(first), query: payload(s, l.second.0, l.end) })
    } else if word == "online"@ {
        Ok(CommandView::NumUsersOnline)
    } else if word == "help"@ {
        Ok(CommandView::Help)
    } else if word == "newbot"@ && two_arguments {
        if "lang="@.is_prefix_of(second) {
            Ok(
                CommandView::AICreate {
                    name: first,
                    lang: Some(second.skip(5)),
                    config: payload(s, l.third, l.end),
                },
            )
        } else {
            Ok(
                CommandView::AICreate {
                    name: first,
                    lang: None,
                    config: payload(s, l.second.0, l.end),
                },
            )
        }
    } else if word == "listbots"@ {
        Ok(CommandView::ListBots)
    } else if word == "removebot"@ {
        Ok(CommandView::RemoveBot { name: payload(s, l.first.0, l.end) })
    } else {
        Err(s)
    }
}

/// What a post means: `None` for plain chat, otherwise the command or the
/// rejected post.
pub open spec fn parse_command(s: Seq<char>) -> Option<Result<CommandView, Seq<char>>> {
    if s.len() > 0 && s[0] == '!' {
        Some(classify(s))
    } else {
        None
    }
}

/// The mathematical value of a parser result.
pub open spec fn parsed_view(
    r: Option<Result<MessageCommand, MessageParseError>>,
) -> Option<Result<CommandView, Seq<char>>> {
    match r {
        None => None,
        Some(Ok(c)) => Some(Ok(c@)),
        Some(Err(e)) => Some(Err(e@)),
    }
}

/// The words of a post lie one behind the other, within the post.
pub proof fn lemma_layout_in_order(s: Seq<char>)
    requires
        s.len() >= 1,
    ensures
        ({
            let l = layout(s);
            &&& 1 <= l.word.0 <= l.word.1 <= l.first.0 <= l.first.1 <= l.second.0 <= l.second.1
                <= l.third <= s.len()
            &&& l.word.1 <= l.end <= s.len()
        }),
{
    let l = layout(s);
    lemma_spaces_end(s, 1);
    lemma_word_end(s, l.word.0);
    lemma_spaces_end(s, l.word.1);
    lemma_word_end(s, l.first.0);
    lemma_spaces_end(s, l.first.1);
    lemma_word_end(s, l.second.0);
    lemma_spaces_end(s, l.second.1);
    lemma_text_end(s, l.word.1, s.len() as int);
}

/// A word of a post holds no whitespace, and it is empty only where the post
/// has ended: a word is there whenever anything but whitespace is left.
pub proof fn lemma_words_hold_no_whitespace(s: Seq<char>, from: int)
    requires
        0 <= from <= s.len(),
    ensures
        ({
            let start = spaces_end(s, from);
            let end = word_end(s, start);
            &&& from <= start <= end <= s.len()
            &&& forall|k: int| start <= k < end ==> !is_space(#[trigger] s[k])
            &&& start == end <==> start == s.len()
            &&& start == s.len() <==> forall|k: int| from <= k < s.len() ==> is_space(#[trigger] s[k])
        }),
{
    let start = spaces_end(s, from);
    lemma_spaces_end(s, from);
    lemma_word_end(s, start);
    if start < s.len() {
        assert(!is_space(s[start]));
        assert(word_end(s, start) == word_end(s, start + 1));
        lemma_word_end(s, start + 1);
    }
}

/// Free text is what is left of the post behind a word, without the
/// whitespace around it: inner whitespace stays as it was typed.
pub proof fn lemma_payload_is_trimmed_rest(s: Seq<char>, behind: int)
    requires
        s.len() >= 1,
        layout(s).word.1 <= behind <= s.len(),
    ensures
        payload(s, spaces_end(s, behind), layout(s).end) == trimmed(
            s.subrange(behind, s.len() as int),
        ),
{
    let l = layout(s);
    let rest = s.subrange(behind, s.len() as int);
    let from = spaces_end(s, behind);
    lemma_layout_in_order(s);
    lemma_spaces_end(s, behind);
    lemma_spaces_end_of_tail(s, behind, 0);
    lemma_spaces_end(rest, 0);
    let lo = spaces_end(rest, 0);
    assert(lo + behind == from);
    lemma_text_end_of_tail(s, behind, lo, rest.len() as int);
    lemma_text_end(s, from, s.len() as int);
    if from < s.len() {
        lemma_text_end_from(s, l.word.1, from, s.len() as int);
        assert(l.end == text_end(s, from, s.len() as int));
        assert(rest.subrange(lo, text_end(rest, lo, rest.len() as int)) =~= s.subrange(
            from,
            l.end,
        ));
    } else {
        lemma_text_end(s, l.word.1, s.len() as int);
        assert(rest.subrange(lo, text_end(rest, lo, rest.len() as int)) =~= Seq::<char>::empty());
    }
}

/// Plain chat is whatever does not start with the sigil, and a post that is
/// rejected is handed back as it was entered.
pub proof fn lemma_sigil_decides(s: Seq<char>)
    ensures
        parse_command(s) is None <==> (s.len() == 0 || s[0] != '!'),
        parse_command(s) is Some && parse_command(s)->0 is Err ==> parse_command(s)->0->Err_0
            == s,
{
}

/// The payload that starts at `from`, as a string.
fn payload_string(v: &Vec<char>, from: usize, end: usize) -> (r: String)
    requires
        end <= v.len(),
    ensures
        r@ == payload(v@, from as int, end as int),
{
    if from < end {
        string_of(v, from, end)
    } else {
        String::new()
    }
}

/// Classifies a post.
///
/// Returns `None` when `s` does not start with `!`: it is plain chat.
/// Otherwise the first word after the sigil selects the command, case
/// sensitively. `ask` and `newbot` need two further words and are rejected
/// without them; `online`, `help` and `listbots` ignore what follows. Free text
/// keeps its inner whitespace and loses the whitespace around it.
pub fn parse_message_command(s: &str) -> (r: Option<Result<MessageCommand, MessageParseError>>)
    ensures
        parsed_view(r) == parse_command(s@),
{
    let v = chars_of(s);
    if v.len() == 0 || v[0] != '!' {
        return None;
    }
    let w0 = skip_spaces(&v, 1);
    let w1 = skip_word(&v, w0);
    let a0 = skip_spaces(&v, w1);
    let a1 = skip_word(&v, a0);
    let b0 = skip_spaces(&v, a1);
    let b1 = skip_word(&v, b0);
    let c0 = skip_spaces(&v, b1);
    let end = trim_back(&v, w1, v.len());
    let two_arguments = b0 < b1;
    if word_is(&v, w0, w1, "ai") {
        Some(Ok(MessageCommand::AIQuery { bot: None, query: payload_string(&v, a0, end) }))
    } else if word_is(&v, w0, w1, "ask") && two_arguments {
        Some(
            Ok(
                MessageCommand::AIQuery {
                    bot: Some(string_of(&v, a0, a1)),
                    query: payload_string(&v, b0, end),
                },
            ),
        )
    } else if word_is(&v, w0, w1, "online") {
        Some(Ok(MessageCommand::NumUsersOnline))
    } else if word_is(&v, w0, w1, "help") {
        Some(Ok(MessageCommand::Help))
    } else if word_is(&v, w0, w1, "newbot") && two_arguments {
        if begins_with(&v, b0, b1, "lang=") {
            proof {
                reveal_strlit("lang=");
                assert(v@.subrange(b0 as int, b1 as int).skip(5) =~= v@.subrange(
                    b0 as int + 5,
                    b1 as int,
                ));
            }
            Some(
                Ok(
                    MessageCommand::AICreate {
                        name: string_of(&v, a0, a1),
                        lang: Some(string_of(&v, b0 + 5, b1)),
                        config: payload_string(&v, c0, end),
                    },
                ),
            )
        } else {
            Some(
                Ok(
                    MessageCommand::AICreate {
                        name: string_of(&v, a0, a1),
                        lang: None,
                        config: payload_string(&v, b0, end),
                    },
                ),
            )
        }
    } else if word_is(&v, w0, w1, "listbots") {
        Some(Ok(MessageCommand::ListBots))
    } else if word_is(&v, w0, w1, "removebot") {
        Some(Ok(MessageCommand::RemoveBot { name: payload_string(&v, a0, end) }))
    } else {
        assert(v@.subrange(0, v.len() as int) =~= v@);
        Some(Err(MessageParseError::InvalidCommand(string_of(&v, 0, v.len()))))
    }
}

} // verus!
