//! The content pipeline: from text as it was typed to markup that is safe to
//! show.
//!
//! Rendering has four steps. Markup in the input is sanitized, trailing
//! whitespace is dropped from every line, the lines are joined with the hard
//! line break of markdown, and the result is converted from markdown to HTML.
//! The first and the last step are the work of outside crates; the two in the
//! middle are proved here.

use vstd::prelude::*;
use crate::text::{chars_of, is_space, push_chars, text_end, trim_back, trimmed_end};

verus! {

/// What `ammonia::clean` returns for a source text.
pub uninterp spec fn sanitized_html(src: Seq<char>) -> Seq<char>;

/// What `markdown::to_html` returns for a markdown text.
pub uninterp spec fn markdown_html(src: Seq<char>) -> Seq<char>;

/// The position of the first line feed at or after `i`, or the length of `s`
/// when there is none.
pub open spec fn line_end(s: Seq<char>, i: int) -> int
    decreases s.len() - i,
{
    if 0 <= i < s.len() && s[i] != '\n' {
        line_end(s, i + 1)
    } else {
        i
    }
}

/// The lines of `s` from position `i` on. A line ends at a line feed, which is
/// not part of it; a line feed at the very end of the text opens no further
/// line.
pub open spec fn lines_from(s: Seq<char>, i: int) -> Seq<Seq<char>>
    decreases s.len() - i,
{
    if 0 <= i < s.len() {
        let e = line_end(s, i);
        if i <= e < s.len() {
            seq![s.subrange(i, e)] + lines_from(s, e + 1)
        } else {
            seq![s.subrange(i, s.len() as int)]
        }
    } else {
        Seq::empty()
    }
}

/// The parts in order, with `sep` between every two neighbours.
pub open spec fn joined(parts: Seq<Seq<char>>, sep: Seq<char>) -> Seq<char>
    decreases parts.len(),
{
    if parts.len() == 0 {
        Seq::empty()
    } else if parts.len() == 1 {
        parts[0]
    } else {
        parts[0] + sep + joined(parts.drop_first(), sep)
    }
}

/// The hard line break of markdown: two spaces and a line feed.
pub open spec fn hard_break() -> Seq<char> {
    seq![' ', ' ', '\n']
}

/// The lines of `s` from position `i` on, each without its trailing
/// whitespace.
pub open spec fn trimmed_lines_from(s: Seq<char>, i: int) -> Seq<Seq<char>> {
    lines_from(s, i).map_values(|line: Seq<char>| trimmed_end(line))
}

/// `s` with the trailing whitespace of every line dropped and the lines joined
/// by hard line breaks.
pub open spec fn hard_breaks(s: Seq<char>) -> Seq<char> {
    joined(trimmed_lines_from(s, 0), hard_break())
}

/// What rendering makes of raw text.
pub open spec fn rendered(raw: Seq<char>) -> Seq<char> {
    markdown_html(hard_breaks(sanitized_html(raw)))
}

/// A chat message as it is published to the feed.
#[derive(Debug)]
pub struct Message {
    /// The display name of who sent it.
    pub sender: String,
    /// When it was sent: milliseconds since the Unix epoch, UTC.
    pub sent_date: i64,
    /// The rendered markup.
    pub contents: String,
    /// Whether viewers are to be notified of it.
    pub should_notify: bool,
}

/// The mathematical value of a `Message`.
pub ghost struct MessageView {
    pub sender: Seq<char>,
    pub sent_date: int,
    pub contents: Seq<char>,
    pub should_notify: bool,
}

impl View for Message {
    type V = MessageView;

    open spec fn view(&self) -> MessageView {
        MessageView {
            sender: self.sender@,
            sent_date: self.sent_date as int,
            contents: self.contents@,
            should_notify: self.should_notify,
        }
    }
}

impl Clone for Message {
    fn clone(&self) -> (r: Message)
        ensures
            r@ == self@,
    {
        Message {
            sender: self.sender.clone(),
            sent_date: self.sent_date,
            contents: self.contents.clone(),
            should_notify: self.should_notify,
        }
    }
}

/// The message that `construct_message_at` builds.
pub open spec fn message_of(
    contents: Seq<char>,
    sender: Seq<char>,
    notify: bool,
    sent_date: int,
) -> MessageView {
    MessageView { sender, sent_date, contents: rendered(contents), should_notify: notify }
}

/// Whether `m` is the message that `sender` sent with the rendered
/// `contents`, whenever it was sent.
pub open spec fn is_message(
    m: MessageView,
    contents: Seq<char>,
    sender: Seq<char>,
    notify: bool,
) -> bool {
    m == message_of(contents, sender, notify, m.sent_date)
}

/// Joining one more part: the part alone where there was none, otherwise what
/// was joined, the separator, and the part.
pub proof fn lemma_joined_push(parts: Seq<Seq<char>>, part: Seq<char>, sep: Seq<char>)
    ensures
        joined(parts.push(part), sep) == if parts.len() == 0 {
            part
        } else {
            joined(parts, sep) + sep + part
        },
    decreases parts.len(),
{
    let all = parts.push(part);
    if parts.len() == 0 {
        assert(all.len() == 1);
    } else if parts.len() == 1 {
        assert(all.drop_first() =~= seq![part]);
        assert(joined(all.drop_first(), sep) == part);
        assert(all[0] == parts[0]);
    } else {
        lemma_joined_push(parts.drop_first(), part, sep);
        assert(all.drop_first() =~= parts.drop_first().push(part));
        assert(all[0] == parts[0]);
        assert(joined(all, sep) =~= joined(parts, sep) + sep + part);
    }
}

/// `line_end` stops at the first line feed: it stays within `s` and passes no
/// line feed.
pub proof fn lemma_line_end(s: Seq<char>, i: int)
    requires
        0 <= i <= s.len(),
    ensures
        i <= line_end(s, i) <= s.len(),
        forall|k: int| i <= k < line_end(s, i) ==> #[trigger] s[k] != '\n',
        line_end(s, i) < s.len() ==> s[line_end(s, i)] == '\n',
    decreases s.len() - i,
{
    if i < s.len() && s[i] != '\n' {
        lemma_line_end(s, i + 1);
    }
}

/// Trimming a line that was cut out of `s` is the same as trimming it in
/// place.
proof fn lemma_trimmed_end_of_slice(s: Seq<char>, lo: int, hi: int)
    requires
        0 <= lo <= hi <= s.len(),
    ensures
        lo <= text_end(s, lo, hi) <= hi,
        trimmed_end(s.subrange(lo, hi)) == s.subrange(lo, text_end(s, lo, hi)),
    decreases hi - lo,
{
    let t = s.subrange(lo, hi);
    if lo < hi && is_space(s[hi - 1]) {
        lemma_trimmed_end_of_slice(s, lo, hi - 1);
        let u = s.subrange(lo, hi - 1);
        lemma_text_end_of_prefix(t, hi - lo - 1, hi - lo - 1);
        assert(t.subrange(0, hi - lo - 1) =~= u);
        lemma_text_end_same(t, u, hi - lo - 1);
        assert(text_end(t, 0, hi - lo) == text_end(t, 0, hi - lo - 1));
        assert(t.subrange(0, text_end(t, 0, hi - lo)) =~= u.subrange(0, text_end(u, 0, hi - lo - 1)));
    } else {
        assert(t.subrange(0, hi - lo) =~= s.subrange(lo, hi));
    }
}

/// `text_end` stays at or below where it starts.
proof fn lemma_text_end_of_prefix(s: Seq<char>, hi: int, bound: int)
    requires
        0 <= hi <= bound <= s.len(),
    ensures
        0 <= text_end(s, 0, hi) <= bound,
    decreases hi,
{
    if 0 < hi && is_space(s[hi - 1]) {
        lemma_text_end_of_prefix(s, hi - 1, bound);
    }
}

/// `text_end` reads only the characters below `hi`.
proof fn lemma_text_end_same(s: Seq<char>, t: Seq<char>, hi: int)
    requires
        0 <= hi <= s.len(),
        hi <= t.len(),
        forall|k: int| 0 <= k < hi ==> s[k] == t[k],
    ensures
        text_end(s, 0, hi) == text_end(t, 0, hi),
    decreases hi,
{
    if 0 < hi && is_space(s[hi - 1]) {
        lemma_text_end_same(s, t, hi - 1);
    }
}

/// Joining the trimmed lines from `i` on: the first line, then, if another
/// line follows, a hard break and the rest.
proof fn lemma_hard_breaks_step(s: Seq<char>, i: int)
    requires
        0 <= i < s.len(),
    ensures
        i <= line_end(s, i) <= s.len(),
        i <= text_end(s, i, line_end(s, i)) <= line_end(s, i),
        joined(trimmed_lines_from(s, i), hard_break()) == s.subrange(
            i,
            text_end(s, i, line_end(s, i)),
        ) + (if line_end(s, i) + 1 < s.len() {
            hard_break() + joined(trimmed_lines_from(s, line_end(s, i) + 1), hard_break())
        } else {
            Seq::empty()
        }),
{
    let e = line_end(s, i);
    lemma_line_end(s, i);
    lemma_trimmed_end_of_slice(s, i, e);
    let f = |line: Seq<char>| trimmed_end(line);
    let rest = lines_from(s, e + 1);
    let parts = trimmed_lines_from(s, i);
    let line = s.subrange(i, text_end(s, i, e));
    assert(lines_from(s, i) =~= seq![s.subrange(i, e)] + rest);
    assert(parts =~= seq![line] + rest.map_values(f));
    if e + 1 < s.len() {
        lemma_line_end(s, e + 1);
        assert(rest.len() >= 1);
        assert(parts.drop_first() =~= rest.map_values(f));
        assert(parts[0] == line);
    } else {
        assert(rest.len() == 0);
        assert(parts.len() == 1);
        assert(parts[0] == line);
        assert(line + Seq::<char>::empty() =~= line);
    }
}

/// `ammonia::clean`: sanitizes an HTML fragment with the crate's default
/// settings. Nothing is claimed of the result but that it depends on the source
/// text alone.
#[verifier::external_body]
fn sanitize(src: &str) -> (r: String)
    ensures
        r@ == sanitized_html(src@),
{
    ammonia::clean(src)
}

/// `markdown::to_html`: compiles markdown to HTML with the crate's default
/// options. Nothing is claimed of the result but that it depends on the source
/// text alone.
#[verifier::external_body]
fn markdown_to_html(src: &str) -> (r: String)
    ensures
        r@ == markdown_html(src@),
{
    markdown::to_html(src)
}

/// `chrono::Utc::now` and `DateTime::timestamp_millis`: the current time in
/// milliseconds since the Unix epoch. Nothing is claimed of the result. The
/// call does not return where the system clock stands before the epoch.
#[verifier::external_body]
pub(crate) fn unix_millis_now() -> (t: i64) {
    chrono::Utc::now().timestamp_millis()
}

/// Moves to the line feed that ends the line starting at `i`.
fn find_line_end(v: &Vec<char>, i: usize) -> (j: usize)
    requires
        i <= v.len(),
    ensures
        j == line_end(v@, i as int),
        i <= j <= v.len(),
{
    let mut j: usize = i;
    while j < v.len() && v[j] != '\n'
        invariant
            i <= j <= v.len(),
            line_end(v@, i as int) == line_end(v@, j as int),
        decreases v.len() - j,
    {
        j += 1;
    }
    j
}

/// Drops the trailing whitespace of every line of `text` and joins the lines
/// with hard line breaks, so that markdown keeps them apart.
pub fn join_lines(text: &str) -> (r: String)
    ensures
        r@ == hard_breaks(text@),
{
    let v = chars_of(text);
    let mut out = String::new();
    let mut i: usize = 0;
    while i < v.len()
        invariant
            i <= v.len(),
            hard_breaks(v@) == out@ + joined(trimmed_lines_from(v@, i as int), hard_break()),
        decreases v.len() - i,
    {
        let e = find_line_end(&v, i);
        let t = trim_back(&v, i, e);
        proof {
            lemma_hard_breaks_step(v@, i as int);
        }
        let ghost before = out@;
        push_chars(&mut out, &v, i, t);
        if e < v.len() - 1 {
            out.push(' ');
            out.push(' ');
            out.push('\n');
            assert(out@ =~= before + v@.subrange(i as int, t as int) + hard_break());
            assert(hard_breaks(v@) =~= out@ + joined(
                trimmed_lines_from(v@, e + 1),
                hard_break(),
            ));
            i = e + 1;
        } else {
            assert(hard_breaks(v@) =~= out@);
            i = v.len();
        }
        assert(i == v.len() ==> trimmed_lines_from(v@, i as int) =~= Seq::empty());
    }
    assert(trimmed_lines_from(v@, i as int) =~= Seq::empty());
    out
}

/// Renders raw text to markup that is safe to show.
pub fn render(raw: &str) -> (html: String)
    ensures
        html@ == rendered(raw@),
{
    let clean = sanitize(raw);
    let broken = join_lines(clean.as_str());
    markdown_to_html(broken.as_str())
}

/// Builds the message that `sender` sent at `sent_date` with the rendered
/// `contents`.
pub fn construct_message_at(contents: &str, sender: &str, notify: bool, sent_date: i64) -> (m:
    Message)
    ensures
        m@ == message_of(contents@, sender@, notify, sent_date as int),
{
    Message {
        sender: sender.to_owned(),
        sent_date,
        contents: render(contents),
        should_notify: notify,
    }
}

/// Builds the message that `sender` sends now with the rendered `contents`.
pub fn construct_message(contents: &str, sender: &str, notify: bool) -> (m: Message)
    ensures
        m@ == message_of(contents@, sender@, notify, m.sent_date as int),
{
    construct_message_at(contents, sender, notify, unix_millis_now())
}

} // verus!
