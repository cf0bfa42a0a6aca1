//! Character classes and small string helpers shared by the other modules.
//!
//! Strings are modelled as `Seq<char>`. Positions are character indices, never
//! byte offsets, so every function here is total on arbitrary Unicode text.

use vstd::prelude::*;
use vstd::std_specs::iter::IteratorSpec;

verus! {

/// Whether `c` carries the Unicode `White_Space` property.
pub open spec fn is_space(c: char) -> bool {
    let n = c as u32;
    ||| 0x09 <= n <= 0x0D
    ||| n == 0x20
    ||| n == 0x85
    ||| n == 0xA0
    ||| n == 0x1680
    ||| 0x2000 <= n <= 0x200A
    ||| n == 0x2028
    ||| n == 0x2029
    ||| n == 0x202F
    ||| n == 0x205F
    ||| n == 0x3000
}

/// The first position at or after `i` that does not hold whitespace, or the
/// length of `s` when only whitespace follows.
pub open spec fn spaces_end(s: Seq<char>, i: int) -> int
    decreases s.len() - i,
{
    if 0 <= i < s.len() && is_space(s[i]) {
        spaces_end(s, i + 1)
    } else {
        i
    }
}

/// The first position at or after `i` that holds whitespace, or the length of
/// `s` when none follows: the end of the word that starts at `i`.
pub open spec fn word_end(s: Seq<char>, i: int) -> int
    decreases s.len() - i,
{
    if 0 <= i < s.len() && !is_space(s[i]) {
        word_end(s, i + 1)
    } else {
        i
    }
}

/// The end of `s[lo..hi]` once its trailing whitespace is dropped.
pub open spec fn text_end(s: Seq<char>, lo: int, hi: int) -> int
    decreases hi - lo,
{
    if lo < hi <= s.len() && 0 <= lo && is_space(s[hi - 1]) {
        text_end(s, lo, hi - 1)
    } else {
        hi
    }
}

/// `s` without its leading and trailing whitespace.
pub open spec fn trimmed(s: Seq<char>) -> Seq<char> {
    let lo = spaces_end(s, 0);
    s.subrange(lo, text_end(s, lo, s.len() as int))
}

/// `s` without its trailing whitespace.
pub open spec fn trimmed_end(s: Seq<char>) -> Seq<char> {
    s.subrange(0, text_end(s, 0, s.len() as int))
}

/// The decimal digit for `d`, which is below ten.
pub open spec fn digit(d: nat) -> char {
    ((48 + d) as u8) as char
}

/// `n` written in decimal, without sign or leading zeros.
pub open spec fn decimal(n: nat) -> Seq<char>
    decreases n,
{
    if n < 10 {
        seq![digit(n)]
    } else {
        decimal(n / 10).push(digit(n % 10))
    }
}

/// `spaces_end` stops at the first character that is not whitespace: it stays
/// within `s`, everything it passes is whitespace, and what it stops at is not.
pub proof fn lemma_spaces_end(s: Seq<char>, i: int)
    requires
        0 <= i <= s.len(),
    ensures
        i <= spaces_end(s, i) <= s.len(),
        forall|k: int| i <= k < spaces_end(s, i) ==> is_space(#[trigger] s[k]),
        spaces_end(s, i) < s.len() ==> !is_space(s[spaces_end(s, i)]),
    decreases s.len() - i,
{
    if i < s.len() && is_space(s[i]) {
        lemma_spaces_end(s, i + 1);
    }
}

/// `word_end` stops at the first whitespace character: it stays within `s`,
/// nothing it passes is whitespace, and what it stops at is.
pub proof fn lemma_word_end(s: Seq<char>, i: int)
    requires
        0 <= i <= s.len(),
    ensures
        i <= word_end(s, i) <= s.len(),
        forall|k: int| i <= k < word_end(s, i) ==> !is_space(#[trigger] s[k]),
        word_end(s, i) < s.len() ==> is_space(s[word_end(s, i)]),
    decreases s.len() - i,
{
    if i < s.len() && !is_space(s[i]) {
        lemma_word_end(s, i + 1);
    }
}

/// `text_end` drops exactly the trailing whitespace of `s[lo..hi]`: what it
/// removes is whitespace, and what is left is empty or ends in a character that
/// is not.
pub proof fn lemma_text_end(s: Seq<char>, lo: int, hi: int)
    requires
        0 <= lo <= hi <= s.len(),
    ensures
        lo <= text_end(s, lo, hi) <= hi,
        forall|k: int| text_end(s, lo, hi) <= k < hi ==> is_space(#[trigger] s[k]),
        lo < text_end(s, lo, hi) ==> !is_space(s[text_end(s, lo, hi) - 1]),
    decreases hi - lo,
{
    if lo < hi && is_space(s[hi - 1]) {
        lemma_text_end(s, lo, hi - 1);
    }
}

/// What is trimmed is a part of the text that neither begins nor ends with
/// whitespace, and all that was dropped around it is whitespace.
pub proof fn lemma_trimmed(s: Seq<char>)
    ensures
        ({
            let lo = spaces_end(s, 0);
            let hi = text_end(s, lo, s.len() as int);
            &&& 0 <= lo <= hi <= s.len()
            &&& trimmed(s) == s.subrange(lo, hi)
            &&& forall|k: int| 0 <= k < lo ==> is_space(#[trigger] s[k])
            &&& forall|k: int| hi <= k < s.len() ==> is_space(#[trigger] s[k])
            &&& trimmed(s).len() > 0 ==> !is_space(trimmed(s).first()) && !is_space(
                trimmed(s).last(),
            )
        }),
{
    let lo = spaces_end(s, 0);
    lemma_spaces_end(s, 0);
    lemma_text_end(s, lo, s.len() as int);
}

/// `spaces_end` in a tail of `s` is `spaces_end` in `s`, moved.
pub proof fn lemma_spaces_end_of_tail(s: Seq<char>, k: int, i: int)
    requires
        0 <= k <= s.len(),
        0 <= i <= s.len() - k,
    ensures
        spaces_end(s.subrange(k, s.len() as int), i) + k == spaces_end(s, k + i),
    decreases s.len() - k - i,
{
    let t = s.subrange(k, s.len() as int);
    if i < t.len() && is_space(t[i]) {
        lemma_spaces_end_of_tail(s, k, i + 1);
    }
}

/// `text_end` in a tail of `s` is `text_end` in `s`, moved.
pub proof fn lemma_text_end_of_tail(s: Seq<char>, k: int, lo: int, hi: int)
    requires
        0 <= k <= s.len(),
        0 <= lo <= hi <= s.len() - k,
    ensures
        text_end(s.subrange(k, s.len() as int), lo, hi) + k == text_end(s, k + lo, k + hi),
    decreases hi - lo,
{
    let t = s.subrange(k, s.len() as int);
    if lo < hi && is_space(t[hi - 1]) {
        lemma_text_end_of_tail(s, k, lo, hi - 1);
    }
}

/// Where trimming stops does not depend on how far back it may go, as long as
/// a character that is not whitespace stands in between.
pub proof fn lemma_text_end_from(s: Seq<char>, lo: int, mid: int, hi: int)
    requires
        0 <= lo <= mid < hi <= s.len(),
        !is_space(s[mid]),
    ensures
        text_end(s, lo, hi) == text_end(s, mid, hi),
        mid < text_end(s, mid, hi),
    decreases hi - mid,
{
    if is_space(s[hi - 1]) {
        lemma_text_end_from(s, lo, mid, hi - 1);
    }
}

/// What `str::to_lowercase` returns for a text.
pub uninterp spec fn lowercase(s: Seq<char>) -> Seq<char>;

/// `str::to_lowercase` of the standard library: the lowercase form of a text
/// by the Unicode case mapping. Nothing is claimed of the result but that it
/// depends on the text alone.
#[verifier::external_body]
pub(crate) fn to_lowercase(s: &str) -> (r: String)
    ensures
        r@ == lowercase(s@),
{
    s.to_lowercase()
}

/// `String::push` of the standard library: appends one character to the end of
/// the string and changes nothing else.
pub assume_specification[ String::push ](s: &mut String, c: char)
    ensures
        final(s)@ == old(s)@.push(c),
;

/// Tests a character for the Unicode `White_Space` property.
pub fn is_whitespace(c: char) -> (r: bool)
    ensures
        r == is_space(c),
{
    let n: u32 = c as u32;
    (0x09 <= n && n <= 0x0D) || n == 0x20 || n == 0x85 || n == 0xA0 || n == 0x1680 || (0x2000 <= n
        && n <= 0x200A) || n == 0x2028 || n == 0x2029 || n == 0x202F || n == 0x205F || n == 0x3000
}

/// The characters of `s`, in order.
pub fn chars_of(s: &str) -> (v: Vec<char>)
    ensures
        v@ == s@,
{
    let mut v: Vec<char> = Vec::new();
    for c in it: s.chars()
        invariant
            v@ == it.seq().take(it.index() as int),
            it.seq() == s@,
    {
        v.push(c);
    }
    v
}

/// The string made of `v[lo..hi]`.
pub(crate) fn string_of(v: &Vec<char>, lo: usize, hi: usize) -> (s: String)
    requires
        lo <= hi <= v.len(),
    ensures
        s@ == v@.subrange(lo as int, hi as int),
{
    let mut s = String::new();
    let mut i: usize = lo;
    while i < hi
        invariant
            lo <= i <= hi <= v.len(),
            s@ == v@.subrange(lo as int, i as int),
        decreases hi - i,
    {
        s.push(v[i]);
        i += 1;
    }
    s
}

/// Appends `v[lo..hi]` to `out`.
pub(crate) fn push_chars(out: &mut String, v: &Vec<char>, lo: usize, hi: usize)
    requires
        lo <= hi <= v.len(),
    ensures
        final(out)@ == old(out)@ + v@.subrange(lo as int, hi as int),
{
    let mut i: usize = lo;
    while i < hi
        invariant
            lo <= i <= hi <= v.len(),
            out@ == old(out)@ + v@.subrange(lo as int, i as int),
        decreases hi - i,
    {
        out.push(v[i]);
        i += 1;
    }
}

/// Moves past the whitespace that starts at `i`.
pub(crate) fn skip_spaces(v: &Vec<char>, i: usize) -> (j: usize)
    requires
        i <= v.len(),
    ensures
        j == spaces_end(v@, i as int),
        i <= j <= v.len(),
{
    let mut j: usize = i;
    while j < v.len() && is_whitespace(v[j])
        invariant
            i <= j <= v.len(),
            spaces_end(v@, i as int) == spaces_end(v@, j as int),
        decreases v.len() - j,
    {
        j += 1;
    }
    j
}

/// Moves past the word that starts at `i`.
pub(crate) fn skip_word(v: &Vec<char>, i: usize) -> (j: usize)
    requires
        i <= v.len(),
    ensures
        j == word_end(v@, i as int),
        i <= j <= v.len(),
{
    let mut j: usize = i;
    while j < v.len() && !is_whitespace(v[j])
        invariant
            i <= j <= v.len(),
            word_end(v@, i as int) == word_end(v@, j as int),
        decreases v.len() - j,
    {
        j += 1;
    }
    j
}

/// Moves back from `hi` over the whitespace that ends `v[lo..hi]`.
pub(crate) fn trim_back(v: &Vec<char>, lo: usize, hi: usize) -> (j: usize)
    requires
        lo <= hi <= v.len(),
    ensures
        j == text_end(v@, lo as int, hi as int),
        lo <= j <= hi,
{
    let mut j: usize = hi;
    while j > lo && is_whitespace(v[j - 1])
        invariant
            lo <= j <= hi <= v.len(),
            text_end(v@, lo as int, hi as int) == text_end(v@, lo as int, j as int),
        decreases j - lo,
    {
        j -= 1;
    }
    j
}

/// Whether `v[lo..hi]` spells exactly `word`.
pub(crate) fn word_is(v: &Vec<char>, lo: usize, hi: usize, word: &str) -> (r: bool)
    requires
        lo <= hi <= v.len(),
    ensures
        r == (v@.subrange(lo as int, hi as int) == word@),
{
    let w = chars_of(word);
    if w.len() != hi - lo {
        return false;
    }
    let mut i: usize = 0;
    while i < w.len()
        invariant
            lo <= hi <= v.len(),
            w.len() == hi - lo,
            i <= w.len(),
            w@ == word@,
            forall|k: int| 0 <= k < i ==> v@[lo + k] == w@[k],
        decreases w.len() - i,
    {
        if v[lo + i] != w[i] {
            assert(v@.subrange(lo as int, hi as int)[i as int] != word@[i as int]);
            return false;
        }
        i += 1;
    }
    assert(v@.subrange(lo as int, hi as int) =~= word@);
    true
}

/// Whether `v[lo..hi]` begins with `prefix`.
pub(crate) fn begins_with(v: &Vec<char>, lo: usize, hi: usize, prefix: &str) -> (r: bool)
    requires
        lo <= hi <= v.len(),
    ensures
        r == prefix@.is_prefix_of(v@.subrange(lo as int, hi as int)),
{
    let w = chars_of(prefix);
    if w.len() > hi - lo {
        return false;
    }
    let ghost t = v@.subrange(lo as int, hi as int);
    let mut i: usize = 0;
    while i < w.len()
        invariant
            lo <= hi <= v.len(),
            w.len() <= hi - lo,
            i <= w.len(),
            w@ == prefix@,
            t == v@.subrange(lo as int, hi as int),
            forall|k: int| 0 <= k < i ==> v@[lo + k] == w@[k],
        decreases w.len() - i,
    {
        if v[lo + i] != w[i] {
            assert(t.subrange(0, w.len() as int)[i as int] != prefix@[i as int]);
            return false;
        }
        i += 1;
    }
    assert(t.subrange(0, w.len() as int) =~= prefix@);
    true
}

/// `s` without its leading and trailing whitespace.
pub fn trim(s: &str) -> (r: String)
    ensures
        r@ == trimmed(s@),
{
    let v = chars_of(s);
    let lo = skip_spaces(&v, 0);
    let hi = trim_back(&v, lo, v.len());
    string_of(&v, lo, hi)
}

/// `n` in decimal.
pub fn decimal_string(n: usize) -> (s: String)
    ensures
        s@ == decimal(n as nat),
    decreases n,
{
    let d: u8 = (n % 10) as u8;
    let c: char = (48u8 + d) as char;
    if n < 10 {
        let mut s = String::new();
        s.push(c);
        assert(s@ =~= seq![digit(n as nat)]);
        s
    } else {
        let mut s = decimal_string(n / 10);
        s.push(c);
        s
    }
}

/// Whether two texts are the same.
pub fn same_text(a: &str, b: &str) -> (r: bool)
    ensures
        r == (a@ == b@),
{
    let v = chars_of(a);
    assert(v@.subrange(0, v.len() as int) =~= a@);
    word_is(&v, 0, v.len(), b)
}

} // verus!
