//! Normalisation of the raw active-preset list.
//!
//! The preset list arrives as one string of whitespace-separated names.
//! Before any lookup the names are case-normalised (ASCII letters are
//! folded to lower case) and the string is split on ASCII whitespace.

use vstd::prelude::*;
use vstd::string::*;

verus! {

/// The characters that separate preset names.
pub open spec fn is_ws(c: char) -> bool {
    c == ' ' || c == '\t' || c == '\n' || c == '\r'
}

/// ASCII case folding of one character.
pub open spec fn lower_char(c: char) -> char {
    if 65 <= c as u32 && c as u32 <= 90 {
        (c as u32 + 32) as char
    } else {
        c
    }
}

/// ASCII case folding of a string.
pub open spec fn lower_seq(s: Seq<char>) -> Seq<char> {
    s.map_values(|c: char| lower_char(c))
}

/// The words of `s` from position `i` on, with `cur` the partial word
/// read so far: the maximal runs of non-whitespace characters, in order.
pub open spec fn words_acc(s: Seq<char>, i: int, cur: Seq<char>) -> Seq<Seq<char>>
    decreases s.len() - i,
{
    if i < 0 || i >= s.len() {
        if cur.len() == 0 {
            Seq::empty()
        } else {
            seq![cur]
        }
    } else if is_ws(s[i]) {
        if cur.len() == 0 {
            words_acc(s, i + 1, Seq::empty())
        } else {
            seq![cur] + words_acc(s, i + 1, Seq::empty())
        }
    } else {
        words_acc(s, i + 1, cur.push(s[i]))
    }
}

/// The whitespace-separated words of a string, in order.
pub open spec fn split_words(s: Seq<char>) -> Seq<Seq<char>> {
    words_acc(s, 0, Seq::empty())
}

/// The active preset names denoted by a raw preset-list argument:
/// case-folded, split on whitespace, in the order listed. An absent
/// argument activates no presets.
pub open spec fn active_presets_of(raw: Option<Seq<char>>) -> Seq<Seq<char>> {
    match raw {
        Some(s) => split_words(lower_seq(s)),
        None => Seq::empty(),
    }
}

/// Relies on `char::from_u32`: yields the character with the given
/// scalar value, and `None` exactly on surrogates and values past the
/// last code point.
#[verifier::external_body]
fn char_from_u32(u: u32) -> (r: Option<char>)
    ensures
        r is Some <==> (u < 0xD800 || (0xE000 <= u && u <= 0x10FFFF)),
        r is Some ==> r.unwrap() as u32 == u,
{
    char::from_u32(u)
}

/// Relies on `String::push`: appends one character.
#[verifier::external_body]
fn push_char(s: &mut String, c: char)
    ensures
        final(s)@ == old(s)@.push(c),
{
    s.push(c)
}

/// ASCII case folding of one character.
fn lower_char_exec(c: char) -> (r: char)
    ensures
        r == lower_char(c),
{
    let u = c as u32;
    if 65 <= u && u <= 90 {
        match char_from_u32(u + 32) {
            Some(l) => {
                proof {
                    vstd::utf8::char_u32_cast(l, (u + 32) as u32);
                }
                l
            },
            None => {
                assert(false);
                c
            },
        }
    } else {
        c
    }
}

/// Whether a character separates preset names.
fn is_ws_exec(c: char) -> (r: bool)
    ensures
        r == is_ws(c),
{
    c == ' ' || c == '\t' || c == '\n' || c == '\r'
}

/// Splits a raw preset-list string into the active preset names:
/// case-folded and taken between runs of whitespace, in the order
/// listed. Names are not deduplicated and not checked against any
/// registry.
pub fn parse_active_presets(raw: &str) -> (r: Vec<String>)
    ensures
        r.deep_view() == split_words(lower_seq(raw@)),
{
    let ghost l = lower_seq(raw@);
    let n = raw.unicode_len();
    let mut words: Vec<String> = Vec::new();
    let mut cur: String = String::new();
    let mut i: usize = 0;
    assert(words.deep_view() + words_acc(l, 0, cur@) =~= words_acc(l, 0, Seq::empty()));
    while i < n
        invariant
            n == raw@.len(),
            l == lower_seq(raw@),
            i <= n,
            split_words(l) == words.deep_view() + words_acc(l, i as int, cur@),
        decreases n - i,
    {
        let c = lower_char_exec(raw.get_char(i));
        assert(c == l[i as int]);
        if is_ws_exec(c) {
            if !cur.as_str().is_empty() {
                let ghost old_words = words.deep_view();
                let ghost finished = cur@;
                words.push(cur);
                assert(words.deep_view() =~= old_words.push(finished));
                cur = String::new();
                assert(old_words.push(finished) + words_acc(l, i + 1, Seq::empty()) =~= old_words
                    + (seq![finished] + words_acc(l, i + 1, Seq::empty())));
            } else {
                assert(cur@ =~= Seq::<char>::empty());
            }
        } else {
            let ghost old_cur = cur@;
            push_char(&mut cur, c);
            assert(cur@ == old_cur.push(l[i as int]));
        }
        i = i + 1;
    }
    if !cur.as_str().is_empty() {
        let ghost old_words = words.deep_view();
        let ghost finished = cur@;
        words.push(cur);
        assert(words.deep_view() =~= old_words.push(finished));
        assert(old_words.push(finished) =~= old_words + seq![finished]);
    }
    assert(words.deep_view() =~= split_words(lower_seq(raw@)));
    words
}

/// Whether two strings hold the same characters.
pub fn str_eq(a: &str, b: &str) -> (r: bool)
    ensures
        r == (a@ == b@),
{
    let na = a.unicode_len();
    let nb = b.unicode_len();
    if na != nb {
        return false;
    }
    let mut i: usize = 0;
    while i < na
        invariant
            na == a@.len(),
            na == b@.len(),
            i <= na,
            forall|j: int| 0 <= j < i ==> a@[j] == b@[j],
        decreases na - i,
    {
        if a.get_char(i) != b.get_char(i) {
            return false;
        }
        i = i + 1;
    }
    assert(a@ =~= b@);
    true
}

} // verus!
