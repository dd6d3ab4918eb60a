//! Operations on text that the rules of this crate are stated with.

use crate::model::lemma_push_deep_view;
use vstd::prelude::*;
use vstd::string::*;
use vstd::utf8::*;

verus! {

/// Whether two pieces of text hold the same characters.
pub fn text_eq(a: &str, b: &str) -> (r: bool)
    ensures
        r == (a@ == b@),
{
    let x = a.as_bytes();
    let y = b.as_bytes();
    proof {
        // Text is determined by its encoding.
        encode_utf8_decode_utf8(a@);
        encode_utf8_decode_utf8(b@);
    }
    if x.len() != y.len() {
        return false;
    }
    let mut i: usize = 0;
    while i < x.len()
        invariant
            i <= x.len(),
            x.len() == y.len(),
            x@ == a.spec_bytes(),
            y@ == b.spec_bytes(),
            forall|j: int| 0 <= j < i ==> x@[j] == y@[j],
        decreases x.len() - i,
    {
        if x[i] != y[i] {
            return false;
        }
        i += 1;
    }
    assert(x@ =~= y@);
    true
}

/// The characters of a piece of text, one by one.
pub fn to_chars(s: &str) -> (r: Vec<char>)
    ensures
        r@ == s@,
{
    broadcast use vstd::string::group_string_axioms;

    let mut out: Vec<char> = Vec::new();
    for c in it: s.chars()
        invariant
            it.seq() == s@,
            out@ == s@.take(it.index()),
    {
        out.push(c);
    }
    out
}

/// `needle` stands in `hay` from place `at` on.
pub open spec fn occurs_at(hay: Seq<char>, needle: Seq<char>, at: int) -> bool {
    0 <= at && at + needle.len() <= hay.len() && hay.subrange(at, at + needle.len()) == needle
}

/// `needle` stands somewhere in `hay`.
pub open spec fn contains_text(hay: Seq<char>, needle: Seq<char>) -> bool {
    exists|at: int| occurs_at(hay, needle, at)
}

/// Whether `needle` stands in `hay` from place `at` on.
fn matches_at(hay: &Vec<char>, needle: &Vec<char>, at: usize) -> (r: bool)
    requires
        at + needle.len() <= hay.len(),
    ensures
        r == occurs_at(hay@, needle@, at as int),
{
    let mut k: usize = 0;
    while k < needle.len()
        invariant
            k <= needle.len(),
            at + needle.len() <= hay.len(),
            forall|j: int| 0 <= j < k ==> hay@[at + j] == needle@[j],
        decreases needle.len() - k,
    {
        if hay[at + k] != needle[k] {
            return false;
        }
        k += 1;
    }
    assert(hay@.subrange(at as int, at + needle.len()) =~= needle@);
    true
}

/// Whether `needle` stands somewhere in `hay`.
pub fn text_contains(hay: &str, needle: &str) -> (r: bool)
    ensures
        r == contains_text(hay@, needle@),
{
    let h = to_chars(hay);
    let n = to_chars(needle);
    if n.len() == 0 {
        assert(hay@.subrange(0, 0) =~= needle@);
        assert(occurs_at(hay@, needle@, 0));
        return true;
    }
    let mut at: usize = 0;
    while at <= h.len() && h.len() - at >= n.len()
        invariant
            at <= h.len(),
            n.len() >= 1,
            h@ == hay@,
            n@ == needle@,
            forall|j: int| 0 <= j < at ==> !occurs_at(hay@, needle@, j),
        decreases h.len() - at,
    {
        if matches_at(&h, &n, at) {
            return true;
        }
        at += 1;
    }
    false
}

/// The characters that separate words: space, tab, line feed, form feed and
/// carriage return.
pub open spec fn is_blank(c: char) -> bool {
    c == ' ' || c == '\t' || c == '\n' || c == '\u{c}' || c == '\r'
}

/// The word `current`, where it has a character.
pub open spec fn finished(current: Seq<char>) -> Seq<Seq<char>> {
    if current.len() > 0 {
        seq![current]
    } else {
        Seq::empty()
    }
}

/// The words of `current` followed by `s`, where `current` holds the
/// characters of a word that has begun.
pub open spec fn words_from(s: Seq<char>, current: Seq<char>) -> Seq<Seq<char>>
    decreases s.len(),
{
    if s.len() == 0 {
        finished(current)
    } else if is_blank(s[0]) {
        finished(current) + words_from(s.drop_first(), Seq::empty())
    } else {
        words_from(s.drop_first(), current.push(s[0]))
    }
}

/// The words of a piece of text: its longest runs of characters that are not
/// blank, in their order.
pub open spec fn words(s: Seq<char>) -> Seq<Seq<char>> {
    words_from(s, Seq::empty())
}

/// `word` has a character, and none of its characters is blank.
pub open spec fn is_word(word: Seq<char>) -> bool {
    word.len() > 0 && forall|j: int| 0 <= j < word.len() ==> !is_blank(#[trigger] word[j])
}

/// Every item of [`words`] is a word: none is empty and none holds a blank
/// character.
pub proof fn lemma_words_are_words(s: Seq<char>)
    ensures
        forall|i: int| 0 <= i < words(s).len() ==> is_word(#[trigger] words(s)[i]),
{
    lemma_words_from_are_words(s, Seq::empty());
}

/// The same of the words that follow a word that has begun.
proof fn lemma_words_from_are_words(s: Seq<char>, current: Seq<char>)
    requires
        forall|j: int| 0 <= j < current.len() ==> !is_blank(#[trigger] current[j]),
    ensures
        forall|i: int|
            0 <= i < words_from(s, current).len() ==> is_word(#[trigger] words_from(s, current)[i]),
    decreases s.len(),
{
    if s.len() == 0 {
    } else if is_blank(s[0]) {
        // The word that has begun ends here; the words after it are those
        // of the rest.
        let later = words_from(s.drop_first(), Seq::empty());
        lemma_words_from_are_words(s.drop_first(), Seq::empty());
        assert forall|i: int| 0 <= i < words_from(s, current).len() implies is_word(
            #[trigger] words_from(s, current)[i],
        ) by {
            if i >= finished(current).len() {
                assert(words_from(s, current)[i] == later[i - finished(current).len()]);
            }
        }
    } else {
        // The word that has begun grows by one character.
        let longer = current.push(s[0]);
        lemma_words_from_are_words(s.drop_first(), longer);
        assert(words_from(s, current) == words_from(s.drop_first(), longer));
    }
}

/// Whether a character separates words.
pub fn blank(c: char) -> (r: bool)
    ensures
        r == is_blank(c),
{
    c == ' ' || c == '\t' || c == '\n' || c == '\u{c}' || c == '\r'
}

/// Splits a piece of text into its words.
pub fn split_words(text: &str) -> (r: Vec<String>)
    ensures
        r.deep_view() == words(text@),
{
    let chars = to_chars(text);
    let n = chars.len();
    let mut out: Vec<String> = Vec::new();
    // The word that has begun holds the characters from `start` to `i`.
    let mut start: usize = 0;
    let mut i: usize = 0;
    proof {
        assert(text@.skip(0) =~= text@);
        assert(text@.subrange(0, 0) =~= Seq::<char>::empty());
    }
    while i < n
        invariant
            start <= i <= n,
            n == text@.len(),
            chars@ == text@,
            forall|j: int| start <= j < i ==> !is_blank(text@[j]),
            out.deep_view() + words_from(text@.skip(i as int), text@.subrange(start as int, i as int))
                == words(text@),
        decreases n - i,
    {
        let ghost current = text@.subrange(start as int, i as int);
        proof {
            assert(text@.skip(i as int).drop_first() =~= text@.skip(i + 1));
        }
        if blank(chars[i]) {
            if start < i {
                let word = String::from_str(text.substring_char(start, i));
                proof {
                    lemma_push_deep_view(out, word);
                }
                out.push(word);
            }
            start = i + 1;
            proof {
                assert(text@.subrange(start as int, i + 1) =~= Seq::<char>::empty());
            }
        } else {
            proof {
                assert(text@.subrange(start as int, i + 1) =~= current.push(text@[i as int]));
            }
        }
        i += 1;
    }
    if start < n {
        let word = String::from_str(text.substring_char(start, n));
        proof {
            lemma_push_deep_view(out, word);
        }
        out.push(word);
    }
    out
}

/// Reads bytes as UTF-8 text. Calls `String::from_utf8`, which gives the
/// text that the bytes encode where they are well-formed UTF-8, and an error
/// where they are not.
#[verifier::external_body]
pub(crate) fn text_from_utf8(bytes: Vec<u8>) -> (r: Option<String>)
    ensures
        r is Some <==> valid_utf8(bytes@),
        r matches Some(text) ==> text@ == decode_utf8(bytes@),
{
    match String::from_utf8(bytes) {
        Ok(text) => Some(text),
        Err(_) => None,
    }
}

/// The text that `bytes` encode, or `fallback` where they encode none.
pub open spec fn text_or(bytes: Seq<u8>, fallback: Seq<char>) -> Seq<char> {
    if valid_utf8(bytes) {
        decode_utf8(bytes)
    } else {
        fallback
    }
}

/// Reads bytes as UTF-8 text and gives `fallback` where they are none.
pub fn decode_or(bytes: Vec<u8>, fallback: &str) -> (r: String)
    ensures
        r@ == text_or(bytes@, fallback@),
{
    match text_from_utf8(bytes) {
        Some(text) => text,
        None => String::from_str(fallback),
    }
}

} // verus!
