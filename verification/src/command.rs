//! The command grammar: from the raw text of a message to a keyword and a body.

use vstd::prelude::*;
use crate::text::{chars_of, is_space, leading, lemma_leading, scan, Class, COMMAND_PREFIX};

verus! {

/// `s` without the command prefixes at its front, however many there are.
pub open spec fn sanitized(s: Seq<char>) -> Seq<char> {
    s.skip(leading(s, Class::Marker) as int)
}

/// The first word of `s`: its longest run of non-separators after the leading
/// separators. `None` when `s` holds separators only.
pub open spec fn first_token(s: Seq<char>) -> Option<Seq<char>> {
    let rest = s.skip(leading(s, Class::Space) as int);
    let len = leading(rest, Class::Word);
    if len == 0 {
        None
    } else {
        Some(rest.take(len as int))
    }
}

/// Whether `needle` stands in `hay` at index `i`.
pub open spec fn occurs_at(hay: Seq<char>, needle: Seq<char>, i: int) -> bool {
    &&& 0 <= i
    &&& i + needle.len() <= hay.len()
    &&& hay.subrange(i, i + needle.len()) == needle
}

/// Whether `i` is the least index at which `needle` stands in `hay`.
pub open spec fn first_occurrence_at(hay: Seq<char>, needle: Seq<char>, i: int) -> bool {
    &&& occurs_at(hay, needle, i)
    &&& forall|j: int| 0 <= j < i ==> !occurs_at(hay, needle, j)
}

/// The least index at which `needle` stands in `hay`, if it stands there at all.
pub open spec fn find(hay: Seq<char>, needle: Seq<char>) -> Option<int> {
    if exists|i: int| first_occurrence_at(hay, needle, i) {
        Some(choose|i: int| first_occurrence_at(hay, needle, i))
    } else {
        None
    }
}

/// The keyword and the body of a line.
///
/// The prefixes at the front are dropped. The keyword is the first word of what
/// is left. The body is what follows the first place where the keyword stands,
/// again without prefixes at its front. A line without a word has neither.
pub open spec fn parsed(raw: Seq<char>) -> Option<(Seq<char>, Seq<char>)> {
    let text = sanitized(raw);
    match first_token(text) {
        None => None,
        Some(keyword) => match find(text, keyword) {
            None => None,
            Some(at) => Some((keyword, sanitized(text.skip(at + keyword.len())))),
        },
    }
}

/// Whether `s` holds nothing but separators.
pub open spec fn blank(s: Seq<char>) -> bool {
    forall|i: int| 0 <= i < s.len() ==> is_space(#[trigger] s[i])
}

/// The first word of a text is found first where the text's leading separators
/// end: the keyword never stands earlier than the word it was read from.
pub proof fn lemma_token_found_at_start(s: Seq<char>)
    requires
        first_token(s) is Some,
    ensures
        find(s, first_token(s)->0) == Some(leading(s, Class::Space) as int),
{
    let start = leading(s, Class::Space) as int;
    let rest = s.skip(start);
    let len = leading(rest, Class::Word) as int;
    let token = rest.take(len);
    lemma_leading(s, Class::Space);
    lemma_leading(rest, Class::Word);
    assert(s.subrange(start, start + len) =~= token);
    assert(occurs_at(s, token, start));
    assert(Class::Word.holds(rest[0]));
    assert(token[0] == rest[0]);
    assert forall|j: int| 0 <= j < start implies !occurs_at(s, token, j) by {
        if occurs_at(s, token, j) {
            assert(s.subrange(j, j + len)[0] == s[j]);
            assert(Class::Space.holds(s[j]));
        }
    }
    assert(first_occurrence_at(s, token, start));
    let found = choose|i: int| first_occurrence_at(s, token, i);
    if found < start {
        assert(!occurs_at(s, token, found));
    } else if start < found {
        assert(!occurs_at(s, token, start));
    }
}

/// A text has a first word exactly when it is not blank.
pub proof fn lemma_token_iff_not_blank(s: Seq<char>)
    ensures
        first_token(s) is None <==> blank(s),
{
    let start = leading(s, Class::Space) as int;
    let rest = s.skip(start);
    lemma_leading(s, Class::Space);
    lemma_leading(rest, Class::Word);
    if blank(s) {
        if start < s.len() {
            assert(is_space(s[start]));
        }
        assert(rest.len() == 0);
    } else {
        let i = choose|i: int| 0 <= i < s.len() && !is_space(#[trigger] s[i]);
        if start >= s.len() {
            assert(Class::Space.holds(s[i]));
        }
        assert(rest[0] == s[start]);
        assert(Class::Word.holds(rest[0]));
    }
}

/// Parsing fails exactly on the lines that are blank once their prefixes are dropped.
pub proof fn lemma_parsed_none_iff_blank(raw: Seq<char>)
    ensures
        parsed(raw) is None <==> blank(sanitized(raw)),
{
    let text = sanitized(raw);
    lemma_token_iff_not_blank(text);
    if first_token(text) is Some {
        lemma_token_found_at_start(text);
    }
}

/// What is read from a line, said outright: once the prefixes are dropped the
/// line is separators, then the keyword, then the body. The keyword is not empty
/// and holds no separator, and the body is empty or begins with one, so no
/// prefix is ever dropped from a body.
pub proof fn lemma_parsed_shape(raw: Seq<char>)
    requires
        parsed(raw) is Some,
    ensures
        ({
            let (keyword, body) = parsed(raw)->0;
            let text = sanitized(raw);
            let gap = leading(text, Class::Space) as int;
            &&& keyword.len() > 0
            &&& forall|i: int| 0 <= i < keyword.len() ==> !is_space(#[trigger] keyword[i])
            &&& blank(text.take(gap))
            &&& text == text.take(gap) + keyword + body
            &&& body.len() > 0 ==> is_space(body[0])
        }),
{
    let text = sanitized(raw);
    let gap = leading(text, Class::Space) as int;
    let rest = text.skip(gap);
    let len = leading(rest, Class::Word) as int;
    let keyword = rest.take(len);
    lemma_leading(text, Class::Space);
    lemma_leading(rest, Class::Word);
    lemma_token_found_at_start(text);
    let tail = text.skip(gap + len);
    assert(tail =~= rest.skip(len));
    if tail.len() > 0 {
        assert(tail[0] == rest[len]);
        assert(!Class::Marker.holds(tail[0]));
    }
    assert(leading(tail, Class::Marker) == 0);
    assert(sanitized(tail) =~= tail);
    assert(text =~= text.take(gap) + keyword + tail);
    assert forall|i: int| 0 <= i < keyword.len() implies !is_space(
        #[trigger] keyword[i],
    ) by {
        assert(Class::Word.holds(rest[i]));
    }
}

/// Dropping the prefixes twice drops no more than dropping them once.
pub proof fn lemma_sanitized_idempotent(s: Seq<char>)
    ensures
        sanitized(sanitized(s)) == sanitized(s),
{
    lemma_leading(s, Class::Marker);
    let t = sanitized(s);
    if t.len() > 0 {
        assert(t[0] == s[leading(s, Class::Marker) as int]);
    }
    assert(leading(t, Class::Marker) == 0);
    assert(t.skip(0) =~= t);
}

/// One more prefix at the front of a line changes nothing of what is read from it.
pub proof fn lemma_prefix_ignored(s: Seq<char>)
    ensures
        sanitized(seq![COMMAND_PREFIX] + s) == sanitized(s),
        parsed(seq![COMMAND_PREFIX] + s) == parsed(s),
{
    let t = seq![COMMAND_PREFIX] + s;
    assert(t.skip(1) =~= s);
    assert(t[0] == COMMAND_PREFIX);
    assert(leading(t, Class::Marker) == 1 + leading(s, Class::Marker));
    lemma_leading(s, Class::Marker);
    assert(t.skip(leading(t, Class::Marker) as int) =~= s.skip(leading(s, Class::Marker) as int));
}

/// The text without the command prefixes at its front.
pub fn sanitize<'a>(txt: &'a str) -> (out: &'a str)
    ensures
        out@ == sanitized(txt@),
{
    let chars = chars_of(txt);
    let start = scan(&chars, 0, Class::Marker);
    assert(chars@.skip(0) =~= chars@);
    let out = txt.substring_char(start, chars.len());
    assert(txt@.subrange(start as int, chars.len() as int) =~= txt@.skip(start as int));
    out
}

/// Splits a line into its keyword and its body; `None` where the line has no word.
pub fn parse_text<'a>(raw_txt: &'a str) -> (out: Option<(&'a str, &'a str)>)
    ensures
        match out {
            None => parsed(raw_txt@) is None,
            Some((keyword, body)) => parsed(raw_txt@) == Some((keyword@, body@)),
        },
{
    let chars = chars_of(raw_txt);
    let len = chars.len();
    let text_at = scan(&chars, 0, Class::Marker);
    let word_at = scan(&chars, text_at, Class::Space);
    let word_end = scan(&chars, word_at, Class::Word);
    let body_at = scan(&chars, word_end, Class::Marker);
    proof {
        let text = sanitized(raw_txt@);
        assert(chars@.skip(0) =~= chars@);
        assert(text == chars@.skip(text_at as int));
        let start = leading(text, Class::Space) as int;
        assert(text.skip(start) =~= chars@.skip(word_at as int));
        if word_end > word_at {
            let token = text.skip(start).take(word_end - word_at);
            assert(first_token(text) == Some(token));
            lemma_token_found_at_start(text);
            assert(token =~= raw_txt@.subrange(word_at as int, word_end as int));
            assert(text.skip(start + token.len()) =~= chars@.skip(word_end as int));
            assert(sanitized(text.skip(start + token.len())) =~= raw_txt@.subrange(
                body_at as int,
                len as int,
            ));
        }
    }
    if word_end == word_at {
        None
    } else {
        let keyword = raw_txt.substring_char(word_at, word_end);
        let body = raw_txt.substring_char(body_at, len);
        Some((keyword, body))
    }
}

} // verus!
