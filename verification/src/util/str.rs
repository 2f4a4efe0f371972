//! String manipulation helper functions.

use std::borrow::Cow;

use vstd::prelude::*;

verus! {

/// Whether a character has to be escaped inside a quoted string of an HTTP header.
pub open spec fn needs_escape(ch: char) -> bool {
    ch == '\\' || ch == '"'
}

/// One character as it appears inside the quoted string.
pub open spec fn escaped_char(ch: char) -> Seq<char> {
    if needs_escape(ch) {
        seq!['\\', ch]
    } else {
        seq![ch]
    }
}

/// Text as it appears inside the quoted string: its characters, escaped one by one.
pub open spec fn escaped(text: Seq<char>) -> Seq<char>
    decreases text.len(),
{
    if text.len() == 0 {
        Seq::empty()
    } else {
        escaped(text.drop_last()) + escaped_char(text.last())
    }
}

/// Text read back out of a quoted string: a backslash stands for the character after it.
pub open spec fn unescaped(text: Seq<char>) -> Seq<char>
    decreases text.len(),
{
    if text.len() == 0 {
        Seq::empty()
    } else if text[0] == '\\' && text.len() > 1 {
        seq![text[1]] + unescaped(text.skip(2))
    } else {
        seq![text[0]] + unescaped(text.skip(1))
    }
}

/// Where a reader finds the closing quote of a quoted string, having read the opening one.
pub open spec fn closing_quote(text: Seq<char>) -> Option<nat>
    decreases text.len(),
{
    if text.len() == 0 {
        None
    } else if text[0] == '"' {
        Some(0)
    } else {
        let step: nat = if text[0] == '\\' && text.len() > 1 {
            2
        } else {
            1
        };
        match closing_quote(text.skip(step as int)) {
            Some(index) => Some(index + step),
            None => None,
        }
    }
}

/// `PartialEq::eq` of string slices tells if they consist of the same characters.
#[verifier::external_body]
pub(crate) fn same_text(left: &str, right: &str) -> (res: bool)
    ensures
        res == (left@ == right@),
{
    left == right
}

/// Appends a character to the end of the string, as [`String::push`] documents it.
pub assume_specification[ String::push ](s: &mut String, ch: char)
    ensures
        final(s)@ == old(s)@.push(ch),
;

/// Put one piece of text after another.
pub fn joined(prefix: &str, suffix: &str) -> (text: String)
    ensures
        text@ == prefix@ + suffix@,
{
    let mut text: String = prefix.to_owned();
    text.append(suffix);
    text
}

/// View of an optional string.
pub open spec fn opt_text(text: Option<String>) -> Option<Seq<char>> {
    match text {
        Some(text) => Some(text@),
        None => None,
    }
}

/// View of an optional string slice.
pub open spec fn opt_slice(text: Option<&str>) -> Option<Seq<char>> {
    match text {
        Some(text) => Some(text@),
        None => None,
    }
}

/// Borrow an optional string as a slice.
pub fn as_slice(text: &Option<String>) -> (res: Option<&str>)
    ensures
        opt_slice(res) == opt_text(*text),
{
    match text {
        Some(text) => Some(text.as_str()),
        None => None,
    }
}

/// Copy an optional string.
pub fn copied(text: &Option<String>) -> (res: Option<String>)
    ensures
        opt_text(res) == opt_text(*text),
{
    match text {
        Some(text) => Some(text.clone()),
        None => None,
    }
}

/// Escape text for use as a quoted string inside HTTP headers.
///
/// The input is handed back as it is when nothing in it has to be escaped.
pub fn escape_http_quoted<'a>(input: &'a str) -> (output: Cow<'a, str>)
    ensures
        output@ == escaped(input@),
        output is Borrowed <==> forall|i: int| 0 <= i < input@.len() ==> !needs_escape(input@[i]),
{
    let mut found: bool = false;
    for ch in chars: input.chars()
        invariant
            chars.seq() == input@,
            found <==> exists|i: int| 0 <= i < chars.index() && needs_escape(input@[i]),
    {
        if ch == '\\' || ch == '"' {
            found = true;
        }
    }
    if !found {
        proof {
            lemma_nothing_to_escape(input@);
        }
        return Cow::Borrowed(input);
    }
    let mut output = String::new();
    for ch in chars: input.chars()
        invariant
            chars.seq() == input@,
            output@ == escaped(input@.take(chars.index() as int)),
    {
        proof {
            let done = input@.take(chars.index() as int + 1);
            assert(done.drop_last() == input@.take(chars.index() as int));
            assert(done.last() == ch);
        }
        if ch == '\\' || ch == '"' {
            output.push('\\');
        }
        output.push(ch);
    }
    proof {
        assert(input@.take(input@.len() as int) == input@);
    }
    Cow::Owned(output)
}

/// Text without backslashes and quotes is not changed by escaping.
pub proof fn lemma_nothing_to_escape(text: Seq<char>)
    requires
        forall|i: int| 0 <= i < text.len() ==> !needs_escape(text[i]),
    ensures
        escaped(text) == text,
    decreases text.len(),
{
    if text.len() > 0 {
        lemma_nothing_to_escape(text.drop_last());
    }
}

/// Escaping takes characters from the front as it does from the back.
proof fn lemma_escaped_front(text: Seq<char>)
    requires
        text.len() > 0,
    ensures
        escaped(text) == escaped_char(text[0]) + escaped(text.skip(1)),
    decreases text.len(),
{
    if text.len() == 1 {
        assert(text.drop_last() == Seq::<char>::empty());
        assert(text.skip(1) == Seq::<char>::empty());
    } else {
        lemma_escaped_front(text.drop_last());
        assert(text.drop_last().skip(1) == text.skip(1).drop_last());
    }
}

/// A reader of the quoted string gets back the text that was escaped.
pub proof fn lemma_unescape_escaped(text: Seq<char>)
    ensures
        unescaped(escaped(text)) == text,
    decreases text.len(),
{
    if text.len() > 0 {
        lemma_escaped_front(text);
        lemma_unescape_escaped(text.skip(1));
        let all = escaped(text);
        let rest = escaped(text.skip(1));
        if needs_escape(text[0]) {
            assert(all.skip(2) == rest);
        } else {
            assert(all.skip(1) == rest);
        }
        assert(seq![text[0]] + text.skip(1) == text);
    }
}

/// Two texts that are escaped alike are the same text.
pub proof fn lemma_escaped_injective(left: Seq<char>, right: Seq<char>)
    requires
        escaped(left) == escaped(right),
    ensures
        left == right,
{
    lemma_unescape_escaped(left);
    lemma_unescape_escaped(right);
}

/// A reader of the quoted string finds its closing quote right behind the escaped text, whatever
/// the text is and whatever comes after the quote.
pub proof fn lemma_stays_quoted(text: Seq<char>, rest: Seq<char>)
    ensures
        closing_quote(escaped(text) + seq!['"'] + rest) == Some(escaped(text).len()),
    decreases text.len(),
{
    let whole = escaped(text) + seq!['"'] + rest;
    if text.len() == 0 {
        assert(whole[0] == '"');
    } else {
        lemma_escaped_front(text);
        lemma_stays_quoted(text.skip(1), rest);
        let tail = escaped(text.skip(1)) + seq!['"'] + rest;
        if needs_escape(text[0]) {
            assert(whole[0] == '\\');
            assert(whole.skip(2) == tail);
        } else {
            assert(whole[0] == text[0]);
            assert(whole.skip(1) == tail);
        }
    }
}

/// Two texts hold two other ones in the same way: each of them is one and the same piece of text,
/// followed by what it holds.
pub open spec fn framed_alike(
    left: Seq<char>,
    held_left: Seq<char>,
    right: Seq<char>,
    held_right: Seq<char>,
) -> bool {
    exists|frame: Seq<char>| left == #[trigger] (frame + held_left) && right == frame + held_right
}

/// Texts that begin alike hold what comes after that in the same way.
pub(crate) proof fn lemma_framed_alike(
    frame: Seq<char>,
    held_left: Seq<char>,
    held_right: Seq<char>,
)
    ensures
        framed_alike(frame + held_left, held_left, frame + held_right, held_right),
{
}

/// Escaping adds one character for every backslash and for every quote, and none for any other
/// character.
pub proof fn lemma_escaped_length(text: Seq<char>)
    ensures
        escaped(text).len() == text.len() + text.filter(|ch: char| ch == '\\' || ch == '"').len(),
    decreases text.len(),
{
    reveal(Seq::filter);
    if text.len() > 0 {
        lemma_escaped_length(text.drop_last());
    }
}

/// Escaping goes character by character: what a piece of text becomes does not depend on what is
/// around it.
pub proof fn lemma_escaped_pieces(left: Seq<char>, right: Seq<char>)
    ensures
        escaped(left + right) == escaped(left) + escaped(right),
    decreases right.len(),
{
    if right.len() == 0 {
        assert(left + right == left);
    } else {
        assert((left + right).drop_last() == left + right.drop_last());
        lemma_escaped_pieces(left, right.drop_last());
    }
}

/// Text is handed back as it is if and only if there is no backslash and no quote in it.
pub proof fn lemma_unchanged(text: Seq<char>)
    ensures
        escaped(text) == text <==> !text.contains('\\') && !text.contains('"'),
{
    lemma_escaped_length(text);
    let special = |ch: char| ch == '\\' || ch == '"';
    let found = text.filter(special);
    if text.contains('\\') || text.contains('"') {
        let ch = if text.contains('\\') {
            '\\'
        } else {
            '"'
        };
        let i = text.index_of(ch);
        assert(special(text[i]));
        text.lemma_filter_contains(special, i);
        assert(found.contains(text[i]));
        assert(found.len() > 0);
    } else {
        assert forall|i: int| 0 <= i < text.len() implies !needs_escape(text[i]) by {
            assert(text.contains(text[i]));
        }
        lemma_nothing_to_escape(text);
    }
}

/// Views of optional strings, and their copies, are there if and only if the strings are, and
/// consist of the same characters.
pub proof fn lemma_optional(
    text: Option<String>,
    slice: Option<&str>,
    copy: Option<String>,
    borrowed: Option<&str>,
)
    requires
        call_ensures(copied, (&text,), copy),
        call_ensures(as_slice, (&text,), borrowed),
    ensures
        opt_text(text) is Some <==> text is Some,
        text is Some ==> opt_text(text)->0 == text->0@,
        opt_slice(slice) is Some <==> slice is Some,
        slice is Some ==> opt_slice(slice)->0 == slice->0@,
        copy is Some <==> text is Some,
        copy is Some ==> copy->0@ == text->0@,
        borrowed is Some <==> text is Some,
        borrowed is Some ==> borrowed->0@ == text->0@,
{
}

} // verus!
