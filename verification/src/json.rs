//! JSON string literals: how a piece of text is written between double quotes.

use vstd::prelude::*;

verus! {

/// `String::push` appends one character and changes nothing else.
pub assume_specification[ String::push ](s: &mut String, ch: char)
    ensures
        final(s)@ == old(s)@.push(ch),
;

/// The hexadecimal digits, by value.
pub const HEX_DIGITS: &'static str = "0123456789abcdef";

/// The lower-case hexadecimal digit for a value below sixteen.
pub open spec fn hex_digit(n: int) -> char {
    HEX_DIGITS@[n]
}

/// Whether a character may stand for itself inside a JSON string literal.
pub open spec fn is_plain(c: char) -> bool {
    c != '"' && c != '\\' && (c as u32) >= 0x20
}

/// How one character is written inside a JSON string literal: the quote and
/// the backslash behind a backslash, the control characters by their short
/// escapes where JSON has one and as `\u00XX` otherwise, every other
/// character as itself.
pub open spec fn escaped_char(c: char) -> Seq<char> {
    if c == '"' {
        seq!['\\', '"']
    } else if c == '\\' {
        seq!['\\', '\\']
    } else if c == '\n' {
        seq!['\\', 'n']
    } else if c == '\r' {
        seq!['\\', 'r']
    } else if c == '\t' {
        seq!['\\', 't']
    } else if c == '\u{8}' {
        seq!['\\', 'b']
    } else if c == '\u{c}' {
        seq!['\\', 'f']
    } else if (c as u32) < 0x20 {
        seq!['\\', 'u', '0', '0', hex_digit((c as u32) as int / 16), hex_digit((c as u32) as int % 16)]
    } else {
        seq![c]
    }
}

/// The characters of `text`, each written as `escaped_char` says, in order.
pub open spec fn escaped(text: Seq<char>) -> Seq<char>
    decreases text.len(),
{
    if text.len() == 0 {
        Seq::empty()
    } else {
        escaped(text.drop_last()) + escaped_char(text.last())
    }
}

/// The JSON string literal for `text`: its escaped characters between two
/// double quotes.
pub open spec fn quoted(text: Seq<char>) -> Seq<char> {
    seq!['"'] + escaped(text) + seq!['"']
}

/// The value of a lower-case hexadecimal digit.
pub open spec fn hex_value(c: char) -> Option<int> {
    if '0' <= c && c <= '9' {
        Some(c as int - '0' as int)
    } else if 'a' <= c && c <= 'f' {
        Some(c as int - 'a' as int + 10)
    } else {
        None
    }
}

/// The character that stands behind the backslash of a short escape.
pub open spec fn short_escape(c: char) -> Option<char> {
    if c == '"' {
        Some('"')
    } else if c == '\\' {
        Some('\\')
    } else if c == 'n' {
        Some('\n')
    } else if c == 'r' {
        Some('\r')
    } else if c == 't' {
        Some('\t')
    } else if c == 'b' {
        Some('\u{8}')
    } else if c == 'f' {
        Some('\u{c}')
    } else {
        None
    }
}

/// `first` in front of what was read of the rest, where the rest could be
/// read.
pub open spec fn read_on(first: char, rest: Option<Seq<char>>) -> Option<Seq<char>> {
    match rest {
        Some(rest) => Some(seq![first] + rest),
        None => None,
    }
}

/// Reads escaped text back, from the front: a plain character as itself, a
/// short escape as the character it stands for, `\u00XX` as the control
/// character with that code. `None` where the text holds anything else.
pub open spec fn unescaped(text: Seq<char>) -> Option<Seq<char>>
    decreases text.len(),
{
    if text.len() == 0 {
        Some(Seq::empty())
    } else if text[0] != '\\' {
        if is_plain(text[0]) {
            read_on(text[0], unescaped(text.skip(1)))
        } else {
            None
        }
    } else if text.len() >= 2 && short_escape(text[1]) is Some {
        read_on(short_escape(text[1])->0, unescaped(text.skip(2)))
    } else if text.len() >= 6 && text[1] == 'u' && text[2] == '0' && text[3] == '0' && hex_value(
        text[4],
    ) is Some && hex_value(text[5]) is Some && 16 * hex_value(text[4])->0 + hex_value(text[5])->0
        < 0x20 {
        read_on(
            ((16 * hex_value(text[4])->0 + hex_value(text[5])->0) as u8) as char,
            unescaped(text.skip(6)),
        )
    } else {
        None
    }
}

/// Escaping goes character by character: the escaped form of a text is that
/// of its first character, then that of the rest.
pub proof fn lemma_escaped_from_the_front(first: char, rest: Seq<char>)
    ensures
        escaped(seq![first] + rest) == escaped_char(first) + escaped(rest),
    decreases rest.len(),
{
    let whole = seq![first] + rest;
    if rest.len() == 0 {
        assert(whole.drop_last() =~= rest);
        assert(whole.last() == first);
        assert(escaped(rest) =~= Seq::<char>::empty());
        assert(escaped(whole) =~= escaped_char(first) + escaped(rest));
    } else {
        assert(whole.drop_last() =~= seq![first] + rest.drop_last());
        assert(whole.last() == rest.last());
        lemma_escaped_from_the_front(first, rest.drop_last());
        assert(escaped(whole) =~= escaped_char(first) + escaped(rest));
    }
}

/// What `escaped_char` writes for a character is read back as that
/// character, whatever follows.
pub proof fn lemma_escaped_char_reads_back(c: char, tail: Seq<char>)
    ensures
        unescaped(escaped_char(c) + tail) == read_on(c, unescaped(tail)),
{
    let text = escaped_char(c) + tail;
    if c == '"' || c == '\\' || c == '\n' || c == '\r' || c == '\t' || c == '\u{8}' || c
        == '\u{c}' {
        assert(text.skip(2) =~= tail);
    } else if (c as u32) < 0x20 {
        let code = (c as u32) as int;
        reveal_strlit("0123456789abcdef");
        assert(text.skip(6) =~= tail);
        assert(text[1] == 'u');
        assert(short_escape('u') is None);
        assert(hex_value(hex_digit(code / 16)) == Some(code / 16));
        assert(hex_value(hex_digit(code % 16)) == Some(code % 16));
        assert(16 * (code / 16) + code % 16 == code);
        assert((code as u8) as char == c);
    } else {
        assert(text.skip(1) =~= tail);
    }
}

/// Escaping loses nothing: every text is read back from its escaped form.
pub proof fn lemma_escaped_reads_back(text: Seq<char>)
    ensures
        unescaped(escaped(text)) == Some(text),
    decreases text.len(),
{
    if text.len() == 0 {
    } else {
        let first = text[0];
        let rest = text.skip(1);
        assert(text =~= seq![first] + rest);
        lemma_escaped_from_the_front(first, rest);
        lemma_escaped_char_reads_back(first, escaped(rest));
        lemma_escaped_reads_back(rest);
    }
}

/// Two texts with the same literal are the same text.
pub proof fn lemma_quoted_tells_text(first: Seq<char>, second: Seq<char>)
    requires
        quoted(first) == quoted(second),
    ensures
        first == second,
{
    let a = quoted(first);
    let b = quoted(second);
    assert(escaped(first) =~= a.subrange(1, a.len() - 1));
    assert(escaped(second) =~= b.subrange(1, b.len() - 1));
    lemma_escaped_reads_back(first);
    lemma_escaped_reads_back(second);
}

/// The hexadecimal digit for `n`.
fn hex(n: u32) -> (c: char)
    requires
        n < 16,
    ensures
        c == hex_digit(n as int),
{
    proof {
        reveal_strlit("0123456789abcdef");
    }
    HEX_DIGITS.get_char(n as usize)
}

/// Appends to `out` the way `c` is written inside a JSON string literal.
fn push_escaped(out: &mut String, c: char)
    ensures
        final(out)@ == old(out)@ + escaped_char(c),
{
    if c == '"' {
        out.push('\\');
        out.push('"');
    } else if c == '\\' {
        out.push('\\');
        out.push('\\');
    } else if c == '\n' {
        out.push('\\');
        out.push('n');
    } else if c == '\r' {
        out.push('\\');
        out.push('r');
    } else if c == '\t' {
        out.push('\\');
        out.push('t');
    } else if c == '\u{8}' {
        out.push('\\');
        out.push('b');
    } else if c == '\u{c}' {
        out.push('\\');
        out.push('f');
    } else if (c as u32) < 0x20 {
        let code: u32 = c as u32;
        out.push('\\');
        out.push('u');
        out.push('0');
        out.push('0');
        out.push(hex(code / 16));
        out.push(hex(code % 16));
    } else {
        out.push(c);
    }
    assert(out@ =~= old(out)@ + escaped_char(c));
}

/// Writes `text` as a JSON string literal.
pub fn quote(text: &str) -> (literal: String)
    ensures
        literal@ == quoted(text@),
{
    let mut out = String::new();
    out.push('"');
    for c in it: text.chars()
        invariant
            it.seq() == text@,
            out@ == seq!['"'] + escaped(text@.take(it.index())),
    {
        proof {
            let before = text@.take(it.index());
            let after = text@.take(it.index() + 1);
            assert(after.drop_last() =~= before);
            assert(after.last() == c);
        }
        push_escaped(&mut out, c);
    }
    assert(text@.take(text@.len() as int) =~= text@);
    out.push('"');
    out
}

} // verus!
