//! Text carried inside a single-quoted string literal of a script.
//!
//! [`escape`] rewrites arbitrary text so that it can stand between two single
//! quotes in script source. [`read_literal`] is the mathematical account of how
//! a script engine reads such a literal back; [`lemma_escaped_reads_back`]
//! proves that the two agree for every text.

use vstd::prelude::*;

verus! {

/// Digit of base sixteen, in lower case, for a value below sixteen; `'f'` for
/// any other value.
pub open spec fn hex_digit_of(n: int) -> char {
    if n == 0 {
        '0'
    } else if n == 1 {
        '1'
    } else if n == 2 {
        '2'
    } else if n == 3 {
        '3'
    } else if n == 4 {
        '4'
    } else if n == 5 {
        '5'
    } else if n == 6 {
        '6'
    } else if n == 7 {
        '7'
    } else if n == 8 {
        '8'
    } else if n == 9 {
        '9'
    } else if n == 10 {
        'a'
    } else if n == 11 {
        'b'
    } else if n == 12 {
        'c'
    } else if n == 13 {
        'd'
    } else if n == 14 {
        'e'
    } else {
        'f'
    }
}

/// Value of a digit of base sixteen, in either case; `None` for any other
/// character.
pub open spec fn hex_value(c: char) -> Option<int> {
    if '0' <= c && c <= '9' {
        Some(c as int - '0' as int)
    } else if 'a' <= c && c <= 'f' {
        Some(c as int - 'a' as int + 10)
    } else if 'A' <= c && c <= 'F' {
        Some(c as int - 'A' as int + 10)
    } else {
        None
    }
}

/// Whether a code is that of a character: at most `0x10FFFF` and no surrogate.
pub open spec fn is_char_code(code: int) -> bool {
    0 <= code <= 0xD7FF || 0xE000 <= code <= 0x10FFFF
}

/// Whether `c` ends a line of script source.
pub open spec fn is_line_terminator(c: char) -> bool {
    c == '\n' || c == '\r' || c == '\u{2028}' || c == '\u{2029}'
}

/// Whether `c` is written by its code, as a backslash, `u` and four digits.
///
/// These are the control characters below the space and the two separators
/// that end a line. All of them have a code below `0x10000`.
pub open spec fn is_coded(c: char) -> bool {
    (c as int) < 0x20 || c == '\u{2028}' || c == '\u{2029}'
}

/// Whether `c` stands for itself inside the literal.
pub open spec fn is_plain(c: char) -> bool {
    c != '\'' && c != '\\' && !is_coded(c)
}

/// The six characters that denote `c` by its code.
pub open spec fn code_escape(c: char) -> Seq<char> {
    seq![
        '\\',
        'u',
        hex_digit_of((c as int / 0x1000) % 16),
        hex_digit_of((c as int / 0x100) % 16),
        hex_digit_of((c as int / 0x10) % 16),
        hex_digit_of(c as int % 16),
    ]
}

/// What is written for one character of the text.
pub open spec fn escape_of(c: char) -> Seq<char> {
    if c == '\\' || c == '\'' {
        seq!['\\', c]
    } else if is_coded(c) {
        code_escape(c)
    } else {
        seq![c]
    }
}

/// What is written for a whole text: the escapes of its characters, in order.
pub open spec fn escaped(text: Seq<char>) -> Seq<char>
    decreases text.len(),
{
    if text.len() == 0 {
        Seq::empty()
    } else {
        escape_of(text[0]) + escaped(text.drop_first())
    }
}

/// How an engine reads the escape sequence whose backslash stands at `at`:
/// the character it denotes and the index just behind the sequence.
///
/// Only the forms that [`escape_of`] writes are read; any other is `None`.
pub open spec fn read_escape(src: Seq<char>, at: int) -> Option<(char, int)> {
    if at + 1 >= src.len() {
        None
    } else if src[at + 1] == '\\' || src[at + 1] == '\'' {
        Some((src[at + 1], at + 2))
    } else if src[at + 1] == 'u' && at + 5 < src.len() {
        match (
            hex_value(src[at + 2]),
            hex_value(src[at + 3]),
            hex_value(src[at + 4]),
            hex_value(src[at + 5]),
        ) {
            (Some(d3), Some(d2), Some(d1), Some(d0)) => {
                let code = ((d3 * 16 + d2) * 16 + d1) * 16 + d0;
                if is_char_code(code) {
                    Some((code as char, at + 6))
                } else {
                    None
                }
            },
            _ => None,
        }
    } else {
        None
    }
}

/// How an engine reads a single-quoted string literal whose body starts at
/// index `at` of `src`, just behind the opening quote: the text that the
/// literal denotes and the index of the quote that closes it.
///
/// `None` where the literal is cut short by the end of the source or by a
/// line terminator, or holds an escape sequence that [`read_escape`] does not
/// read.
pub open spec fn read_literal(src: Seq<char>, at: int) -> Option<(Seq<char>, int)>
    decreases src.len() - at,
{
    if at < 0 || at >= src.len() {
        None
    } else if src[at] == '\'' {
        Some((Seq::empty(), at))
    } else if src[at] == '\\' {
        match read_escape(src, at) {
            Some((c, next)) => match read_literal(src, next) {
                Some((rest, end)) => Some((seq![c] + rest, end)),
                None => None,
            },
            None => None,
        }
    } else if is_plain(src[at]) {
        match read_literal(src, at + 1) {
            Some((rest, end)) => Some((seq![src[at]] + rest, end)),
            None => None,
        }
    } else {
        None
    }
}

/// `String::push` of std appends one character to the end of the string.
pub assume_specification[ String::push ](s: &mut String, ch: char)
    ensures
        final(s)@ == old(s)@.push(ch),
;

/// Digit of base sixteen, in lower case, for a value below sixteen; `'f'` for
/// any other value.
pub fn hex_digit(n: u32) -> (c: char)
    ensures
        c == hex_digit_of(n as int),
{
    if n == 0 {
        '0'
    } else if n == 1 {
        '1'
    } else if n == 2 {
        '2'
    } else if n == 3 {
        '3'
    } else if n == 4 {
        '4'
    } else if n == 5 {
        '5'
    } else if n == 6 {
        '6'
    } else if n == 7 {
        '7'
    } else if n == 8 {
        '8'
    } else if n == 9 {
        '9'
    } else if n == 10 {
        'a'
    } else if n == 11 {
        'b'
    } else if n == 12 {
        'c'
    } else if n == 13 {
        'd'
    } else if n == 14 {
        'e'
    } else {
        'f'
    }
}

/// Appends to `out` what [`escape_of`] writes for `c`.
pub fn push_escaped(out: &mut String, c: char)
    ensures
        final(out)@ == old(out)@ + escape_of(c),
{
    let code: u32 = c as u32;
    if c == '\\' || c == '\'' {
        out.push('\\');
        out.push(c);
    } else if code < 0x20 || code == 0x2028 || code == 0x2029 {
        out.push('\\');
        out.push('u');
        out.push(hex_digit((code / 0x1000) % 16));
        out.push(hex_digit((code / 0x100) % 16));
        out.push(hex_digit((code / 0x10) % 16));
        out.push(hex_digit(code % 16));
    } else {
        out.push(c);
    }
}

/// Writing a text and then one more character is writing the text and then
/// the character's escape.
pub proof fn lemma_escaped_push(text: Seq<char>, c: char)
    ensures
        escaped(text.push(c)) == escaped(text) + escape_of(c),
    decreases text.len(),
{
    if text.len() == 0 {
        assert(escaped(text.push(c).drop_first()) =~= Seq::<char>::empty());
    } else {
        lemma_escaped_push(text.drop_first(), c);
        assert(text.push(c).drop_first() =~= text.drop_first().push(c));
    }
}

/// Rewrites `text` so that it can stand between two single quotes in script
/// source: a backslash goes before each backslash and each single quote, and
/// each control character or line separator is written by its code.
pub fn escape(text: &str) -> (out: String)
    ensures
        out@ == escaped(text@),
{
    let mut out = String::new();
    for c in it: text.chars()
        invariant
            it.seq() == text@,
            out@ == escaped(text@.take(it.index())),
    {
        proof {
            lemma_escaped_push(text@.take(it.index()), c);
            assert(text@.take(it.index()).push(c) =~= text@.take(it.index() + 1));
        }
        push_escaped(&mut out, c);
    }
    assert(text@.take(text@.len() as int) =~= text@);
    out
}

/// Every digit that [`hex_digit_of`] writes has the value it was written for.
pub proof fn lemma_hex_digit_value(n: int)
    requires
        0 <= n < 16,
    ensures
        hex_value(hex_digit_of(n)) == Some(n),
{
}

/// Where the six characters from `at` on are the code escape of `c`, an
/// engine reads `c` there.
pub proof fn lemma_read_code_escape(src: Seq<char>, at: int, c: char)
    requires
        is_coded(c),
        0 <= at,
        at + 6 <= src.len(),
        src.subrange(at, at + 6) == code_escape(c),
    ensures
        read_escape(src, at) == Some((c, at + 6)),
{
    let code = c as int;
    lemma_hex_digit_value((code / 0x1000) % 16);
    lemma_hex_digit_value((code / 0x100) % 16);
    lemma_hex_digit_value((code / 0x10) % 16);
    lemma_hex_digit_value(code % 16);
}

/// The escape of any character is one, two or six characters long.
pub proof fn lemma_escape_len(c: char)
    ensures
        escape_of(c).len() == 1 || escape_of(c).len() == 2 || escape_of(c).len() == 6,
        escape_of(c).len() == 1 <==> is_plain(c),
{
}

/// Where the escaped form of `text` stands in `src` from `at` on and a single
/// quote follows it, an engine that starts reading at `at` reads `text` and
/// stops at that quote.
pub proof fn lemma_read_escaped_at(src: Seq<char>, at: int, text: Seq<char>)
    requires
        0 <= at,
        at + escaped(text).len() < src.len(),
        src.subrange(at, at + escaped(text).len()) == escaped(text),
        src[at + escaped(text).len()] == '\'',
    ensures
        read_literal(src, at) == Some((text, at + escaped(text).len())),
    decreases text.len(),
{
    if text.len() > 0 {
        let c = text[0];
        let rest = text.drop_first();
        let head = escape_of(c);
        let whole = escaped(text);
        let next = at + head.len();
        lemma_escape_len(c);
        // What stands behind the escape of the first character is the
        // escaped rest, which is read by induction.
        assert(src.subrange(next, next + escaped(rest).len()) =~= escaped(rest)) by {
            assert forall|i: int| 0 <= i < escaped(rest).len() implies src.subrange(
                next,
                next + escaped(rest).len(),
            )[i] == escaped(rest)[i] by {
                assert(whole[head.len() + i] == escaped(rest)[i]);
            }
        }
        lemma_read_escaped_at(src, next, rest);
        // The escape of the first character is read as that character.
        assert(src[at] == src.subrange(at, at + whole.len())[0]);
        if c == '\\' || c == '\'' {
            assert(src[at + 1] == src.subrange(at, at + whole.len())[1]);
        } else if is_coded(c) {
            assert(src.subrange(at, at + 6) =~= code_escape(c));
            lemma_read_code_escape(src, at, c);
        }
    }
}

/// The escaped form of a text, put between single quotes anywhere in script
/// source, is read back as that text, and the literal ends at the quote that
/// was put behind it, whatever the text holds and whatever follows.
pub proof fn lemma_escaped_reads_back(before: Seq<char>, text: Seq<char>, after: Seq<char>)
    ensures
        read_literal(
            before + seq!['\''] + escaped(text) + seq!['\''] + after,
            before.len() as int + 1,
        ) == Some((text, before.len() as int + 1 + escaped(text).len())),
{
    let src = before + seq!['\''] + escaped(text) + seq!['\''] + after;
    let at = before.len() as int + 1;
    assert(src.subrange(at, at + escaped(text).len()) =~= escaped(text));
    lemma_read_escaped_at(src, at, text);
}

/// No character of an escaped text is a line terminator, and each single
/// quote in it has a backslash before it.
pub proof fn lemma_escaped_holds_no_terminator(text: Seq<char>, i: int)
    requires
        0 <= i < escaped(text).len(),
    ensures
        !is_line_terminator(escaped(text)[i]),
        escaped(text)[i] == '\'' ==> i > 0 && escaped(text)[i - 1] == '\\',
    decreases text.len(),
{
    if text.len() > 0 {
        let head = escape_of(text[0]);
        lemma_escape_len(text[0]);
        if i >= head.len() {
            lemma_escaped_holds_no_terminator(text.drop_first(), i - head.len());
        }
    }
}

} // verus!
