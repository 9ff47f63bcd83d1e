//! String literals and comments.
//!
//! A string is a series of characters delimited by double quotes.  Inside
//! it a backslash escapes: a 1-3 digit octal byte value, the named control
//! characters `n r t b f`, a literal backslash, slash or double quote, or a
//! run of whitespace, which is elided entirely (logical line
//! continuation).  Any other character is copied verbatim.  An unterminated
//! string or an octal escape above 255 fails the parse.
//!
//! A comment starts with `#` and runs to the end of its line; the line end
//! is consumed with it.

use vstd::prelude::*;

use crate::characters::is_nl_char;

verus! {

/// Relies on `String`'s `FromIterator` implementation for `char`:
/// collecting characters yields the string holding exactly those
/// characters in order.
#[verifier::external_body]
pub(crate) fn chars_to_string(v: &Vec<char>) -> (r: String)
    ensures
        r@ == v@,
{
    v.iter().collect()
}

/// First position at or after `i` holding a newline or carriage return, or
/// the end of the input.
pub open spec fn spec_skip_not_nl(s: Seq<char>, i: int) -> int
    decreases s.len() - i,
{
    if 0 <= i < s.len() && !is_nl_char(s[i]) {
        spec_skip_not_nl(s, i + 1)
    } else {
        i
    }
}

/// A comment: `#`, its text up to the line end, then one line terminator
/// (`\n`, `\r\n` or `\r`).  The decoded text excludes the terminator.
pub open spec fn spec_comment(s: Seq<char>, i: int) -> Option<(Seq<char>, int)> {
    if 0 <= i < s.len() && s[i] == '#' {
        let j = spec_skip_not_nl(s, i + 1);
        if j < s.len() {
            let text = s.subrange(i + 1, j);
            if s[j] == '\n' {
                Some((text, j + 1))
            } else if j + 1 < s.len() && s[j + 1] == '\n' {
                Some((text, j + 2))
            } else {
                Some((text, j + 1))
            }
        } else {
            None
        }
    } else {
        None
    }
}

/// Consume a comment, yielding its text.
pub fn comment(input: &Vec<char>, pos: usize) -> (r: Option<(String, usize)>)
    requires
        pos <= input@.len(),
    ensures
        match r {
            Some((text, p)) => spec_comment(input@, pos as int) == Some((text@, p as int)) && pos
                < p <= input@.len(),
            None => spec_comment(input@, pos as int) is None,
        },
{
    if !(pos < input.len() && input[pos] == '#') {
        return None;
    }
    let mut acc: Vec<char> = Vec::new();
    let mut cur: usize = pos + 1;
    while cur < input.len() && !(input[cur] == '\n' || input[cur] == '\r')
        invariant
            pos + 1 <= cur <= input@.len(),
            acc@ =~= input@.subrange(pos + 1, cur as int),
            spec_skip_not_nl(input@, pos + 1) == spec_skip_not_nl(input@, cur as int),
        decreases input@.len() - cur,
    {
        acc.push(input[cur]);
        proof {
            assert(acc@ =~= input@.subrange(pos + 1, cur + 1));
        }
        cur += 1;
    }
    if cur >= input.len() {
        return None;
    }
    let text = chars_to_string(&acc);
    if input[cur] == '\n' {
        Some((text, cur + 1))
    } else if cur + 1 < input.len() && input[cur + 1] == '\n' {
        Some((text, cur + 2))
    } else {
        Some((text, cur + 1))
    }
}

pub open spec fn is_oct_char(c: char) -> bool {
    48 <= (c as u32) <= 55
}

pub open spec fn oct_char_val(c: char) -> int {
    c as u32 - 48
}

/// End of the run of at most three octal digits starting at `i`.
pub open spec fn spec_oct_end(s: Seq<char>, i: int) -> int {
    if 0 <= i < s.len() && is_oct_char(s[i]) {
        if i + 1 < s.len() && is_oct_char(s[i + 1]) {
            if i + 2 < s.len() && is_oct_char(s[i + 2]) {
                i + 3
            } else {
                i + 2
            }
        } else {
            i + 1
        }
    } else {
        i
    }
}

/// Value of the octal digits of `s` between `i` and `j`.
pub open spec fn spec_oct_val(s: Seq<char>, i: int, j: int) -> int
    decreases j - i,
{
    if i < j {
        spec_oct_val(s, i, j - 1) * 8 + oct_char_val(s[j - 1])
    } else {
        0
    }
}

pub open spec fn is_escape_ws_char(c: char) -> bool {
    c == ' ' || c == '\t' || c == '\n' || c == '\r'
}

/// First position at or after `i` that does not hold whitespace.
pub open spec fn spec_skip_ws(s: Seq<char>, i: int) -> int
    decreases s.len() - i,
{
    if 0 <= i < s.len() && is_escape_ws_char(s[i]) {
        spec_skip_ws(s, i + 1)
    } else {
        i
    }
}

pub proof fn lemma_spec_skip_ws(s: Seq<char>, i: int)
    requires
        0 <= i <= s.len(),
    ensures
        i <= spec_skip_ws(s, i) <= s.len(),
    decreases s.len() - i,
{
    if i < s.len() && is_escape_ws_char(s[i]) {
        lemma_spec_skip_ws(s, i + 1);
    }
}

/// An escape introduced by a backslash at `i`: an octal byte value of one
/// to three digits, or a named character.  Octal values above 255 do not
/// decode.
pub open spec fn spec_escaped_char(s: Seq<char>, i: int) -> Option<(char, int)> {
    if 0 <= i && i + 1 < s.len() && s[i] == '\\' {
        let c = s[i + 1];
        if is_oct_char(c) {
            let j = spec_oct_end(s, i + 1);
            let v = spec_oct_val(s, i + 1, j);
            if v <= 255 {
                Some(((v as u8) as char, j))
            } else {
                None
            }
        } else if c == 'n' {
            Some(('\n', i + 2))
        } else if c == 'r' {
            Some(('\r', i + 2))
        } else if c == 't' {
            Some(('\t', i + 2))
        } else if c == 'b' {
            Some(((8u8 as char), i + 2))
        } else if c == 'f' {
            Some(((12u8 as char), i + 2))
        } else if c == '\\' {
            Some(('\\', i + 2))
        } else if c == '/' {
            Some(('/', i + 2))
        } else if c == '"' {
            Some(('"', i + 2))
        } else {
            None
        }
    } else {
        None
    }
}

/// A backslash at `i` followed by a whitespace run; both are elided.
pub open spec fn spec_escaped_ws(s: Seq<char>, i: int) -> Option<int> {
    if 0 <= i && i + 1 < s.len() && s[i] == '\\' && is_escape_ws_char(s[i + 1]) {
        Some(spec_skip_ws(s, i + 1))
    } else {
        None
    }
}

/// First position at or after `i` holding a double quote or a backslash,
/// or the end of the input.
pub open spec fn spec_literal_end(s: Seq<char>, i: int) -> int
    decreases s.len() - i,
{
    if 0 <= i < s.len() && s[i] != '"' && s[i] != '\\' {
        spec_literal_end(s, i + 1)
    } else {
        i
    }
}

pub proof fn lemma_spec_literal_end(s: Seq<char>, i: int)
    requires
        0 <= i <= s.len(),
    ensures
        i <= spec_literal_end(s, i) <= s.len(),
    decreases s.len() - i,
{
    if i < s.len() && s[i] != '"' && s[i] != '\\' {
        lemma_spec_literal_end(s, i + 1);
    }
}

/// The body of a string, read from just after the opening quote: literal
/// runs, escapes and elided whitespace runs up to the closing quote, which
/// is consumed.
pub open spec fn spec_string_body(s: Seq<char>, i: int) -> Option<(Seq<char>, int)>
    decreases s.len() - i,
{
    if 0 <= i < s.len() {
        if s[i] == '"' {
            Some((Seq::empty(), i + 1))
        } else if s[i] != '\\' {
            let j = spec_literal_end(s, i);
            if i < j <= s.len() {
                match spec_string_body(s, j) {
                    Some((t, e)) => Some((s.subrange(i, j) + t, e)),
                    None => None,
                }
            } else {
                None
            }
        } else {
            match spec_escaped_char(s, i) {
                Some((c, j)) => {
                    if i < j <= s.len() {
                        match spec_string_body(s, j) {
                            Some((t, e)) => Some((seq![c] + t, e)),
                            None => None,
                        }
                    } else {
                        None
                    }
                },
                None => {
                    match spec_escaped_ws(s, i) {
                        Some(j) => {
                            if i < j <= s.len() {
                                spec_string_body(s, j)
                            } else {
                                None
                            }
                        },
                        None => None,
                    }
                },
            }
        }
    } else {
        None
    }
}

/// A string literal: an opening quote, its body, and the closing quote.
pub open spec fn spec_string(s: Seq<char>, i: int) -> Option<(Seq<char>, int)> {
    if 0 <= i < s.len() && s[i] == '"' {
        spec_string_body(s, i + 1)
    } else {
        None
    }
}

/// Decode an escape introduced by the backslash at `pos`.
fn escaped_char(input: &Vec<char>, pos: usize) -> (r: Option<(char, usize)>)
    requires
        pos <= input@.len(),
    ensures
        match r {
            Some((c, p)) => spec_escaped_char(input@, pos as int) == Some((c, p as int)) && pos < p
                <= input@.len(),
            None => spec_escaped_char(input@, pos as int) is None,
        },
{
    if pos >= input.len() || input[pos] != '\\' {
        return None;
    }
    if pos + 1 >= input.len() {
        return None;
    }
    let c = input[pos + 1];
    let cv = c as u32;
    if 48 <= cv && cv <= 55 {
        let mut v: u32 = cv - 48;
        proof {
            assert(spec_oct_val(input@, pos + 1, pos + 1) == 0);
            assert(spec_oct_val(input@, pos + 1, pos + 2) == oct_char_val(input@[pos + 1]));
        }
        let mut j: usize = pos + 2;
        if j < input.len() && 48 <= input[j] as u32 && input[j] as u32 <= 55 {
            proof {
                assert(spec_oct_val(input@, pos + 1, pos + 3) == spec_oct_val(
                    input@,
                    pos + 1,
                    pos + 2,
                ) * 8 + oct_char_val(input@[pos + 2]));
            }
            v = v * 8 + (input[j] as u32 - 48);
            j += 1;
            if j < input.len() && 48 <= input[j] as u32 && input[j] as u32 <= 55 {
                proof {
                    assert(spec_oct_val(input@, pos + 1, pos + 4) == spec_oct_val(
                        input@,
                        pos + 1,
                        pos + 3,
                    ) * 8 + oct_char_val(input@[pos + 3]));
                }
                v = v * 8 + (input[j] as u32 - 48);
                j += 1;
            }
        }
        proof {
            assert(j as int == spec_oct_end(input@, pos + 1));
            assert(v as int == spec_oct_val(input@, pos + 1, j as int));
        }
        if v <= 255 {
            Some(((v as u8) as char, j))
        } else {
            None
        }
    } else if c == 'n' {
        Some(('\n', pos + 2))
    } else if c == 'r' {
        Some(('\r', pos + 2))
    } else if c == 't' {
        Some(('\t', pos + 2))
    } else if c == 'b' {
        Some((8u8 as char, pos + 2))
    } else if c == 'f' {
        Some((12u8 as char, pos + 2))
    } else if c == '\\' {
        Some(('\\', pos + 2))
    } else if c == '/' {
        Some(('/', pos + 2))
    } else if c == '"' {
        Some(('"', pos + 2))
    } else {
        None
    }
}

/// Parse a string literal, yielding its decoded contents.
pub fn string(input: &Vec<char>, pos: usize) -> (r: Option<(String, usize)>)
    requires
        pos <= input@.len(),
    ensures
        match r {
            Some((text, p)) => spec_string(input@, pos as int) == Some((text@, p as int)) && pos
                < p <= input@.len(),
            None => spec_string(input@, pos as int) is None,
        },
{
    if !(pos < input.len() && input[pos] == '"') {
        return None;
    }
    let mut acc: Vec<char> = Vec::new();
    let mut cur: usize = pos + 1;
    proof {
        if spec_string_body(input@, pos + 1) is Some {
            let (t, e) = spec_string_body(input@, pos + 1)->Some_0;
            assert(acc@ + t =~= t);
        }
    }
    loop
        invariant
            pos + 1 <= cur <= input@.len(),
            input@[pos as int] == '"',
            ({
                let whole = spec_string_body(input@, pos + 1);
                match spec_string_body(input@, cur as int) {
                    Some((t, e)) => whole == Some((acc@ + t, e)),
                    None => whole is None,
                }
            }),
        decreases input@.len() - cur,
    {
        if cur >= input.len() {
            return None;
        }
        let c = input[cur];
        if c == '"' {
            proof {
                assert(spec_string_body(input@, cur as int) == Some(
                    (Seq::<char>::empty(), cur + 1),
                ));
                assert(acc@ + Seq::<char>::empty() =~= acc@);
                assert(spec_string_body(input@, pos + 1) == Some((acc@, cur + 1)));
                assert(spec_string(input@, pos as int) == Some((acc@, cur + 1)));
            }
            let text = chars_to_string(&acc);
            return Some((text, cur + 1));
        } else if c != '\\' {
            let ghost start = cur as int;
            let ghost acc0 = acc@;
            while cur < input.len() && input[cur] != '"' && input[cur] != '\\'
                invariant
                    0 <= start <= cur <= input@.len(),
                    acc@ =~= acc0 + input@.subrange(start, cur as int),
                    spec_literal_end(input@, start) == spec_literal_end(input@, cur as int),
                decreases input@.len() - cur,
            {
                acc.push(input[cur]);
                proof {
                    assert(input@.subrange(start, cur + 1) =~= input@.subrange(
                        start,
                        cur as int,
                    ).push(input@[cur as int]));
                    assert(acc@ =~= acc0 + input@.subrange(start, cur + 1));
                }
                cur += 1;
            }
            proof {
                assert(cur as int == spec_literal_end(input@, start));
                lemma_spec_literal_end(input@, start);
                if spec_string_body(input@, cur as int) is Some {
                    let (t, e) = spec_string_body(input@, cur as int)->Some_0;
                    assert(acc0 + (input@.subrange(start, cur as int) + t) =~= acc@ + t);
                }
            }
        } else {
            match escaped_char(input, cur) {
                Some((ec, j)) => {
                    let ghost acc0 = acc@;
                    acc.push(ec);
                    proof {
                        if spec_string_body(input@, j as int) is Some {
                            let (t, e) = spec_string_body(input@, j as int)->Some_0;
                            assert(acc0 + (seq![ec] + t) =~= acc@ + t);
                        }
                    }
                    cur = j;
                },
                None => {
                    if cur + 1 < input.len() && is_escape_ws(input[cur + 1]) {
                        let ghost start = cur as int;
                        let mut fin: usize = cur + 1;
                        while fin < input.len() && is_escape_ws(input[fin])
                            invariant
                                start + 1 <= fin <= input@.len(),
                                spec_skip_ws(input@, start + 1) == spec_skip_ws(
                                    input@,
                                    fin as int,
                                ),
                            decreases input@.len() - fin,
                        {
                            fin += 1;
                        }
                        cur = fin;
                    } else {
                        return None;
                    }
                },
            }
        }
    }
}

/// Whether `c` is whitespace for the purposes of escaped-whitespace
/// elision: space, tab, newline or carriage return.
fn is_escape_ws(c: char) -> (r: bool)
    ensures
        r == is_escape_ws_char(c),
{
    c == ' ' || c == '\t' || c == '\n' || c == '\r'
}

/// Escaped whitespace is elided: inside a string body, a backslash
/// followed by a whitespace run decodes exactly as the text after that
/// run, with neither the backslash nor the whitespace in the result.
pub proof fn lemma_escaped_ws_elided(s: Seq<char>, i: int)
    requires
        0 <= i,
        i + 1 < s.len(),
        s[i] == '\\',
        is_escape_ws_char(s[i + 1]),
    ensures
        spec_string_body(s, i) == spec_string_body(s, spec_skip_ws(s, i + 1)),
{
    lemma_spec_skip_ws(s, i + 1);
    assert(spec_skip_ws(s, i + 1) == spec_skip_ws(s, i + 2));
    lemma_spec_skip_ws(s, i + 2);
    assert(spec_escaped_char(s, i) is None);
}

} // verus!
