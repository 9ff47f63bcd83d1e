//! Lexical primitives.
//!
//! An RTLIL text is read character by character.  ASCII spaces (32) and
//! tabs (9) separate tokens.  A `nonws` character, used in identifiers, is
//! any character above ASCII space.  An end-of-line is one or more ASCII
//! newlines (10) and carriage returns (13), followed by any comment lines
//! and trailing horizontal whitespace, all folded into one statement
//! separator.
//!
//! Parsing functions here and in the other grammar modules share one
//! shape: they take the input characters and a start position, and return
//! `None` when the production does not match, or the decoded value with the
//! position just past what was consumed.  Each is verified against a spec
//! function of the same name with `spec_` prefixed, which defines the
//! grammar over `Seq<char>`.

use vstd::prelude::*;

use crate::string::comment;
use crate::string::spec_comment;

verus! {

pub open spec fn is_sep_char(c: char) -> bool {
    c == ' ' || c == '\t'
}

/// Whether `chr` is a token separator: an ASCII space or tab.
#[verifier::when_used_as_spec(is_sep_char)]
pub fn is_sep(chr: char) -> (r: bool)
    ensures
        r == is_sep_char(chr),
{
    chr == ' ' || chr == '\t'
}

pub open spec fn is_nl_char(c: char) -> bool {
    c == '\n' || c == '\r'
}

pub open spec fn is_nonws_char(c: char) -> bool {
    (c as u32) > 32
}

/// First position at or after `i` that does not hold a separator character.
pub open spec fn spec_skip_sep(s: Seq<char>, i: int) -> int
    decreases s.len() - i,
{
    if 0 <= i < s.len() && is_sep_char(s[i]) {
        spec_skip_sep(s, i + 1)
    } else {
        i
    }
}

/// One or more separator characters.
pub open spec fn spec_sep(s: Seq<char>, i: int) -> Option<int> {
    if 0 <= i < s.len() && is_sep_char(s[i]) {
        Some(spec_skip_sep(s, i))
    } else {
        None
    }
}

/// Consume one or more separator characters.
pub fn sep(input: &Vec<char>, pos: usize) -> (r: Option<usize>)
    requires
        pos <= input@.len(),
    ensures
        match r {
            Some(p) => spec_sep(input@, pos as int) == Some(p as int) && pos < p <= input@.len(),
            None => spec_sep(input@, pos as int) is None,
        },
{
    if pos < input.len() && is_sep(input[pos]) {
        let mut cur: usize = pos;
        while cur < input.len() && is_sep(input[cur])
            invariant
                pos <= cur <= input@.len(),
                spec_skip_sep(input@, pos as int) == spec_skip_sep(input@, cur as int),
            decreases input@.len() - cur,
        {
            cur += 1;
        }
        Some(cur)
    } else {
        None
    }
}

pub open spec fn spec_nonws(s: Seq<char>, i: int) -> Option<(char, int)> {
    if 0 <= i < s.len() && is_nonws_char(s[i]) {
        Some((s[i], i + 1))
    } else {
        None
    }
}

/// Consume one `nonws` character: any character above ASCII space.
pub fn nonws(input: &Vec<char>, pos: usize) -> (r: Option<(char, usize)>)
    requires
        pos <= input@.len(),
    ensures
        match r {
            Some((c, p)) => spec_nonws(input@, pos as int) == Some((c, p as int)) && pos < p
                <= input@.len(),
            None => spec_nonws(input@, pos as int) is None,
        },
{
    if pos < input.len() && input[pos] as u32 > 32 {
        Some((input[pos], pos + 1))
    } else {
        None
    }
}

/// First position at or after `i` that does not hold a `nonws` character.
pub open spec fn spec_skip_nonws(s: Seq<char>, i: int) -> int
    decreases s.len() - i,
{
    if 0 <= i < s.len() && is_nonws_char(s[i]) {
        spec_skip_nonws(s, i + 1)
    } else {
        i
    }
}

/// First position at or after `i` that does not hold a newline or carriage
/// return.
pub open spec fn spec_skip_newlines(s: Seq<char>, i: int) -> int
    decreases s.len() - i,
{
    if 0 <= i < s.len() && is_nl_char(s[i]) {
        spec_skip_newlines(s, i + 1)
    } else {
        i
    }
}

/// Position after any run of comment lines starting at `i`.
pub open spec fn spec_skip_comments(s: Seq<char>, i: int) -> int
    decreases s.len() - i,
{
    match spec_comment(s, i) {
        Some((text, j)) => {
            if i < j <= s.len() {
                spec_skip_comments(s, j)
            } else {
                i
            }
        },
        None => i,
    }
}

/// End-of-line: one or more newline or carriage-return characters, then any
/// comment lines, then any trailing horizontal whitespace.
pub open spec fn spec_eol(s: Seq<char>, i: int) -> Option<int> {
    if 0 <= i < s.len() && is_nl_char(s[i]) {
        Some(spec_skip_sep(s, spec_skip_comments(s, spec_skip_newlines(s, i))))
    } else {
        None
    }
}

/// Consume an end-of-line: a newline run, absorbing any following comment
/// lines and trailing horizontal whitespace.
pub fn eol(input: &Vec<char>, pos: usize) -> (r: Option<usize>)
    requires
        pos <= input@.len(),
    ensures
        match r {
            Some(p) => spec_eol(input@, pos as int) == Some(p as int) && pos < p <= input@.len(),
            None => spec_eol(input@, pos as int) is None,
        },
{
    if !(pos < input.len() && (input[pos] == '\n' || input[pos] == '\r')) {
        return None;
    }
    let mut cur: usize = pos + 1;
    while cur < input.len() && (input[cur] == '\n' || input[cur] == '\r')
        invariant
            pos < cur <= input@.len(),
            spec_skip_newlines(input@, pos as int) == spec_skip_newlines(input@, cur as int),
        decreases input@.len() - cur,
    {
        cur += 1;
    }
    proof {
        assert(spec_skip_newlines(input@, cur as int) == cur);
    }
    loop
        invariant
            pos < cur <= input@.len(),
            spec_skip_comments(input@, spec_skip_newlines(input@, pos as int))
                == spec_skip_comments(input@, cur as int),
        ensures
            pos < cur <= input@.len(),
            spec_skip_comments(input@, spec_skip_newlines(input@, pos as int)) == cur,
        decreases input@.len() - cur,
    {
        match comment(input, cur) {
            Some((_text, j)) => {
                cur = j;
            },
            None => {
                proof {
                    assert(spec_skip_comments(input@, cur as int) == cur);
                }
                break ;
            },
        }
    }
    let mut fin: usize = cur;
    while fin < input.len() && is_sep(input[fin])
        invariant
            pos < cur <= fin <= input@.len(),
            spec_skip_sep(input@, cur as int) == spec_skip_sep(input@, fin as int),
        decreases input@.len() - fin,
    {
        fin += 1;
    }
    proof {
        assert(spec_skip_sep(input@, fin as int) == fin);
    }
    Some(fin)
}

/// The literal characters `t` at position `i`.
pub open spec fn spec_tag(s: Seq<char>, i: int, t: Seq<char>) -> Option<int> {
    if 0 <= i && i + t.len() <= s.len() && s.subrange(i, i + t.len()) == t {
        Some(i + t.len())
    } else {
        None
    }
}

/// A block terminator: the keyword `end` and an end-of-line.
pub open spec fn spec_end_stmt(s: Seq<char>, i: int) -> Option<int> {
    match spec_tag(s, i, "end"@) {
        None => None,
        Some(i1) => spec_eol(s, i1),
    }
}

/// Consume a block terminator.
pub fn end_stmt(input: &Vec<char>, pos: usize) -> (r: Option<usize>)
    requires
        pos <= input@.len(),
    ensures
        match r {
            Some(p) => spec_end_stmt(input@, pos as int) == Some(p as int) && pos < p
                <= input@.len(),
            None => spec_end_stmt(input@, pos as int) is None,
        },
{
    let kw = str_to_chars("end");
    match tag(input, pos, &kw) {
        Some(i1) => eol(input, i1),
        None => None,
    }
}

/// The characters of `s`, in order, as a vector.
pub fn str_to_chars(s: &str) -> (v: Vec<char>)
    ensures
        v@ == s@,
{
    broadcast use vstd::string::axiom_spec_iter;

    let mut v: Vec<char> = Vec::new();
    for c in it: s.chars()
        invariant
            v@ =~= it.seq().take(it.index() as int),
    {
        v.push(c);
    }
    proof {
        assert(v@ =~= s@);
    }
    v
}

/// Consume the literal characters of `t` at `pos`.
pub fn tag(input: &Vec<char>, pos: usize, t: &Vec<char>) -> (r: Option<usize>)
    requires
        pos <= input@.len(),
    ensures
        match r {
            Some(p) => spec_tag(input@, pos as int, t@) == Some(p as int) && pos <= p
                <= input@.len(),
            None => spec_tag(input@, pos as int, t@) is None,
        },
{
    let n = t.len();
    if n > input.len() - pos {
        return None;
    }
    let end = pos + n;
    let mut idx: usize = pos;
    while idx < end
        invariant
            pos <= idx <= end <= input@.len(),
            end == pos + n,
            n == t@.len(),
            forall|m: int| 0 <= m < idx - pos ==> input@[pos + m] == t@[m],
        decreases end - idx,
    {
        if input[idx] != t[idx - pos] {
            proof {
                assert(input@.subrange(pos as int, pos + t@.len())[idx - pos] != t@[idx - pos]);
            }
            return None;
        }
        idx += 1;
    }
    proof {
        assert(input@.subrange(pos as int, pos + t@.len()) =~= t@);
    }
    Some(end)
}

} // verus!
