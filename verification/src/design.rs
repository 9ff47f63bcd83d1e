//! Design assembly and the parsing entry point.
//!
//! A design is any leading blank space and comments, an optional global
//! `autoidx` declaration, and the modules of the design.  Parsing succeeds
//! only when the whole input is consumed; otherwise the error carries the
//! position at which the top-level loop stopped — the start of the first
//! construct that could not be read — as a 1-based line number and a byte
//! offset into the UTF-8 encoding of the input.

use vstd::prelude::*;

use crate::ast::Design;
use crate::ast::DesignV;
use crate::ast::Module;
use crate::ast::ModuleV;
use crate::ast::SyntaxError;
use crate::ast::design_v_wf;
use crate::ast::module_v_wf;
use crate::characters;
use crate::characters::is_nl_char;
use crate::characters::is_sep_char;
use crate::characters::spec_eol;
use crate::characters::spec_sep;
use crate::characters::spec_tag;
use crate::characters::str_to_chars;
use crate::characters::tag;
use crate::dict::Dict;
use crate::dict::assoc_insert;
use crate::dict::assoc_wf;
use crate::dict::lemma_assoc_insert_preserves;
use crate::module;
use crate::module::spec_module;
use crate::string::comment;
use crate::string::spec_comment;
use crate::value;
use crate::value::spec_integer;

verus! {

/// Position after the leading blank space of a design: separators,
/// newlines and whole comment lines, in any order.
pub open spec fn spec_skip_blank(s: Seq<char>, i: int) -> int
    decreases s.len() - i,
{
    if 0 <= i < s.len() {
        if is_sep_char(s[i]) || is_nl_char(s[i]) {
            spec_skip_blank(s, i + 1)
        } else if s[i] == '#' {
            match spec_comment(s, i) {
                Some((text, j)) => {
                    if i < j <= s.len() {
                        spec_skip_blank(s, j)
                    } else {
                        i
                    }
                },
                None => i,
            }
        } else {
            i
        }
    } else {
        i
    }
}

/// An auto-index declaration: the keyword and its integer value.
pub open spec fn spec_autoidx(s: Seq<char>, i: int) -> Option<(i32, int)> {
    match spec_tag(s, i, "autoidx"@) {
        None => None,
        Some(i1) => match spec_sep(s, i1) {
            None => None,
            Some(i2) => match spec_integer(s, i2) {
                None => None,
                Some((n, i3)) => match spec_eol(s, i3) {
                    None => None,
                    Some(i4) => Some((n, i4)),
                },
            },
        },
    }
}

/// The effect of the run of modules starting at `i` on the module map
/// `acc`, each keyed by its name, a repeated name overwriting the earlier
/// module.
pub open spec fn spec_modules(s: Seq<char>, i: int, acc: Seq<(Seq<char>, ModuleV)>) -> (
    Seq<(Seq<char>, ModuleV)>,
    int,
)
    decreases s.len() - i,
{
    match spec_module(s, i) {
        Some(((k, m), j)) => {
            if i < j <= s.len() {
                spec_modules(s, j, assoc_insert(acc, k, m))
            } else {
                (acc, i)
            }
        },
        None => (acc, i),
    }
}

/// The whole-design parse: the decoded design together with the position
/// at which the top-level loop stopped.
pub open spec fn spec_design_run(s: Seq<char>) -> (DesignV, int) {
    let i0 = spec_skip_blank(s, 0);
    if 0 <= i0 <= s.len() {
        let (aidx, i1): (Option<i32>, int) = match spec_autoidx(s, i0) {
            Some((n, j)) => (Some(n), j),
            None => (None, i0),
        };
        if 0 <= i1 <= s.len() {
            let (mods, i2) = spec_modules(s, i1, Seq::empty());
            (DesignV { autoidx: aidx, modules: mods }, i2)
        } else {
            (DesignV { autoidx: aidx, modules: Seq::empty() }, i1)
        }
    } else {
        (DesignV { autoidx: None, modules: Seq::empty() }, i0)
    }
}

/// The parsed design, when the whole input is consumed.
pub open spec fn spec_design(s: Seq<char>) -> Option<DesignV> {
    let (d, e) = spec_design_run(s);
    if e == s.len() {
        Some(d)
    } else {
        None
    }
}

/// Where a failed parse stopped: the start of the first construct the
/// top-level loop could not read.
pub open spec fn spec_design_rest(s: Seq<char>) -> int {
    spec_design_run(s).1
}

/// Number of line feeds among the first `p` characters.
pub open spec fn spec_count_nl(s: Seq<char>, p: int) -> int
    decreases p,
{
    if p <= 0 {
        0
    } else {
        spec_count_nl(s, p - 1) + if s[p - 1] == '\n' {
            1int
        } else {
            0int
        }
    }
}

/// 1-based line number of position `p`, clamped to the machine word.
pub open spec fn spec_line_of(s: Seq<char>, p: int) -> int {
    let c = spec_count_nl(s, p);
    if c + 1 <= usize::MAX {
        c + 1
    } else {
        c
    }
}

/// The number of bytes the UTF-8 encoding of `c` takes.
pub open spec fn spec_char_utf8_width(c: char) -> int {
    if (c as u32) < 0x80 {
        1
    } else if (c as u32) < 0x800 {
        2
    } else if (c as u32) < 0x10000 {
        3
    } else {
        4
    }
}

/// Byte offset of character position `p` in the UTF-8 encoding of `s`,
/// clamped to the machine word.
pub open spec fn spec_byte_offset(s: Seq<char>, p: int) -> int
    decreases p,
{
    if p <= 0 {
        0
    } else {
        let prev = spec_byte_offset(s, p - 1);
        let w = spec_char_utf8_width(s[p - 1]);
        if prev + w <= usize::MAX {
            prev + w
        } else {
            prev
        }
    }
}

/// There is no partial result: the parse yields a design exactly when the
/// top-level loop consumes the whole input, and otherwise only the resting
/// position, which the error reports.
pub proof fn lemma_parse_is_all_or_nothing(s: Seq<char>)
    ensures
        spec_design(s) is Some <==> spec_design_rest(s) == s.len(),
        spec_design(s) matches Some(d) ==> d == spec_design_run(s).0,
{
}

/// Compute the line number and byte offset of character position `p`.
fn locate(input: &Vec<char>, p: usize) -> (r: (usize, usize))
    requires
        p <= input@.len(),
    ensures
        r.0 as int == spec_line_of(input@, p as int),
        r.1 as int == spec_byte_offset(input@, p as int),
{
    let mut count: usize = 0;
    let mut off: usize = 0;
    let mut k: usize = 0;
    while k < p
        invariant
            k <= p <= input@.len(),
            count as int == spec_count_nl(input@, k as int),
            off as int == spec_byte_offset(input@, k as int),
            count <= k,
        decreases p - k,
    {
        let c = input[k];
        if c == '\n' {
            count += 1;
        }
        let w: usize = if (c as u32) < 0x80 {
            1
        } else if (c as u32) < 0x800 {
            2
        } else if (c as u32) < 0x10000 {
            3
        } else {
            4
        };
        if off <= usize::MAX - w {
            off += w;
        }
        k += 1;
    }
    let line = if count < usize::MAX {
        count + 1
    } else {
        count
    };
    (line, off)
}

/// Run the whole-design parse over the input characters.
fn design_run(input: &Vec<char>) -> (r: (Design, usize))
    ensures
        spec_design_run(input@) == (r.0@, r.1 as int),
        r.1 <= input@.len(),
        design_v_wf(r.0@),
{
    let mut i0: usize = 0;
    loop
        invariant
            0 <= i0 <= input@.len(),
            spec_skip_blank(input@, 0) == spec_skip_blank(input@, i0 as int),
        ensures
            0 <= i0 <= input@.len(),
            spec_skip_blank(input@, 0) == i0,
        decreases input@.len() - i0,
    {
        if i0 < input.len() && (characters::is_sep(input[i0]) || input[i0] == '\n' || input[i0]
            == '\r') {
            i0 += 1;
        } else if i0 < input.len() && input[i0] == '#' {
            match comment(input, i0) {
                Some((_text, j)) => {
                    i0 = j;
                },
                None => {
                    proof {
                        assert(spec_skip_blank(input@, i0 as int) == i0);
                    }
                    break ;
                },
            }
        } else {
            proof {
                assert(spec_skip_blank(input@, i0 as int) == i0);
            }
            break ;
        }
    }
    let (aidx, i1): (Option<i32>, usize) = match autoidx(input, i0) {
        Some((n, j)) => (Some(n), j),
        None => (None, i0),
    };
    let mut mods: Dict<Module> = Dict::new();
    let mut cur: usize = i1;
    loop
        invariant
            i1 <= cur <= input@.len(),
            assoc_wf(mods@),
            forall|i: int| 0 <= i < mods@.len() ==> module_v_wf(#[trigger] mods@[i].1),
            spec_modules(input@, i1 as int, Seq::empty()) == spec_modules(
                input@,
                cur as int,
                mods@,
            ),
        ensures
            i1 <= cur <= input@.len(),
            assoc_wf(mods@),
            forall|i: int| 0 <= i < mods@.len() ==> module_v_wf(#[trigger] mods@[i].1),
            spec_modules(input@, i1 as int, Seq::empty()) == (mods@, cur as int),
        decreases input@.len() - cur,
    {
        match module::module(input, cur) {
            Some(((k, m), j)) => {
                proof {
                    lemma_assoc_insert_preserves(
                        mods@,
                        k@,
                        m@,
                        |x: ModuleV| module_v_wf(x),
                    );
                }
                mods.insert(k, m);
                cur = j;
            },
            None => {
                proof {
                    assert(spec_modules(input@, cur as int, mods@) == (mods@, cur as int));
                }
                break ;
            },
        }
    }
    (Design { autoidx: aidx, modules: mods }, cur)
}

/// Consume an auto-index declaration.
fn autoidx(input: &Vec<char>, pos: usize) -> (r: Option<(i32, usize)>)
    requires
        pos <= input@.len(),
    ensures
        match r {
            Some((n, p)) => spec_autoidx(input@, pos as int) == Some((n, p as int)) && pos < p
                <= input@.len(),
            None => spec_autoidx(input@, pos as int) is None,
        },
{
    let kw = str_to_chars("autoidx");
    let i1 = match tag(input, pos, &kw) {
        Some(p) => p,
        None => {
            return None;
        },
    };
    let i2 = match characters::sep(input, i1) {
        Some(p) => p,
        None => {
            return None;
        },
    };
    let (n, i3) = match value::integer(input, i2) {
        Some(x) => x,
        None => {
            return None;
        },
    };
    let i4 = match characters::eol(input, i3) {
        Some(p) => p,
        None => {
            return None;
        },
    };
    Some((n, i4))
}

/// Parse an RTLIL design from text.
///
/// Yields the fully decoded design when the whole input parses, and
/// otherwise a syntax error locating the start of the first construct
/// that could not be read.
pub fn parse(input: &str) -> (r: Result<Design, SyntaxError>)
    ensures
        match r {
            Ok(d) => spec_design(input@) == Some(d@) && design_v_wf(d@),
            Err(e) => {
                &&& spec_design(input@) is None
                &&& e.line as int == spec_line_of(input@, spec_design_rest(input@))
                &&& e.offset as int == spec_byte_offset(input@, spec_design_rest(input@))
            },
        },
{
    let chars = str_to_chars(input);
    let (d, rest) = design_run(&chars);
    if rest == chars.len() {
        Ok(d)
    } else {
        let (line, offset) = locate(&chars, rest);
        Err(SyntaxError { line, offset })
    }
}

} // verus!
