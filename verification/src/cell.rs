//! Cell declarations.
//!
//! A cell block names the cell's type and identifier, then holds parameter
//! and connection lines in any order up to its `end` terminator.  A
//! parameter may carry a `signed` or `real` qualifier, which is recognized
//! and dropped.

use vstd::prelude::*;

use crate::ast::Cell;
use crate::ast::CellV;
use crate::ast::cell_v_wf;
use crate::ast::Constant;
use crate::ast::ConstantV;
use crate::ast::SigSpec;
use crate::ast::SigSpecV;
use crate::attribute;
use crate::attribute::spec_attrs;
use crate::characters;
use crate::characters::spec_sep;
use crate::characters::spec_eol;
use crate::characters::spec_end_stmt;
use crate::characters::spec_tag;
use crate::characters::str_to_chars;
use crate::characters::tag;
use crate::constant;
use crate::constant::spec_constant;
use crate::dict::Dict;
use crate::dict::assoc_insert;
use crate::dict::assoc_wf;
use crate::identifier;
use crate::identifier::spec_id;
use crate::sigspec;
use crate::sigspec::spec_sigspec;

verus! {

/// A cell statement: the keyword, the cell's type, its identifier, and the
/// end of the line.
pub open spec fn spec_cell_stmt(s: Seq<char>, i: int) -> Option<((Seq<char>, Seq<char>), int)> {
    match spec_tag(s, i, "cell"@) {
        None => None,
        Some(i1) => match spec_sep(s, i1) {
            None => None,
            Some(i2) => match spec_id(s, i2) {
                None => None,
                Some((ctype, i3)) => match spec_sep(s, i3) {
                    None => None,
                    Some(i4) => match spec_id(s, i4) {
                        None => None,
                        Some((name, i5)) => match spec_eol(s, i5) {
                            None => None,
                            Some(i6) => Some(((ctype.text(), name.text()), i6)),
                        },
                    },
                },
            },
        },
    }
}

/// Consume a cell statement, yielding the cell type and the cell
/// identifier.
pub fn cell_stmt(input: &Vec<char>, pos: usize) -> (r: Option<((String, String), usize)>)
    requires
        pos <= input@.len(),
    ensures
        match r {
            Some(((ctype, name), p)) => spec_cell_stmt(input@, pos as int) == Some(
                ((ctype@, name@), p as int),
            ) && pos < p <= input@.len(),
            None => spec_cell_stmt(input@, pos as int) is None,
        },
{
    let kw = str_to_chars("cell");
    let i1 = match tag(input, pos, &kw) {
        Some(p) => p,
        None => {
            return None;
        },
    };
    let i2 = match characters::sep(input, i1) {
        Some(p) => p,
        None => {
            return None;
        },
    };
    let (ctype, i3) = match cell_type(input, i2) {
        Some(x) => x,
        None => {
            return None;
        },
    };
    let i4 = match characters::sep(input, i3) {
        Some(p) => p,
        None => {
            return None;
        },
    };
    let (name, i5) = match cell_id(input, i4) {
        Some(x) => x,
        None => {
            return None;
        },
    };
    let i6 = match characters::eol(input, i5) {
        Some(p) => p,
        None => {
            return None;
        },
    };
    Some(((ctype, name), i6))
}

/// Consume a cell identifier: an identifier with its tag erased.
pub fn cell_id(input: &Vec<char>, pos: usize) -> (r: Option<(String, usize)>)
    requires
        pos <= input@.len(),
    ensures
        match r {
            Some((name, p)) => spec_id(input@, pos as int) matches Some((v, q)) && name@ == v.text()
                && p as int == q && pos < p <= input@.len(),
            None => spec_id(input@, pos as int) is None,
        },
{
    match identifier::id(input, pos) {
        Some((v, p)) => Some((v.erease(), p)),
        None => None,
    }
}

/// Consume a cell type: an identifier with its tag erased.
pub fn cell_type(input: &Vec<char>, pos: usize) -> (r: Option<(String, usize)>)
    requires
        pos <= input@.len(),
    ensures
        match r {
            Some((name, p)) => spec_id(input@, pos as int) matches Some((v, q)) && name@ == v.text()
                && p as int == q && pos < p <= input@.len(),
            None => spec_id(input@, pos as int) is None,
        },
{
    match identifier::id(input, pos) {
        Some((v, p)) => Some((v.erease(), p)),
        None => None,
    }
}

/// A qualifier keyword followed by separators, or nothing: the position
/// after an optional `signed` or `real` marker.
pub open spec fn spec_opt_qualifier(s: Seq<char>, i: int, kw: Seq<char>) -> int {
    match spec_tag(s, i, kw) {
        Some(j) => match spec_sep(s, j) {
            Some(k) => k,
            None => i,
        },
        None => i,
    }
}

/// A cell parameter line: the keyword, an optional `signed` or `real`
/// qualifier (recognized and dropped), the parameter name and its value.
pub open spec fn spec_cell_body_stmt_param(s: Seq<char>, i: int) -> Option<
    ((Seq<char>, ConstantV), int),
> {
    match spec_tag(s, i, "parameter"@) {
        None => None,
        Some(i1) => match spec_sep(s, i1) {
            None => None,
            Some(i2) => {
                let i3 = spec_opt_qualifier(s, i2, "signed"@);
                let i4 = spec_opt_qualifier(s, i3, "real"@);
                if 0 <= i4 <= s.len() {
                    match spec_id(s, i4) {
                        None => None,
                        Some((name, i5)) => match spec_sep(s, i5) {
                            None => None,
                            Some(i6) => match spec_constant(s, i6) {
                                None => None,
                                Some((c, i7)) => match spec_eol(s, i7) {
                                    None => None,
                                    Some(i8) => Some(((name.text(), c), i8)),
                                },
                            },
                        },
                    }
                } else {
                    None
                }
            },
        },
    }
}

/// Consume the optional qualifier `kw` followed by separators.
fn opt_qualifier(input: &Vec<char>, pos: usize, kw: &Vec<char>) -> (r: usize)
    requires
        pos <= input@.len(),
    ensures
        r as int == spec_opt_qualifier(input@, pos as int, kw@),
        pos <= r <= input@.len(),
{
    match tag(input, pos, kw) {
        Some(j) => match characters::sep(input, j) {
            Some(k) => k,
            None => pos,
        },
        None => pos,
    }
}

/// Consume a cell parameter line.
pub fn cell_body_stmt_param(input: &Vec<char>, pos: usize) -> (r: Option<
    ((String, Constant), usize),
>)
    requires
        pos <= input@.len(),
    ensures
        match r {
            Some(((name, c), p)) => spec_cell_body_stmt_param(input@, pos as int) == Some(
                ((name@, c@), p as int),
            ) && pos < p <= input@.len(),
            None => spec_cell_body_stmt_param(input@, pos as int) is None,
        },
{
    let kw = str_to_chars("parameter");
    let i1 = match tag(input, pos, &kw) {
        Some(p) => p,
        None => {
            return None;
        },
    };
    let i2 = match characters::sep(input, i1) {
        Some(p) => p,
        None => {
            return None;
        },
    };
    let kw_signed = str_to_chars("signed");
    let i3 = opt_qualifier(input, i2, &kw_signed);
    let kw_real = str_to_chars("real");
    let i4 = opt_qualifier(input, i3, &kw_real);
    let (name, i5) = match identifier::id(input, i4) {
        Some(x) => x,
        None => {
            return None;
        },
    };
    let i6 = match characters::sep(input, i5) {
        Some(p) => p,
        None => {
            return None;
        },
    };
    let (c, i7) = match constant::constant(input, i6) {
        Some(x) => x,
        None => {
            return None;
        },
    };
    let i8 = match characters::eol(input, i7) {
        Some(p) => p,
        None => {
            return None;
        },
    };
    Some(((name.erease(), c), i8))
}

/// A cell connection line: the keyword, the port name and its signal.
pub open spec fn spec_cell_connect_stmt(s: Seq<char>, i: int) -> Option<
    ((Seq<char>, SigSpecV), int),
> {
    match spec_tag(s, i, "connect"@) {
        None => None,
        Some(i1) => match spec_sep(s, i1) {
            None => None,
            Some(i2) => match spec_id(s, i2) {
                None => None,
                Some((name, i3)) => match spec_sep(s, i3) {
                    None => None,
                    Some(i4) => match spec_sigspec(s, i4) {
                        None => None,
                        Some((sig, i5)) => match spec_eol(s, i5) {
                            None => None,
                            Some(i6) => Some(((name.text(), sig), i6)),
                        },
                    },
                },
            },
        },
    }
}

/// Consume a cell connection line.
pub fn cell_connect_stmt(input: &Vec<char>, pos: usize) -> (r: Option<((String, SigSpec), usize)>)
    requires
        pos <= input@.len(),
    ensures
        match r {
            Some(((name, sig), p)) => spec_cell_connect_stmt(input@, pos as int) == Some(
                ((name@, sig@), p as int),
            ) && pos < p <= input@.len(),
            None => spec_cell_connect_stmt(input@, pos as int) is None,
        },
{
    let kw = str_to_chars("connect");
    let i1 = match tag(input, pos, &kw) {
        Some(p) => p,
        None => {
            return None;
        },
    };
    let i2 = match characters::sep(input, i1) {
        Some(p) => p,
        None => {
            return None;
        },
    };
    let (name, i3) = match identifier::id(input, i2) {
        Some(x) => x,
        None => {
            return None;
        },
    };
    let i4 = match characters::sep(input, i3) {
        Some(p) => p,
        None => {
            return None;
        },
    };
    let (sig, i5) = match sigspec::sigspec(input, i4) {
        Some(x) => x,
        None => {
            return None;
        },
    };
    let i6 = match characters::eol(input, i5) {
        Some(p) => p,
        None => {
            return None;
        },
    };
    Some(((name.erease(), sig), i6))
}

/// Consume a cell block terminator: `end` and the end of the line.
pub fn cell_end_stmt(input: &Vec<char>, pos: usize) -> (r: Option<usize>)
    requires
        pos <= input@.len(),
    ensures
        match r {
            Some(p) => spec_end_stmt(input@, pos as int) == Some(p as int) && pos < p
                <= input@.len(),
            None => spec_end_stmt(input@, pos as int) is None,
        },
{
    characters::end_stmt(input, pos)
}

/// The effect of a run of parameter and connection lines on the cell's two
/// maps, in any interleaving, up to the first line that is neither.
pub open spec fn spec_cell_body(
    s: Seq<char>,
    i: int,
    params: Seq<(Seq<char>, ConstantV)>,
    conns: Seq<(Seq<char>, SigSpecV)>,
) -> ((Seq<(Seq<char>, ConstantV)>, Seq<(Seq<char>, SigSpecV)>), int)
    decreases s.len() - i,
{
    match spec_cell_body_stmt_param(s, i) {
        Some(((k, c), j)) => {
            if i < j <= s.len() {
                spec_cell_body(s, j, assoc_insert(params, k, c), conns)
            } else {
                ((params, conns), i)
            }
        },
        None => match spec_cell_connect_stmt(s, i) {
            Some(((k, sig), j)) => {
                if i < j <= s.len() {
                    spec_cell_body(s, j, params, assoc_insert(conns, k, sig))
                } else {
                    ((params, conns), i)
                }
            },
            None => ((params, conns), i),
        },
    }
}

/// A cell declaration: any attribute statements (read and dropped, a cell
/// carries none), the cell statement, its body lines, and the terminator.
pub open spec fn spec_cell(s: Seq<char>, i: int) -> Option<((Seq<char>, CellV), int)> {
    let (attrs, i1) = spec_attrs(s, i, Seq::empty());
    if 0 <= i1 <= s.len() {
        match spec_cell_stmt(s, i1) {
            None => None,
            Some(((ctype, name), i2)) => {
                if 0 <= i2 <= s.len() {
                    let ((params, conns), i3) = spec_cell_body(s, i2, Seq::empty(), Seq::empty());
                    if 0 <= i3 <= s.len() {
                        match spec_end_stmt(s, i3) {
                            None => None,
                            Some(i4) => Some(
                                (
                                    (
                                        name,
                                        CellV { cell_type: ctype, parameters: params, connections: conns },
                                    ),
                                    i4,
                                ),
                            ),
                        }
                    } else {
                        None
                    }
                } else {
                    None
                }
            },
        }
    } else {
        None
    }
}

/// Consume a cell declaration, yielding the cell keyed by its identifier.
pub fn cell(input: &Vec<char>, pos: usize) -> (r: Option<((String, Cell), usize)>)
    requires
        pos <= input@.len(),
    ensures
        match r {
            Some(((name, c), p)) => spec_cell(input@, pos as int) == Some(((name@, c@), p as int))
                && pos < p <= input@.len() && cell_v_wf(c@),
            None => spec_cell(input@, pos as int) is None,
        },
{
    let (_attrs, i1) = attribute::attrs(input, pos);
    let ((ctype, name), i2) = match cell_stmt(input, i1) {
        Some(x) => x,
        None => {
            return None;
        },
    };
    let mut params: Dict<Constant> = Dict::new();
    let mut conns: Dict<SigSpec> = Dict::new();
    let mut cur: usize = i2;
    loop
        invariant
            i2 <= cur <= input@.len(),
            assoc_wf(params@),
            assoc_wf(conns@),
            spec_cell_body(input@, i2 as int, Seq::empty(), Seq::empty()) == spec_cell_body(
                input@,
                cur as int,
                params@,
                conns@,
            ),
        ensures
            i2 <= cur <= input@.len(),
            assoc_wf(params@),
            assoc_wf(conns@),
            spec_cell_body(input@, i2 as int, Seq::empty(), Seq::empty()) == (
                (params@, conns@),
                cur as int,
            ),
        decreases input@.len() - cur,
    {
        match cell_body_stmt_param(input, cur) {
            Some(((k, c), j)) => {
                params.insert(k, c);
                cur = j;
            },
            None => {
                match cell_connect_stmt(input, cur) {
                    Some(((k, sig), j)) => {
                        conns.insert(k, sig);
                        cur = j;
                    },
                    None => {
                        proof {
                            assert(spec_cell_body(input@, cur as int, params@, conns@) == (
                                (params@, conns@),
                                cur as int,
                            ));
                        }
                        break ;
                    },
                }
            },
        }
    }
    let i4 = match cell_end_stmt(input, cur) {
        Some(p) => p,
        None => {
            return None;
        },
    };
    Some(((name, Cell { cell_type: ctype, parameters: params, connections: conns }), i4))
}

} // verus!
