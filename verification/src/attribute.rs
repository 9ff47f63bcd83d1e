//! Attribute statements.
//!
//! `attribute <id> <constant> <eol>` declares an attribute with the given
//! name and value; the name is stored with its sigil tag erased.

use vstd::prelude::*;

use crate::ast::Constant;
use crate::ast::ConstantV;
use crate::dict::Dict;
use crate::dict::assoc_insert;
use crate::dict::assoc_wf;
use crate::characters;
use crate::characters::spec_sep;
use crate::characters::spec_eol;
use crate::characters::spec_tag;
use crate::characters::str_to_chars;
use crate::characters::tag;
use crate::constant;
use crate::constant::spec_constant;
use crate::identifier;
use crate::identifier::spec_id;

verus! {

/// An attribute statement: the keyword, the attribute name, its constant
/// value, and the end of the line.
pub open spec fn spec_attr_stmt(s: Seq<char>, i: int) -> Option<((Seq<char>, ConstantV), int)> {
    match spec_tag(s, i, "attribute"@) {
        None => None,
        Some(i1) => match spec_sep(s, i1) {
            None => None,
            Some(i2) => match spec_id(s, i2) {
                None => None,
                Some((name, i3)) => match spec_sep(s, i3) {
                    None => None,
                    Some(i4) => match spec_constant(s, i4) {
                        None => None,
                        Some((c, i5)) => match spec_eol(s, i5) {
                            None => None,
                            Some(i6) => Some(((name.text(), c), i6)),
                        },
                    },
                },
            },
        },
    }
}

/// Consume an attribute statement, yielding the attribute name and value.
pub fn attr_stmt(input: &Vec<char>, pos: usize) -> (r: Option<((String, Constant), usize)>)
    requires
        pos <= input@.len(),
    ensures
        match r {
            Some(((name, c), p)) => spec_attr_stmt(input@, pos as int) == Some(
                ((name@, c@), p as int),
            ) && pos < p <= input@.len(),
            None => spec_attr_stmt(input@, pos as int) is None,
        },
{
    let kw = str_to_chars("attribute");
    let i1 = match tag(input, pos, &kw) {
        Some(p) => p,
        None => {
            return None;
        },
    };
    let i2 = match characters::sep(input, i1) {
        Some(p) => p,
        None => {
            return None;
        },
    };
    let (name, i3) = match identifier::id(input, i2) {
        Some(x) => x,
        None => {
            return None;
        },
    };
    let i4 = match characters::sep(input, i3) {
        Some(p) => p,
        None => {
            return None;
        },
    };
    let (c, i5) = match constant::constant(input, i4) {
        Some(x) => x,
        None => {
            return None;
        },
    };
    let i6 = match characters::eol(input, i5) {
        Some(p) => p,
        None => {
            return None;
        },
    };
    Some(((name.erease(), c), i6))
}

/// The effect of a run of attribute statements starting at `i` on the
/// attribute map `acc`: each parsed attribute is bound in declaration
/// order, a repeated name overwriting the earlier value.  Yields the final
/// map and the resting position.
pub open spec fn spec_attrs(
    s: Seq<char>,
    i: int,
    acc: Seq<(Seq<char>, ConstantV)>,
) -> (Seq<(Seq<char>, ConstantV)>, int)
    decreases s.len() - i,
{
    match spec_attr_stmt(s, i) {
        Some(((k, v), j)) => {
            if i < j <= s.len() {
                spec_attrs(s, j, assoc_insert(acc, k, v))
            } else {
                (acc, i)
            }
        },
        None => (acc, i),
    }
}

/// Consume any run of attribute statements, collecting them into an
/// attribute map.
pub fn attrs(input: &Vec<char>, pos: usize) -> (r: (Dict<Constant>, usize))
    requires
        pos <= input@.len(),
    ensures
        ({
            let (d, e) = spec_attrs(input@, pos as int, Seq::empty());
            r.0@ == d && r.1 as int == e && pos <= r.1 <= input@.len() && assoc_wf(r.0@)
        }),
{
    let mut d: Dict<Constant> = Dict::new();
    let mut cur: usize = pos;
    loop
        invariant
            pos <= cur <= input@.len(),
            assoc_wf(d@),
            spec_attrs(input@, pos as int, Seq::empty()) == spec_attrs(input@, cur as int, d@),
        ensures
            pos <= cur <= input@.len(),
            assoc_wf(d@),
            spec_attrs(input@, pos as int, Seq::empty()) == (d@, cur as int),
        decreases input@.len() - cur,
    {
        match attr_stmt(input, cur) {
            Some(((k, v), j)) => {
                d.insert(k, v);
                cur = j;
            },
            None => {
                proof {
                    assert(spec_attrs(input@, cur as int, d@) == (d@, cur as int));
                }
                break ;
            },
        }
    }
    (d, cur)
}

} // verus!
