//! Connection statements.
//!
//! `connect <sigspec> <sigspec> <eol>` connects a source signal to a
//! destination signal.  A module keeps its connections in written order.

use vstd::prelude::*;

use crate::ast::SigSpec;
use crate::ast::SigSpecV;
use crate::characters;
use crate::characters::spec_sep;
use crate::characters::spec_eol;
use crate::characters::spec_tag;
use crate::characters::str_to_chars;
use crate::characters::tag;
use crate::sigspec;
use crate::sigspec::spec_sigspec;

verus! {

/// A connection statement: the keyword and the destination and source
/// signals.
pub open spec fn spec_conn_stmt(s: Seq<char>, i: int) -> Option<((SigSpecV, SigSpecV), int)> {
    match spec_tag(s, i, "connect"@) {
        None => None,
        Some(i1) => match spec_sep(s, i1) {
            None => None,
            Some(i2) => match spec_sigspec(s, i2) {
                None => None,
                Some((dst, i3)) => match spec_sep(s, i3) {
                    None => None,
                    Some(i4) => match spec_sigspec(s, i4) {
                        None => None,
                        Some((src, i5)) => match spec_eol(s, i5) {
                            None => None,
                            Some(i6) => Some(((dst, src), i6)),
                        },
                    },
                },
            },
        },
    }
}

/// Consume a connection statement.
pub fn conn_stmt(input: &Vec<char>, pos: usize) -> (r: Option<((SigSpec, SigSpec), usize)>)
    requires
        pos <= input@.len(),
    ensures
        match r {
            Some(((dst, src), p)) => spec_conn_stmt(input@, pos as int) == Some(
                ((dst@, src@), p as int),
            ) && pos < p <= input@.len(),
            None => spec_conn_stmt(input@, pos as int) is None,
        },
{
    let kw = str_to_chars("connect");
    let i1 = match tag(input, pos, &kw) {
        Some(p) => p,
        None => {
            return None;
        },
    };
    let i2 = match characters::sep(input, i1) {
        Some(p) => p,
        None => {
            return None;
        },
    };
    let (dst, i3) = match sigspec::sigspec(input, i2) {
        Some(x) => x,
        None => {
            return None;
        },
    };
    let i4 = match characters::sep(input, i3) {
        Some(p) => p,
        None => {
            return None;
        },
    };
    let (src, i5) = match sigspec::sigspec(input, i4) {
        Some(x) => x,
        None => {
            return None;
        },
    };
    let i6 = match characters::eol(input, i5) {
        Some(p) => p,
        None => {
            return None;
        },
    };
    Some(((dst, src), i6))
}

} // verus!
