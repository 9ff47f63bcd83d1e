//! Constants.
//!
//! A constant is a sized bit-vector value, an integer, or a string literal,
//! tried in that order.

use vstd::prelude::*;

use crate::ast::Constant;
use crate::ast::ConstantV;
use crate::string;
use crate::string::spec_string;
use crate::value;
use crate::value::spec_integer;
use crate::value::spec_value;

verus! {

/// A constant: a bit-vector value, an integer, or a string, tried in that
/// order.
pub open spec fn spec_constant(s: Seq<char>, i: int) -> Option<(ConstantV, int)> {
    match spec_value(s, i) {
        Some((bits, p)) => Some((ConstantV::Value(bits), p)),
        None => match spec_integer(s, i) {
            Some((n, p)) => Some((ConstantV::Integer(n), p)),
            None => match spec_string(s, i) {
                Some((text, p)) => Some((ConstantV::Str(text), p)),
                None => None,
            },
        },
    }
}

/// Consume a constant.
pub fn constant(input: &Vec<char>, pos: usize) -> (r: Option<(Constant, usize)>)
    requires
        pos <= input@.len(),
    ensures
        match r {
            Some((c, p)) => spec_constant(input@, pos as int) == Some((c@, p as int)) && pos < p
                <= input@.len(),
            None => spec_constant(input@, pos as int) is None,
        },
{
    match value::value(input, pos) {
        Some((bits, p)) => Some((Constant::Value(bits), p)),
        None => match value::integer(input, pos) {
            Some((n, p)) => Some((Constant::Integer(n), p)),
            None => match string::string(input, pos) {
                Some((text, p)) => Some((Constant::String(text), p)),
                None => None,
            },
        },
    }
}

} // verus!
