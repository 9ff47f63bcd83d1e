//! Wire declarations.
//!
//! `wire <wire-option>* <id> <eol>` declares a wire, optionally preceded by
//! attribute statements.  Options set the width and offset, mark the wire
//! as input, output or inout (the integer after those three is read and
//! ignored), or set the `upto` and `signed` flags.

use vstd::prelude::*;

use crate::ast::Wire;
use crate::ast::WireV;
use crate::ast::wire_v_wf;
use crate::attribute;
use crate::attribute::spec_attrs;
use crate::characters;
use crate::characters::spec_sep;
use crate::characters::spec_eol;
use crate::characters::spec_tag;
use crate::characters::str_to_chars;
use crate::characters::tag;
use crate::dict::Dict;
use crate::identifier;
use crate::identifier::spec_id;
use crate::value;
use crate::value::spec_integer;
use crate::value::spec_wrap_index;
use crate::value::wrap_index;

verus! {

/// One option of a wire statement.
#[derive(Debug, Clone, Copy, PartialEq, Eq)]
pub enum WireOption {
    Width(usize),
    Offset(usize),
    Input,
    Output,
    Inout,
    Upto,
    Signed,
}

/// The model of a wire before any option is applied: width 1, offset 0,
/// every flag off, no attributes.
pub open spec fn spec_wire_default() -> WireV {
    WireV {
        width: 1,
        offset: 0,
        input: false,
        output: false,
        inout: false,
        upto: false,
        signed: false,
        attributes: Seq::empty(),
    }
}

impl Default for Wire {
    /// A wire with width 1, offset 0, every flag off and no attributes.
    fn default() -> (w: Wire)
        ensures
            w@ == spec_wire_default(),
    {
        let w = Wire {
            width: 1,
            offset: 0,
            input: false,
            output: false,
            inout: false,
            upto: false,
            signed: false,
            attributes: Dict::new(),
        };
        proof {
            assert(w@.attributes =~= spec_wire_default().attributes);
            assert(w@ =~= spec_wire_default());
        }
        w
    }
}

/// One keyword option: `width` and `offset` take the following integer as
/// their value, `input`, `output` and `inout` consume and ignore theirs,
/// `upto` and `signed` stand alone.
pub open spec fn spec_wire_option(s: Seq<char>, i: int) -> Option<(WireOption, int)> {
    match spec_tag(s, i, "width"@) {
        Some(i1) => match spec_sep(s, i1) {
            Some(i2) => match spec_integer(s, i2) {
                Some((v, p)) => Some((WireOption::Width(spec_wrap_index(v)), p)),
                None => None,
            },
            None => None,
        },
        None => match spec_tag(s, i, "offset"@) {
            Some(i1) => match spec_sep(s, i1) {
                Some(i2) => match spec_integer(s, i2) {
                    Some((v, p)) => Some((WireOption::Offset(spec_wrap_index(v)), p)),
                    None => None,
                },
                None => None,
            },
            None => match spec_tag(s, i, "input"@) {
                Some(i1) => match spec_sep(s, i1) {
                    Some(i2) => match spec_integer(s, i2) {
                        Some((v, p)) => Some((WireOption::Input, p)),
                        None => None,
                    },
                    None => None,
                },
                None => match spec_tag(s, i, "output"@) {
                    Some(i1) => match spec_sep(s, i1) {
                        Some(i2) => match spec_integer(s, i2) {
                            Some((v, p)) => Some((WireOption::Output, p)),
                            None => None,
                        },
                        None => None,
                    },
                    None => match spec_tag(s, i, "inout"@) {
                        Some(i1) => match spec_sep(s, i1) {
                            Some(i2) => match spec_integer(s, i2) {
                                Some((v, p)) => Some((WireOption::Inout, p)),
                                None => None,
                            },
                            None => None,
                        },
                        None => match spec_tag(s, i, "upto"@) {
                            Some(i1) => Some((WireOption::Upto, i1)),
                            None => match spec_tag(s, i, "signed"@) {
                                Some(i1) => Some((WireOption::Signed, i1)),
                                None => None,
                            },
                        },
                    },
                },
            },
        },
    }
}

/// Consume one wire option.
pub fn wire_option(input: &Vec<char>, pos: usize) -> (r: Option<(WireOption, usize)>)
    requires
        pos <= input@.len(),
    ensures
        match r {
            Some((o, p)) => spec_wire_option(input@, pos as int) == Some((o, p as int)) && pos < p
                <= input@.len(),
            None => spec_wire_option(input@, pos as int) is None,
        },
{
    let kw_width = str_to_chars("width");
    match tag(input, pos, &kw_width) {
        Some(i1) => {
            return wire_option_int_value(input, i1, WireOption::Width(0), true);
        },
        None => {},
    }
    let kw_offset = str_to_chars("offset");
    match tag(input, pos, &kw_offset) {
        Some(i1) => {
            return wire_option_int_value(input, i1, WireOption::Offset(0), true);
        },
        None => {},
    }
    let kw_input = str_to_chars("input");
    match tag(input, pos, &kw_input) {
        Some(i1) => {
            return wire_option_int_value(input, i1, WireOption::Input, false);
        },
        None => {},
    }
    let kw_output = str_to_chars("output");
    match tag(input, pos, &kw_output) {
        Some(i1) => {
            return wire_option_int_value(input, i1, WireOption::Output, false);
        },
        None => {},
    }
    let kw_inout = str_to_chars("inout");
    match tag(input, pos, &kw_inout) {
        Some(i1) => {
            return wire_option_int_value(input, i1, WireOption::Inout, false);
        },
        None => {},
    }
    let kw_upto = str_to_chars("upto");
    match tag(input, pos, &kw_upto) {
        Some(i1) => {
            proof {
                reveal_strlit("upto");
            }
            return Some((WireOption::Upto, i1));
        },
        None => {},
    }
    let kw_signed = str_to_chars("signed");
    match tag(input, pos, &kw_signed) {
        Some(i1) => {
            proof {
                reveal_strlit("signed");
            }
            Some((WireOption::Signed, i1))
        },
        None => None,
    }
}

/// Read the separator and integer value after a wire-option keyword; when
/// `keep` is set the integer becomes the option's value, otherwise it is
/// read and ignored.
fn wire_option_int_value(input: &Vec<char>, after_kw: usize, shape: WireOption, keep: bool) -> (r:
    Option<(WireOption, usize)>)
    requires
        after_kw <= input@.len(),
    ensures
        match r {
            Some((o, p)) => after_kw < p <= input@.len() && (match spec_sep(
                input@,
                after_kw as int,
            ) {
                Some(i2) => match spec_integer(input@, i2) {
                    Some((v, q)) => p as int == q && o == (if keep {
                        match shape {
                            WireOption::Width(_) => WireOption::Width(spec_wrap_index(v)),
                            _ => WireOption::Offset(spec_wrap_index(v)),
                        }
                    } else {
                        shape
                    }),
                    None => false,
                },
                None => false,
            }),
            None => spec_sep(input@, after_kw as int) is None || (spec_sep(
                input@,
                after_kw as int,
            ) matches Some(i2) && spec_integer(input@, i2) is None),
        },
{
    let i2 = match characters::sep(input, after_kw) {
        Some(p) => p,
        None => {
            return None;
        },
    };
    let (v, p) = match value::integer(input, i2) {
        Some(x) => x,
        None => {
            return None;
        },
    };
    if keep {
        match shape {
            WireOption::Width(_) => Some((WireOption::Width(wrap_index(v)), p)),
            _ => Some((WireOption::Offset(wrap_index(v)), p)),
        }
    } else {
        Some((shape, p))
    }
}

/// The wire after `o` is applied to `w`.
pub open spec fn spec_apply_wire_option(w: WireV, o: WireOption) -> WireV {
    match o {
        WireOption::Width(x) => WireV { width: x, ..w },
        WireOption::Offset(x) => WireV { offset: x, ..w },
        WireOption::Input => WireV { input: true, ..w },
        WireOption::Output => WireV { output: true, ..w },
        WireOption::Inout => WireV { inout: true, ..w },
        WireOption::Upto => WireV { upto: true, ..w },
        WireOption::Signed => WireV { signed: true, ..w },
    }
}

/// The effect of a run of wire options, each followed by separators, on
/// the wire `w`, applied in written order.
pub open spec fn spec_wire_options(s: Seq<char>, i: int, w: WireV) -> (WireV, int)
    decreases s.len() - i,
{
    match spec_wire_option(s, i) {
        Some((o, j)) => match spec_sep(s, j) {
            Some(k) => {
                if i < k <= s.len() {
                    spec_wire_options(s, k, spec_apply_wire_option(w, o))
                } else {
                    (w, i)
                }
            },
            None => (w, i),
        },
        None => (w, i),
    }
}

/// A wire statement: the keyword, its options, the wire's identifier and
/// the end of the line.  Yields the name (tag erased) and the wire built
/// from the defaults by the options.
pub open spec fn spec_wire_stmt(s: Seq<char>, i: int) -> Option<((Seq<char>, WireV), int)> {
    match spec_tag(s, i, "wire"@) {
        None => None,
        Some(i1) => match spec_sep(s, i1) {
            None => None,
            Some(i2) => {
                let (w, i3) = spec_wire_options(s, i2, spec_wire_default());
                if 0 <= i3 <= s.len() {
                    match spec_id(s, i3) {
                        None => None,
                        Some((name, i4)) => match spec_eol(s, i4) {
                            None => None,
                            Some(i5) => Some(((name.text(), w), i5)),
                        },
                    }
                } else {
                    None
                }
            },
        },
    }
}

/// Consume a wire statement.
pub fn wire_stmt(input: &Vec<char>, pos: usize) -> (r: Option<((String, Wire), usize)>)
    requires
        pos <= input@.len(),
    ensures
        match r {
            Some(((name, w), p)) => spec_wire_stmt(input@, pos as int) == Some(
                ((name@, w@), p as int),
            ) && pos < p <= input@.len(),
            None => spec_wire_stmt(input@, pos as int) is None,
        },
{
    let kw = str_to_chars("wire");
    let i1 = match tag(input, pos, &kw) {
        Some(p) => p,
        None => {
            return None;
        },
    };
    let i2 = match characters::sep(input, i1) {
        Some(p) => p,
        None => {
            return None;
        },
    };
    let mut w: Wire = Wire::default();
    let mut cur: usize = i2;
    loop
        invariant
            i2 <= cur <= input@.len(),
            w@.attributes == spec_wire_default().attributes,
            spec_wire_options(input@, i2 as int, spec_wire_default()) == spec_wire_options(
                input@,
                cur as int,
                w@,
            ),
        ensures
            i2 <= cur <= input@.len(),
            w@.attributes == spec_wire_default().attributes,
            spec_wire_options(input@, i2 as int, spec_wire_default()) == (w@, cur as int),
        decreases input@.len() - cur,
    {
        let mut stop: bool = false;
        match wire_option(input, cur) {
            Some((o, j)) => {
                match characters::sep(input, j) {
                    Some(k) => {
                        match o {
                            WireOption::Width(x) => w.width = x,
                            WireOption::Offset(x) => w.offset = x,
                            WireOption::Input => w.input = true,
                            WireOption::Output => w.output = true,
                            WireOption::Inout => w.inout = true,
                            WireOption::Upto => w.upto = true,
                            WireOption::Signed => w.signed = true,
                        }
                        cur = k;
                    },
                    None => {
                        stop = true;
                    },
                }
            },
            None => {
                stop = true;
            },
        }
        if stop {
            proof {
                assert(spec_wire_options(input@, cur as int, w@) == (w@, cur as int));
            }
            break ;
        }
    }
    let (name, i4) = match identifier::id(input, cur) {
        Some(x) => x,
        None => {
            return None;
        },
    };
    let i5 = match characters::eol(input, i4) {
        Some(p) => p,
        None => {
            return None;
        },
    };
    Some(((name.erease(), w), i5))
}

/// A wire declaration: any attribute statements, then the wire statement;
/// the attributes become the wire's attribute map.
pub open spec fn spec_wire(s: Seq<char>, i: int) -> Option<((Seq<char>, WireV), int)> {
    let (attrs, i1) = spec_attrs(s, i, Seq::empty());
    if 0 <= i1 <= s.len() {
        match spec_wire_stmt(s, i1) {
            Some(((name, w), p)) => Some(((name, WireV { attributes: attrs, ..w }), p)),
            None => None,
        }
    } else {
        None
    }
}

/// Consume a wire declaration with its attributes.
pub fn wire(input: &Vec<char>, pos: usize) -> (r: Option<((String, Wire), usize)>)
    requires
        pos <= input@.len(),
    ensures
        match r {
            Some(((name, w), p)) => spec_wire(input@, pos as int) == Some(((name@, w@), p as int))
                && pos < p <= input@.len() && wire_v_wf(w@),
            None => spec_wire(input@, pos as int) is None,
        },
{
    let (d, i1) = attribute::attrs(input, pos);
    match wire_stmt(input, i1) {
        Some(((name, mut w), p)) => {
            w.attributes = d;
            Some(((name, w), p))
        },
        None => None,
    }
}

} // verus!
