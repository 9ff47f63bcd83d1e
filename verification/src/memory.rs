//! Memory declarations.
//!
//! `memory <memory-option>* <id> <eol>` declares a memory, optionally
//! preceded by attribute statements.  The options set its width, size and
//! offset; each defaults to 0.

use vstd::prelude::*;

use crate::ast::Memory;
use crate::ast::MemoryV;
use crate::ast::memory_v_wf;
use crate::attribute;
use crate::attribute::spec_attrs;
use crate::characters;
use crate::characters::spec_sep;
use crate::characters::spec_eol;
use crate::characters::spec_tag;
use crate::characters::str_to_chars;
use crate::characters::tag;
use crate::identifier;
use crate::identifier::spec_id;
use crate::value;
use crate::value::spec_integer;
use crate::value::spec_wrap_index;
use crate::value::wrap_index;

verus! {

/// One option of a memory statement.
#[derive(Debug, Clone, Copy, PartialEq, Eq)]
pub enum MemoryOption {
    Width(usize),
    Size(usize),
    Offset(usize),
}

/// One keyword option with its integer value.
pub open spec fn spec_memory_option(s: Seq<char>, i: int) -> Option<(MemoryOption, int)> {
    match spec_tag(s, i, "width"@) {
        Some(i1) => match spec_sep(s, i1) {
            Some(i2) => match spec_integer(s, i2) {
                Some((v, p)) => Some((MemoryOption::Width(spec_wrap_index(v)), p)),
                None => None,
            },
            None => None,
        },
        None => match spec_tag(s, i, "size"@) {
            Some(i1) => match spec_sep(s, i1) {
                Some(i2) => match spec_integer(s, i2) {
                    Some((v, p)) => Some((MemoryOption::Size(spec_wrap_index(v)), p)),
                    None => None,
                },
                None => None,
            },
            None => match spec_tag(s, i, "offset"@) {
                Some(i1) => match spec_sep(s, i1) {
                    Some(i2) => match spec_integer(s, i2) {
                        Some((v, p)) => Some((MemoryOption::Offset(spec_wrap_index(v)), p)),
                        None => None,
                    },
                    None => None,
                },
                None => None,
            },
        },
    }
}

/// Consume one memory option.
pub fn memory_option(input: &Vec<char>, pos: usize) -> (r: Option<(MemoryOption, usize)>)
    requires
        pos <= input@.len(),
    ensures
        match r {
            Some((o, p)) => spec_memory_option(input@, pos as int) == Some((o, p as int)) && pos
                < p <= input@.len(),
            None => spec_memory_option(input@, pos as int) is None,
        },
{
    let kw_width = str_to_chars("width");
    match tag(input, pos, &kw_width) {
        Some(i1) => {
            return memory_option_value(input, i1, 0);
        },
        None => {},
    }
    let kw_size = str_to_chars("size");
    match tag(input, pos, &kw_size) {
        Some(i1) => {
            return memory_option_value(input, i1, 1);
        },
        None => {},
    }
    let kw_offset = str_to_chars("offset");
    match tag(input, pos, &kw_offset) {
        Some(i1) => memory_option_value(input, i1, 2),
        None => None,
    }
}

/// Read the separator and integer value after a memory-option keyword;
/// `which` selects the option built (0 width, 1 size, otherwise offset).
fn memory_option_value(input: &Vec<char>, after_kw: usize, which: u8) -> (r: Option<
    (MemoryOption, usize),
>)
    requires
        after_kw <= input@.len(),
    ensures
        match r {
            Some((o, p)) => after_kw < p <= input@.len() && (match spec_sep(
                input@,
                after_kw as int,
            ) {
                Some(i2) => match spec_integer(input@, i2) {
                    Some((v, q)) => p as int == q && o == (if which == 0 {
                        MemoryOption::Width(spec_wrap_index(v))
                    } else if which == 1 {
                        MemoryOption::Size(spec_wrap_index(v))
                    } else {
                        MemoryOption::Offset(spec_wrap_index(v))
                    }),
                    None => false,
                },
                None => false,
            }),
            None => spec_sep(input@, after_kw as int) is None || (spec_sep(
                input@,
                after_kw as int,
            ) matches Some(i2) && spec_integer(input@, i2) is None),
        },
{
    let i2 = match characters::sep(input, after_kw) {
        Some(p) => p,
        None => {
            return None;
        },
    };
    let (v, p) = match value::integer(input, i2) {
        Some(x) => x,
        None => {
            return None;
        },
    };
    let w = wrap_index(v);
    if which == 0 {
        Some((MemoryOption::Width(w), p))
    } else if which == 1 {
        Some((MemoryOption::Size(w), p))
    } else {
        Some((MemoryOption::Offset(w), p))
    }
}

/// The longest run of memory options, each followed by separators.
pub open spec fn spec_memory_options(s: Seq<char>, i: int) -> (Seq<MemoryOption>, int)
    decreases s.len() - i,
{
    match spec_memory_option(s, i) {
        Some((o, j)) => match spec_sep(s, j) {
            Some(k) => {
                if i < k <= s.len() {
                    let (rest, e) = spec_memory_options(s, k);
                    (seq![o] + rest, e)
                } else {
                    (Seq::empty(), i)
                }
            },
            None => (Seq::empty(), i),
        },
        None => (Seq::empty(), i),
    }
}

/// A memory statement: the keyword, its options, the memory's identifier
/// and the end of the line.
pub open spec fn spec_memory_stmt(s: Seq<char>, i: int) -> Option<
    ((Seq<char>, Seq<MemoryOption>), int),
> {
    match spec_tag(s, i, "memory"@) {
        None => None,
        Some(i1) => match spec_sep(s, i1) {
            None => None,
            Some(i2) => {
                let (opts, i3) = spec_memory_options(s, i2);
                if 0 <= i3 <= s.len() {
                    match spec_id(s, i3) {
                        None => None,
                        Some((name, i4)) => match spec_eol(s, i4) {
                            None => None,
                            Some(i5) => Some(((name.text(), opts), i5)),
                        },
                    }
                } else {
                    None
                }
            },
        },
    }
}

/// Consume a memory statement, yielding the name and the option list.
pub fn memory_stmt(input: &Vec<char>, pos: usize) -> (r: Option<
    ((String, Vec<MemoryOption>), usize),
>)
    requires
        pos <= input@.len(),
    ensures
        match r {
            Some(((name, opts), p)) => spec_memory_stmt(input@, pos as int) == Some(
                ((name@, opts@), p as int),
            ) && pos < p <= input@.len(),
            None => spec_memory_stmt(input@, pos as int) is None,
        },
{
    let kw = str_to_chars("memory");
    let i1 = match tag(input, pos, &kw) {
        Some(p) => p,
        None => {
            return None;
        },
    };
    let i2 = match characters::sep(input, i1) {
        Some(p) => p,
        None => {
            return None;
        },
    };
    let mut opts: Vec<MemoryOption> = Vec::new();
    let mut cur: usize = i2;
    proof {
        let (l0, e0) = spec_memory_options(input@, i2 as int);
        assert(opts@ + l0 =~= l0);
    }
    loop
        invariant
            i2 <= cur <= input@.len(),
            ({
                let (l0, e0) = spec_memory_options(input@, i2 as int);
                let (l1, e1) = spec_memory_options(input@, cur as int);
                l0 == opts@ + l1 && e0 == e1
            }),
        ensures
            i2 <= cur <= input@.len(),
            spec_memory_options(input@, i2 as int) == (opts@, cur as int),
        decreases input@.len() - cur,
    {
        let mut stop: bool = false;
        match memory_option(input, cur) {
            Some((o, j)) => {
                match characters::sep(input, j) {
                    Some(k) => {
                        proof {
                            let (rest, e) = spec_memory_options(input@, k as int);
                            assert(spec_memory_options(input@, cur as int) == (
                                seq![o] + rest,
                                e,
                            ));
                            assert(opts@ + (seq![o] + rest) =~= opts@.push(o) + rest);
                        }
                        opts.push(o);
                        cur = k;
                    },
                    None => {
                        stop = true;
                    },
                }
            },
            None => {
                stop = true;
            },
        }
        if stop {
            proof {
                assert(spec_memory_options(input@, cur as int) == (
                    Seq::<MemoryOption>::empty(),
                    cur as int,
                ));
                assert(opts@ + Seq::<MemoryOption>::empty() =~= opts@);
            }
            break ;
        }
    }
    let (name, i4) = match identifier::id(input, cur) {
        Some(x) => x,
        None => {
            return None;
        },
    };
    let i5 = match characters::eol(input, i4) {
        Some(p) => p,
        None => {
            return None;
        },
    };
    Some(((name.erease(), opts), i5))
}

/// The memory after `o` is applied to `m`.
pub open spec fn spec_apply_memory_option(m: MemoryV, o: MemoryOption) -> MemoryV {
    match o {
        MemoryOption::Width(x) => MemoryV { width: x, ..m },
        MemoryOption::Size(x) => MemoryV { size: x, ..m },
        MemoryOption::Offset(x) => MemoryV { offset: x, ..m },
    }
}

/// The memory after all of `opts` are applied to `m`, in order.
pub open spec fn spec_apply_memory_options(m: MemoryV, opts: Seq<MemoryOption>) -> MemoryV
    decreases opts.len(),
{
    if opts.len() == 0 {
        m
    } else {
        spec_apply_memory_options(spec_apply_memory_option(m, opts[0]), opts.drop_first())
    }
}

/// A memory declaration: any attribute statements, the memory statement,
/// and its options applied to the all-zero defaults.
pub open spec fn spec_memory(s: Seq<char>, i: int) -> Option<((Seq<char>, MemoryV), int)> {
    let (attrs, i1) = spec_attrs(s, i, Seq::empty());
    if 0 <= i1 <= s.len() {
        match spec_memory_stmt(s, i1) {
            Some(((name, opts), p)) => {
                let base = MemoryV { width: 0, size: 0, offset: 0, attributes: attrs };
                Some(((name, spec_apply_memory_options(base, opts)), p))
            },
            None => None,
        }
    } else {
        None
    }
}

/// Consume a memory declaration with its attributes.
pub fn memory(input: &Vec<char>, pos: usize) -> (r: Option<((String, Memory), usize)>)
    requires
        pos <= input@.len(),
    ensures
        match r {
            Some(((name, m), p)) => spec_memory(input@, pos as int) == Some(
                ((name@, m@), p as int),
            ) && pos < p <= input@.len() && memory_v_wf(m@),
            None => spec_memory(input@, pos as int) is None,
        },
{
    let (d, i1) = attribute::attrs(input, pos);
    let ((name, opts), p) = match memory_stmt(input, i1) {
        Some(x) => x,
        None => {
            return None;
        },
    };
    let mut m = Memory { width: 0, size: 0, offset: 0, attributes: d };
    let ghost base = m@;
    let mut idx: usize = 0;
    proof {
        assert(opts@.skip(0) =~= opts@);
    }
    while idx < opts.len()
        invariant
            idx <= opts@.len(),
            m@.attributes == base.attributes,
            spec_apply_memory_options(base, opts@) == spec_apply_memory_options(
                m@,
                opts@.skip(idx as int),
            ),
        decreases opts@.len() - idx,
    {
        proof {
            assert(opts@.skip(idx as int).drop_first() =~= opts@.skip(idx + 1));
            assert(opts@.skip(idx as int)[0] == opts@[idx as int]);
        }
        match opts[idx] {
            MemoryOption::Width(x) => m.width = x,
            MemoryOption::Size(x) => m.size = x,
            MemoryOption::Offset(x) => m.offset = x,
        }
        idx += 1;
    }
    proof {
        assert(opts@.skip(opts@.len() as int) =~= Seq::<MemoryOption>::empty());
    }
    Some(((name, m), p))
}

} // verus!
