//! Signal specifications.
//!
//! A signal specification is a constant, a bit range of a named wire, a
//! bare wire reference, or a brace-delimited concatenation of further
//! signal specifications, tried in that order.  Concatenation makes the
//! grammar recursive; recursion always consumes input, so it terminates.

use vstd::prelude::*;

use crate::ast::SigSpec;
use crate::ast::SigSpecV;
use crate::ast::view_sigspec;
use crate::ast::view_sigspec_seq;
use crate::ast::lemma_view_sigspec_seq;
use crate::characters;
use crate::characters::spec_sep;
use crate::characters::spec_skip_sep;
use crate::constant;
use crate::constant::spec_constant;
use crate::identifier;
use crate::identifier::spec_id;
use crate::value;
use crate::value::spec_integer;
use crate::value::spec_wrap_index;
use crate::value::wrap_index;

verus! {

/// A bit range of a named wire: the wire, one or two integer indices in
/// brackets; one index denotes a single bit, a colon-separated pair an
/// inclusive span, high index first.
pub open spec fn spec_sigspec_range(s: Seq<char>, i: int) -> Option<
    ((SigSpecV, usize, Option<usize>), int),
> {
    match spec_id(s, i) {
        None => None,
        Some((name, i1)) => match spec_sep(s, i1) {
            None => None,
            Some(i2) => {
                if 0 <= i2 < s.len() && s[i2] == '[' {
                    match spec_integer(s, i2 + 1) {
                        None => None,
                        Some((a, i3)) => {
                            let start = spec_wrap_index(a);
                            if 0 <= i3 < s.len() && s[i3] == ':' {
                                match spec_integer(s, i3 + 1) {
                                    None => None,
                                    Some((b, i4)) => {
                                        if 0 <= i4 < s.len() && s[i4] == ']' {
                                            Some(
                                                (
                                                    (
                                                        SigSpecV::WireId(name.text()),
                                                        start,
                                                        Some(spec_wrap_index(b)),
                                                    ),
                                                    i4 + 1,
                                                ),
                                            )
                                        } else {
                                            None
                                        }
                                    },
                                }
                            } else if 0 <= i3 < s.len() && s[i3] == ']' {
                                Some(((SigSpecV::WireId(name.text()), start, None), i3 + 1))
                            } else {
                                None
                            }
                        },
                    }
                } else {
                    None
                }
            },
        },
    }
}

/// A signal specification: a constant, a bit range, a wire reference, or a
/// concatenation, tried in that order.
pub open spec fn spec_sigspec(s: Seq<char>, i: int) -> Option<(SigSpecV, int)>
    decreases s.len() - i, 1int,
{
    match spec_constant(s, i) {
        Some((c, p)) => Some((SigSpecV::Constant(c), p)),
        None => match spec_sigspec_range(s, i) {
            Some(((base, start, end), p)) => Some((SigSpecV::Range(Box::new(base), start, end), p)),
            None => match spec_id(s, i) {
                Some((name, p)) => Some((SigSpecV::WireId(name.text()), p)),
                None => spec_sigspec_concat(s, i),
            },
        },
    }
}

/// A concatenation: `{`, any separators, signal specifications each
/// followed by separators, and `}`.  The elements keep their written
/// order, most significant part first.
pub open spec fn spec_sigspec_concat(s: Seq<char>, i: int) -> Option<(SigSpecV, int)>
    decreases s.len() - i, 0int,
{
    if 0 <= i < s.len() && s[i] == '{' {
        let j = spec_skip_sep(s, i + 1);
        if i + 1 <= j <= s.len() {
            let (items, k) = spec_sigspec_list(s, j);
            if 0 <= k < s.len() && s[k] == '}' {
                Some((SigSpecV::Concat(items), k + 1))
            } else {
                None
            }
        } else {
            None
        }
    } else {
        None
    }
}

/// The longest run of signal specifications, each followed by separators,
/// starting at `i`; yields the parsed elements and the resting position.
pub open spec fn spec_sigspec_list(s: Seq<char>, i: int) -> (Seq<SigSpecV>, int)
    decreases s.len() - i, 2int,
{
    match spec_sigspec(s, i) {
        Some((v, j)) => match spec_sep(s, j) {
            Some(k) => {
                if i < k <= s.len() {
                    let (rest, e) = spec_sigspec_list(s, k);
                    (seq![v] + rest, e)
                } else {
                    (Seq::empty(), i)
                }
            },
            None => (Seq::empty(), i),
        },
        None => (Seq::empty(), i),
    }
}

/// Consume a bit range of a named wire.
pub fn sigspec_range(input: &Vec<char>, pos: usize) -> (r: Option<
    ((SigSpec, usize, Option<usize>), usize),
>)
    requires
        pos <= input@.len(),
    ensures
        match r {
            Some(((base, start, end), p)) => spec_sigspec_range(input@, pos as int) == Some(
                ((base@, start, end), p as int),
            ) && pos < p <= input@.len(),
            None => spec_sigspec_range(input@, pos as int) is None,
        },
{
    let (name, i1) = match identifier::id(input, pos) {
        Some(x) => x,
        None => {
            return None;
        },
    };
    let i2 = match characters::sep(input, i1) {
        Some(p) => p,
        None => {
            return None;
        },
    };
    if !(i2 < input.len() && input[i2] == '[') {
        return None;
    }
    let (a, i3) = match value::integer(input, i2 + 1) {
        Some(x) => x,
        None => {
            return None;
        },
    };
    let start = wrap_index(a);
    if i3 < input.len() && input[i3] == ':' {
        let (b, i4) = match value::integer(input, i3 + 1) {
            Some(x) => x,
            None => {
                return None;
            },
        };
        if i4 < input.len() && input[i4] == ']' {
            Some(((SigSpec::WireId(name.erease()), start, Some(wrap_index(b))), i4 + 1))
        } else {
            None
        }
    } else if i3 < input.len() && input[i3] == ']' {
        Some(((SigSpec::WireId(name.erease()), start, None), i3 + 1))
    } else {
        None
    }
}

/// Consume a signal specification.
pub fn sigspec(input: &Vec<char>, pos: usize) -> (r: Option<(SigSpec, usize)>)
    requires
        pos <= input@.len(),
    ensures
        match r {
            Some((v, p)) => spec_sigspec(input@, pos as int) == Some((v@, p as int)) && pos < p
                <= input@.len(),
            None => spec_sigspec(input@, pos as int) is None,
        },
    decreases input@.len() - pos, 1int,
{
    match constant::constant(input, pos) {
        Some((c, p)) => {
            return Some((SigSpec::Constant(c), p));
        },
        None => {},
    }
    match sigspec_range(input, pos) {
        Some(((base, start, end), p)) => {
            return Some((SigSpec::Range(Box::new(base), start, end), p));
        },
        None => {},
    }
    match identifier::id(input, pos) {
        Some((name, p)) => {
            return Some((SigSpec::WireId(name.erease()), p));
        },
        None => {},
    }
    sigspec_concat(input, pos)
}

/// Consume a concatenation of signal specifications.
pub fn sigspec_concat(input: &Vec<char>, pos: usize) -> (r: Option<(SigSpec, usize)>)
    requires
        pos <= input@.len(),
    ensures
        match r {
            Some((v, p)) => spec_sigspec_concat(input@, pos as int) == Some((v@, p as int)) && pos
                < p <= input@.len(),
            None => spec_sigspec_concat(input@, pos as int) is None,
        },
    decreases input@.len() - pos, 0int,
{
    if !(pos < input.len() && input[pos] == '{') {
        return None;
    }
    let mut cur: usize = pos + 1;
    while cur < input.len() && characters::is_sep(input[cur])
        invariant
            pos + 1 <= cur <= input@.len(),
            spec_skip_sep(input@, pos + 1) == spec_skip_sep(input@, cur as int),
        decreases input@.len() - cur,
    {
        cur += 1;
    }
    proof {
        assert(cur as int == spec_skip_sep(input@, pos + 1));
    }
    let ghost j0 = cur as int;
    let mut items: Vec<SigSpec> = Vec::new();
    proof {
        let (l0, e0) = spec_sigspec_list(input@, j0);
        assert(view_sigspec_seq(items@) + l0 =~= l0);
    }
    loop
        invariant
            pos + 1 <= j0 <= cur <= input@.len(),
            pos < input@.len(),
            input@[pos as int] == '{',
            j0 == spec_skip_sep(input@, pos + 1),
            ({
                let (l0, e0) = spec_sigspec_list(input@, j0);
                let (l1, e1) = spec_sigspec_list(input@, cur as int);
                l0 == view_sigspec_seq(items@) + l1 && e0 == e1
            }),
        ensures
            pos + 1 <= j0 <= cur <= input@.len(),
            pos < input@.len(),
            input@[pos as int] == '{',
            j0 == spec_skip_sep(input@, pos + 1),
            spec_sigspec_list(input@, j0) == (view_sigspec_seq(items@), cur as int),
        decreases input@.len() - cur,
    {
        let mut stop: bool = false;
        match sigspec(input, cur) {
            Some((v, j)) => {
                match characters::sep(input, j) {
                    Some(k) => {
                        proof {
                            let (rest, e) = spec_sigspec_list(input@, k as int);
                            assert(spec_sigspec_list(input@, cur as int) == (
                                seq![v@] + rest,
                                e,
                            ));
                            lemma_view_sigspec_seq(items@);
                            lemma_view_sigspec_seq(items@.push(v));
                            assert(view_sigspec_seq(items@.push(v)) =~= view_sigspec_seq(
                                items@,
                            ).push(v@));
                            assert(view_sigspec_seq(items@) + (seq![v@] + rest)
                                =~= view_sigspec_seq(items@.push(v)) + rest);
                        }
                        items.push(v);
                        cur = k;
                    },
                    None => {
                        stop = true;
                    },
                }
            },
            None => {
                stop = true;
            },
        }
        if stop {
            proof {
                assert(spec_sigspec_list(input@, cur as int) == (
                    Seq::<SigSpecV>::empty(),
                    cur as int,
                ));
                assert(view_sigspec_seq(items@) + Seq::<SigSpecV>::empty() =~= view_sigspec_seq(
                    items@,
                ));
            }
            break ;
        }
    }
    if cur < input.len() && input[cur] == '}' {
        proof {
            assert(view_sigspec(SigSpec::Concat(items)) == SigSpecV::Concat(
                view_sigspec_seq(items@),
            ));
        }
        Some((SigSpec::Concat(items), cur + 1))
    } else {
        None
    }
}

} // verus!
