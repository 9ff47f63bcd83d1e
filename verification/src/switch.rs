//! Switches and cases.
//!
//! A switch tests a signal against its cases in written order; a case with
//! no compare list is the default.  A case body holds assignments and
//! further switches, so the grammar is mutually recursive to unbounded
//! depth; every recursive step consumes input, so it terminates.

use vstd::prelude::*;

use crate::ast::Case;
use crate::ast::CaseBody;
use crate::ast::CaseBodyV;
use crate::ast::CaseV;
use crate::ast::Constant;
use crate::ast::ConstantV;
use crate::ast::SigSpec;
use crate::ast::SigSpecV;
use crate::ast::Switch;
use crate::ast::SwitchV;
use crate::ast::lemma_view_case_body_seq;
use crate::ast::lemma_view_case_seq;
use crate::ast::lemma_view_sigspec_seq;
use crate::ast::view_case;
use crate::ast::view_case_body;
use crate::ast::view_case_body_seq;
use crate::ast::view_case_seq;
use crate::ast::view_sigspec_seq;
use crate::ast::view_switch;
use crate::attribute;
use crate::attribute::spec_attrs;
use crate::characters;
use crate::characters::spec_end_stmt;
use crate::characters::spec_eol;
use crate::characters::spec_sep;
use crate::characters::spec_tag;
use crate::characters::str_to_chars;
use crate::characters::tag;
use crate::dict::Dict;
use crate::dict::assoc_wf;
use crate::process;
use crate::process::spec_assign_stmt;
use crate::sigspec;
use crate::sigspec::spec_sigspec;

verus! {

/// A switch header: any attribute statements, the keyword, the signal to
/// test, and the end of the line.
pub open spec fn spec_switch_stmt(s: Seq<char>, i: int) -> Option<
    ((Seq<(Seq<char>, ConstantV)>, SigSpecV), int),
> {
    let (ad, i1) = spec_attrs(s, i, Seq::empty());
    if 0 <= i1 <= s.len() {
        match spec_tag(s, i1, "switch"@) {
            None => None,
            Some(i2) => match spec_sep(s, i2) {
                None => None,
                Some(i3) => match spec_sigspec(s, i3) {
                    None => None,
                    Some((sig, i4)) => match spec_eol(s, i4) {
                        None => None,
                        Some(i5) => Some(((ad, sig), i5)),
                    },
                },
            },
        }
    } else {
        None
    }
}

/// A switch: its header, its cases, and the `end` terminator.
pub open spec fn spec_switch(s: Seq<char>, i: int) -> Option<(SwitchV, int)>
    decreases s.len() - i, 0int,
{
    match spec_switch_stmt(s, i) {
        None => None,
        Some(((ad, on), i1)) => {
            if i < i1 <= s.len() {
                let (cases, i2) = spec_case_list(s, i1);
                if 0 <= i2 <= s.len() {
                    match spec_end_stmt(s, i2) {
                        None => None,
                        Some(i3) => Some(
                            (SwitchV { attributes: ad, switch_on_sigspec: on, cases }, i3),
                        ),
                    }
                } else {
                    None
                }
            } else {
                None
            }
        },
    }
}

/// The longest run of cases starting at `i`.
pub open spec fn spec_case_list(s: Seq<char>, i: int) -> (Seq<CaseV>, int)
    decreases s.len() - i, 1int,
{
    match spec_case(s, i) {
        Some((c, j)) => {
            if i < j <= s.len() {
                let (rest, e) = spec_case_list(s, j);
                (seq![c] + rest, e)
            } else {
                (Seq::empty(), i)
            }
        },
        None => (Seq::empty(), i),
    }
}

/// A case: any attribute statements, the case statement with its optional
/// compare list, and its body.
pub open spec fn spec_case(s: Seq<char>, i: int) -> Option<(CaseV, int)>
    decreases s.len() - i, 0int,
{
    let (ad, i1) = spec_attrs(s, i, Seq::empty());
    if 0 <= i1 <= s.len() {
        match spec_case_stmt(s, i1) {
            None => None,
            Some((cmp, i2)) => {
                if i < i2 <= s.len() {
                    let (bodies, i3) = spec_case_body_list(s, i2);
                    Some((CaseV { attributes: ad, compare_against: cmp, case_bodies: bodies }, i3))
                } else {
                    None
                }
            },
        }
    } else {
        None
    }
}

/// A case statement: the keyword, a separator, the optional compare list,
/// and the end of the line.  An absent compare list marks the default
/// case.
pub open spec fn spec_case_stmt(s: Seq<char>, i: int) -> Option<(Option<Seq<SigSpecV>>, int)> {
    match spec_tag(s, i, "case"@) {
        None => None,
        Some(i1) => match spec_sep(s, i1) {
            None => None,
            Some(i2) => match spec_compare(s, i2) {
                Some((l, j)) => match spec_eol(s, j) {
                    None => None,
                    Some(e) => Some((Some(l), e)),
                },
                None => match spec_eol(s, i2) {
                    None => None,
                    Some(e) => Some((None, e)),
                },
            },
        },
    }
}

/// A compare list: one signal specification, then any number more, each
/// introduced by a comma between separators.
pub open spec fn spec_compare(s: Seq<char>, i: int) -> Option<(Seq<SigSpecV>, int)> {
    match spec_sigspec(s, i) {
        None => None,
        Some((v, j)) => {
            if i < j <= s.len() {
                let (rest, e) = spec_compare_more(s, j);
                Some((seq![v] + rest, e))
            } else {
                None
            }
        },
    }
}

/// The longest run of further compare-list elements, each introduced by a
/// comma between separators.
pub open spec fn spec_compare_more(s: Seq<char>, i: int) -> (Seq<SigSpecV>, int)
    decreases s.len() - i,
{
    match spec_sep(s, i) {
        Some(k1) => {
            if 0 <= k1 < s.len() && s[k1] == ',' {
                match spec_sep(s, k1 + 1) {
                    Some(k2) => {
                        if 0 <= k2 <= s.len() {
                            match spec_sigspec(s, k2) {
                                Some((v, j)) => {
                                    if i < j <= s.len() {
                                        let (rest, e) = spec_compare_more(s, j);
                                        (seq![v] + rest, e)
                                    } else {
                                        (Seq::empty(), i)
                                    }
                                },
                                None => (Seq::empty(), i),
                            }
                        } else {
                            (Seq::empty(), i)
                        }
                    },
                    None => (Seq::empty(), i),
                }
            } else {
                (Seq::empty(), i)
            }
        },
        None => (Seq::empty(), i),
    }
}

/// The longest run of case-body elements: nested switches and assignments,
/// in written order.
pub open spec fn spec_case_body_list(s: Seq<char>, i: int) -> (Seq<CaseBodyV>, int)
    decreases s.len() - i, 1int,
{
    match spec_switch(s, i) {
        Some((sw, j)) => {
            if i < j <= s.len() {
                let (rest, e) = spec_case_body_list(s, j);
                (seq![CaseBodyV::Switch(sw)] + rest, e)
            } else {
                (Seq::empty(), i)
            }
        },
        None => match spec_assign_stmt(s, i) {
            Some(((dst, src), j)) => {
                if i < j <= s.len() {
                    let (rest, e) = spec_case_body_list(s, j);
                    (seq![CaseBodyV::Assign(dst, src)] + rest, e)
                } else {
                    (Seq::empty(), i)
                }
            },
            None => (Seq::empty(), i),
        },
    }
}

/// Consume a switch header, yielding its attributes and the tested signal.
pub fn switch_stmt(input: &Vec<char>, pos: usize) -> (r: Option<((Dict<Constant>, SigSpec), usize)>)
    requires
        pos <= input@.len(),
    ensures
        match r {
            Some(((ad, sig), p)) => spec_switch_stmt(input@, pos as int) == Some(
                ((ad@, sig@), p as int),
            ) && pos < p <= input@.len() && assoc_wf(ad@),
            None => spec_switch_stmt(input@, pos as int) is None,
        },
{
    let (ad, i1) = attribute::attrs(input, pos);
    let kw = str_to_chars("switch");
    let i2 = match tag(input, i1, &kw) {
        Some(p) => p,
        None => {
            return None;
        },
    };
    let i3 = match characters::sep(input, i2) {
        Some(p) => p,
        None => {
            return None;
        },
    };
    let (sig, i4) = match sigspec::sigspec(input, i3) {
        Some(x) => x,
        None => {
            return None;
        },
    };
    let i5 = match characters::eol(input, i4) {
        Some(p) => p,
        None => {
            return None;
        },
    };
    Some(((ad, sig), i5))
}

/// Consume a switch with its cases.
pub fn switch(input: &Vec<char>, pos: usize) -> (r: Option<(Switch, usize)>)
    requires
        pos <= input@.len(),
    ensures
        match r {
            Some((sw, p)) => spec_switch(input@, pos as int) == Some((sw@, p as int)) && pos < p
                <= input@.len(),
            None => spec_switch(input@, pos as int) is None,
        },
    decreases input@.len() - pos, 0int,
{
    let ((ad, on), i1) = match switch_stmt(input, pos) {
        Some(x) => x,
        None => {
            return None;
        },
    };
    let mut cases: Vec<Case> = Vec::new();
    let mut cur: usize = i1;
    proof {
        let (l0, e0) = spec_case_list(input@, i1 as int);
        lemma_view_case_seq(cases@);
        assert(view_case_seq(cases@) + l0 =~= l0);
    }
    loop
        invariant
            pos < i1 <= cur <= input@.len(),
            ({
                let (l0, e0) = spec_case_list(input@, i1 as int);
                let (l1, e1) = spec_case_list(input@, cur as int);
                l0 == view_case_seq(cases@) + l1 && e0 == e1
            }),
        ensures
            pos < i1 <= cur <= input@.len(),
            spec_case_list(input@, i1 as int) == (view_case_seq(cases@), cur as int),
        decreases input@.len() - cur,
    {
        match case(input, cur) {
            Some((c, j)) => {
                proof {
                    let (rest, e) = spec_case_list(input@, j as int);
                    assert(spec_case_list(input@, cur as int) == (seq![view_case(c)] + rest, e));
                    lemma_view_case_seq(cases@);
                    lemma_view_case_seq(cases@.push(c));
                    assert(view_case_seq(cases@.push(c)) =~= view_case_seq(cases@).push(
                        view_case(c),
                    ));
                    assert(view_case_seq(cases@) + (seq![view_case(c)] + rest) =~= view_case_seq(
                        cases@.push(c),
                    ) + rest);
                }
                cases.push(c);
                cur = j;
            },
            None => {
                proof {
                    assert(spec_case_list(input@, cur as int) == (
                        Seq::<CaseV>::empty(),
                        cur as int,
                    ));
                    assert(view_case_seq(cases@) + Seq::<CaseV>::empty() =~= view_case_seq(
                        cases@,
                    ));
                }
                break ;
            },
        }
    }
    let i3 = match characters::end_stmt(input, cur) {
        Some(p) => p,
        None => {
            return None;
        },
    };
    proof {
        assert(view_switch(Switch { attributes: ad, switch_on_sigspec: on, cases }) == SwitchV {
            attributes: ad@,
            switch_on_sigspec: on@,
            cases: view_case_seq(cases@),
        });
    }
    Some((Switch { attributes: ad, switch_on_sigspec: on, cases }, i3))
}

/// Consume a case with its attributes and body.
pub fn case(input: &Vec<char>, pos: usize) -> (r: Option<(Case, usize)>)
    requires
        pos <= input@.len(),
    ensures
        match r {
            Some((c, p)) => spec_case(input@, pos as int) == Some((c@, p as int)) && pos < p
                <= input@.len(),
            None => spec_case(input@, pos as int) is None,
        },
    decreases input@.len() - pos, 0int,
{
    let (ad, i1) = attribute::attrs(input, pos);
    let (cmp, i2) = match case_stmt(input, i1) {
        Some(x) => x,
        None => {
            return None;
        },
    };
    let (bodies, i3) = case_body(input, i2);
    proof {
        assert(view_case(Case { attributes: ad, compare_against: cmp, case_bodies: bodies })
            == CaseV {
            attributes: ad@,
            compare_against: match cmp {
                Some(v) => Some(view_sigspec_seq(v@)),
                None => None,
            },
            case_bodies: view_case_body_seq(bodies@),
        });
    }
    Some((Case { attributes: ad, compare_against: cmp, case_bodies: bodies }, i3))
}

/// Consume a case statement, yielding the optional compare list.
pub fn case_stmt(input: &Vec<char>, pos: usize) -> (r: Option<(Option<Vec<SigSpec>>, usize)>)
    requires
        pos <= input@.len(),
    ensures
        match r {
            Some((cmp, p)) => pos < p <= input@.len() && spec_case_stmt(input@, pos as int)
                == Some(
                (
                    match cmp {
                        Some(v) => Some(view_sigspec_seq(v@)),
                        None => None,
                    },
                    p as int,
                ),
            ),
            None => spec_case_stmt(input@, pos as int) is None,
        },
{
    let kw = str_to_chars("case");
    let i1 = match tag(input, pos, &kw) {
        Some(p) => p,
        None => {
            return None;
        },
    };
    let i2 = match characters::sep(input, i1) {
        Some(p) => p,
        None => {
            return None;
        },
    };
    match compare(input, i2) {
        Some((l, j)) => {
            match characters::eol(input, j) {
                Some(e) => Some((Some(l), e)),
                None => None,
            }
        },
        None => {
            match characters::eol(input, i2) {
                Some(e) => Some((None, e)),
                None => None,
            }
        },
    }
}

/// Consume a compare list.
pub fn compare(input: &Vec<char>, pos: usize) -> (r: Option<(Vec<SigSpec>, usize)>)
    requires
        pos <= input@.len(),
    ensures
        match r {
            Some((l, p)) => spec_compare(input@, pos as int) == Some(
                (view_sigspec_seq(l@), p as int),
            ) && pos < p <= input@.len(),
            None => spec_compare(input@, pos as int) is None,
        },
{
    let (v0, j0) = match sigspec::sigspec(input, pos) {
        Some(x) => x,
        None => {
            return None;
        },
    };
    let mut items: Vec<SigSpec> = Vec::new();
    items.push(v0);
    let mut cur: usize = j0;
    proof {
        lemma_view_sigspec_seq(items@);
        let (rest, e) = spec_compare_more(input@, j0 as int);
        assert(view_sigspec_seq(items@) =~= seq![v0@]);
    }
    loop
        invariant
            pos < j0 <= cur <= input@.len(),
            items@.len() >= 1,
            ({
                let (rest, e) = spec_compare_more(input@, cur as int);
                spec_compare(input@, pos as int) == Some(
                    (view_sigspec_seq(items@) + rest, e),
                )
            }),
        ensures
            pos < cur <= input@.len(),
            spec_compare(input@, pos as int) == Some((view_sigspec_seq(items@), cur as int)),
        decreases input@.len() - cur,
    {
        let mut stop: bool = false;
        match characters::sep(input, cur) {
            Some(k1) => {
                if k1 < input.len() && input[k1] == ',' {
                    match characters::sep(input, k1 + 1) {
                        Some(k2) => {
                            match sigspec::sigspec(input, k2) {
                                Some((v, j)) => {
                                    proof {
                                        let (rest, e) = spec_compare_more(input@, j as int);
                                        assert(spec_compare_more(input@, cur as int) == (
                                            seq![v@] + rest,
                                            e,
                                        ));
                                        lemma_view_sigspec_seq(items@);
                                        lemma_view_sigspec_seq(items@.push(v));
                                        assert(view_sigspec_seq(items@.push(v))
                                            =~= view_sigspec_seq(items@).push(v@));
                                        assert(view_sigspec_seq(items@) + (seq![v@] + rest)
                                            =~= view_sigspec_seq(items@.push(v)) + rest);
                                    }
                                    items.push(v);
                                    cur = j;
                                },
                                None => {
                                    stop = true;
                                },
                            }
                        },
                        None => {
                            stop = true;
                        },
                    }
                } else {
                    stop = true;
                }
            },
            None => {
                stop = true;
            },
        }
        if stop {
            proof {
                assert(spec_compare_more(input@, cur as int) == (
                    Seq::<SigSpecV>::empty(),
                    cur as int,
                ));
                assert(view_sigspec_seq(items@) + Seq::<SigSpecV>::empty() =~= view_sigspec_seq(
                    items@,
                ));
            }
            break ;
        }
    }
    Some((items, cur))
}

/// Consume a switch terminator: `end` and the end of the line.
pub fn switch_end_stmt(input: &Vec<char>, pos: usize) -> (r: Option<usize>)
    requires
        pos <= input@.len(),
    ensures
        match r {
            Some(p) => spec_end_stmt(input@, pos as int) == Some(p as int) && pos < p
                <= input@.len(),
            None => spec_end_stmt(input@, pos as int) is None,
        },
{
    characters::end_stmt(input, pos)
}

/// Consume the longest run of case-body elements.
pub fn case_body(input: &Vec<char>, pos: usize) -> (r: (Vec<CaseBody>, usize))
    requires
        pos <= input@.len(),
    ensures
        spec_case_body_list(input@, pos as int) == (view_case_body_seq(r.0@), r.1 as int),
        pos <= r.1 <= input@.len(),
    decreases input@.len() - pos, 1int,
{
    let mut items: Vec<CaseBody> = Vec::new();
    let mut cur: usize = pos;
    proof {
        let (l0, e0) = spec_case_body_list(input@, pos as int);
        lemma_view_case_body_seq(items@);
        assert(view_case_body_seq(items@) + l0 =~= l0);
    }
    loop
        invariant
            pos <= cur <= input@.len(),
            ({
                let (l0, e0) = spec_case_body_list(input@, pos as int);
                let (l1, e1) = spec_case_body_list(input@, cur as int);
                l0 == view_case_body_seq(items@) + l1 && e0 == e1
            }),
        ensures
            pos <= cur <= input@.len(),
            spec_case_body_list(input@, pos as int) == (view_case_body_seq(items@), cur as int),
        decreases input@.len() - cur,
    {
        let mut stop: bool = false;
        match switch(input, cur) {
            Some((sw, j)) => {
                let b = CaseBody::Switch(sw);
                proof {
                    let (rest, e) = spec_case_body_list(input@, j as int);
                    assert(spec_case_body_list(input@, cur as int) == (
                        seq![view_case_body(b)] + rest,
                        e,
                    ));
                    lemma_view_case_body_seq(items@);
                    lemma_view_case_body_seq(items@.push(b));
                    assert(view_case_body_seq(items@.push(b)) =~= view_case_body_seq(
                        items@,
                    ).push(view_case_body(b)));
                    assert(view_case_body_seq(items@) + (seq![view_case_body(b)] + rest)
                        =~= view_case_body_seq(items@.push(b)) + rest);
                }
                items.push(b);
                cur = j;
            },
            None => {
                match process::assign_stmt(input, cur) {
                    Some(((dst, src), j)) => {
                        let b = CaseBody::Assign(dst, src);
                        proof {
                            let (rest, e) = spec_case_body_list(input@, j as int);
                            assert(spec_case_body_list(input@, cur as int) == (
                                seq![view_case_body(b)] + rest,
                                e,
                            ));
                            lemma_view_case_body_seq(items@);
                            lemma_view_case_body_seq(items@.push(b));
                            assert(view_case_body_seq(items@.push(b)) =~= view_case_body_seq(
                                items@,
                            ).push(view_case_body(b)));
                            assert(view_case_body_seq(items@) + (seq![view_case_body(b)] + rest)
                                =~= view_case_body_seq(items@.push(b)) + rest);
                        }
                        items.push(b);
                        cur = j;
                    },
                    None => {
                        stop = true;
                    },
                }
            },
        }
        if stop {
            proof {
                assert(spec_case_body_list(input@, cur as int) == (
                    Seq::<CaseBodyV>::empty(),
                    cur as int,
                ));
                assert(view_case_body_seq(items@) + Seq::<CaseBodyV>::empty()
                    =~= view_case_body_seq(items@));
            }
            break ;
        }
    }
    (items, cur)
}

} // verus!
