//! Processes.
//!
//! A process names a sequential block: its body holds assignments, then
//! switch constructs, then sync blocks, closed by an `end` terminator.
//! Each group keeps its written order.

use vstd::prelude::*;

use crate::ast::Process;
use crate::ast::ProcessV;
use crate::ast::process_v_wf;
use crate::ast::SigSpec;
use crate::ast::SigSpecV;
use crate::ast::Switch;
use crate::ast::SwitchV;
use crate::ast::Sync;
use crate::ast::SyncV;
use crate::ast::lemma_map_values_push;
use crate::ast::view_sigpair_seq;
use crate::ast::view_switch;
use crate::ast::view_switch_list;
use crate::ast::view_sync_list;
use crate::attribute;
use crate::attribute::spec_attrs;
use crate::characters;
use crate::characters::spec_end_stmt;
use crate::characters::spec_eol;
use crate::characters::spec_sep;
use crate::characters::spec_skip_sep;
use crate::characters::spec_tag;
use crate::characters::str_to_chars;
use crate::characters::tag;
use crate::identifier;
use crate::identifier::spec_id;
use crate::sigspec;
use crate::sigspec::spec_sigspec;
use crate::switch;
use crate::switch::spec_switch;
use crate::sync;
use crate::sync::spec_sync;

verus! {

/// A process statement: the keyword, the process identifier, and the end
/// of the line.
pub open spec fn spec_process_stmt(s: Seq<char>, i: int) -> Option<(Seq<char>, int)> {
    match spec_tag(s, i, "process"@) {
        None => None,
        Some(i1) => match spec_sep(s, i1) {
            None => None,
            Some(i2) => match spec_id(s, i2) {
                None => None,
                Some((name, i3)) => match spec_eol(s, i3) {
                    None => None,
                    Some(i4) => Some((name.text(), i4)),
                },
            },
        },
    }
}

/// Consume a process statement, yielding the process name.
pub fn process_stmt(input: &Vec<char>, pos: usize) -> (r: Option<(String, usize)>)
    requires
        pos <= input@.len(),
    ensures
        match r {
            Some((name, p)) => spec_process_stmt(input@, pos as int) == Some((name@, p as int))
                && pos < p <= input@.len(),
            None => spec_process_stmt(input@, pos as int) is None,
        },
{
    let kw = str_to_chars("process");
    let i1 = match tag(input, pos, &kw) {
        Some(p) => p,
        None => {
            return None;
        },
    };
    let i2 = match characters::sep(input, i1) {
        Some(p) => p,
        None => {
            return None;
        },
    };
    let (name, i3) = match identifier::id(input, i2) {
        Some(x) => x,
        None => {
            return None;
        },
    };
    let i4 = match characters::eol(input, i3) {
        Some(p) => p,
        None => {
            return None;
        },
    };
    Some((name.erease(), i4))
}

/// Consume a process terminator: `end` and the end of the line.
pub fn process_end_stmt(input: &Vec<char>, pos: usize) -> (r: Option<usize>)
    requires
        pos <= input@.len(),
    ensures
        match r {
            Some(p) => spec_end_stmt(input@, pos as int) == Some(p as int) && pos < p
                <= input@.len(),
            None => spec_end_stmt(input@, pos as int) is None,
        },
{
    characters::end_stmt(input, pos)
}

/// An assignment statement: the keyword and the destination and source
/// signals.
pub open spec fn spec_assign_stmt(s: Seq<char>, i: int) -> Option<((SigSpecV, SigSpecV), int)> {
    match spec_tag(s, i, "assign"@) {
        None => None,
        Some(i1) => match spec_sep(s, i1) {
            None => None,
            Some(i2) => match spec_sigspec(s, i2) {
                None => None,
                Some((dst, i3)) => match spec_sep(s, i3) {
                    None => None,
                    Some(i4) => match spec_sigspec(s, i4) {
                        None => None,
                        Some((src, i5)) => match spec_eol(s, i5) {
                            None => None,
                            Some(i6) => Some(((dst, src), i6)),
                        },
                    },
                },
            },
        },
    }
}

/// Consume an assignment statement.
pub fn assign_stmt(input: &Vec<char>, pos: usize) -> (r: Option<((SigSpec, SigSpec), usize)>)
    requires
        pos <= input@.len(),
    ensures
        match r {
            Some(((dst, src), p)) => spec_assign_stmt(input@, pos as int) == Some(
                ((dst@, src@), p as int),
            ) && pos < p <= input@.len(),
            None => spec_assign_stmt(input@, pos as int) is None,
        },
{
    let kw = str_to_chars("assign");
    let i1 = match tag(input, pos, &kw) {
        Some(p) => p,
        None => {
            return None;
        },
    };
    let i2 = match characters::sep(input, i1) {
        Some(p) => p,
        None => {
            return None;
        },
    };
    let (dst, i3) = match sigspec::sigspec(input, i2) {
        Some(x) => x,
        None => {
            return None;
        },
    };
    let i4 = match characters::sep(input, i3) {
        Some(p) => p,
        None => {
            return None;
        },
    };
    let (src, i5) = match sigspec::sigspec(input, i4) {
        Some(x) => x,
        None => {
            return None;
        },
    };
    let i6 = match characters::eol(input, i5) {
        Some(p) => p,
        None => {
            return None;
        },
    };
    Some(((dst, src), i6))
}

/// The longest run of assignment statements.
pub open spec fn spec_assign_list(s: Seq<char>, i: int) -> (Seq<(SigSpecV, SigSpecV)>, int)
    decreases s.len() - i,
{
    match spec_assign_stmt(s, i) {
        Some((a, j)) => {
            if i < j <= s.len() {
                let (rest, e) = spec_assign_list(s, j);
                (seq![a] + rest, e)
            } else {
                (Seq::empty(), i)
            }
        },
        None => (Seq::empty(), i),
    }
}

/// The longest run of switch constructs.
pub open spec fn spec_switch_seq(s: Seq<char>, i: int) -> (Seq<SwitchV>, int)
    decreases s.len() - i,
{
    match spec_switch(s, i) {
        Some((sw, j)) => {
            if i < j <= s.len() {
                let (rest, e) = spec_switch_seq(s, j);
                (seq![sw] + rest, e)
            } else {
                (Seq::empty(), i)
            }
        },
        None => (Seq::empty(), i),
    }
}

/// The longest run of sync blocks.
pub open spec fn spec_sync_seq(s: Seq<char>, i: int) -> (Seq<SyncV>, int)
    decreases s.len() - i,
{
    match spec_sync(s, i) {
        Some((sy, j)) => {
            if i < j <= s.len() {
                let (rest, e) = spec_sync_seq(s, j);
                (seq![sy] + rest, e)
            } else {
                (Seq::empty(), i)
            }
        },
        None => (Seq::empty(), i),
    }
}

/// A process: any leading separators and attribute statements, the process
/// statement, its assignments, switches and sync blocks, and the `end`
/// terminator.
pub open spec fn spec_process(s: Seq<char>, i: int) -> Option<((Seq<char>, ProcessV), int)> {
    let i0 = spec_skip_sep(s, i);
    if 0 <= i0 <= s.len() {
        let (ad, i1) = spec_attrs(s, i0, Seq::empty());
        if 0 <= i1 <= s.len() {
            match spec_process_stmt(s, i1) {
                None => None,
                Some((name, i2)) => {
                    if 0 <= i2 <= s.len() {
                        let (assigns, i3) = spec_assign_list(s, i2);
                        if 0 <= i3 <= s.len() {
                            let (switches, i4) = spec_switch_seq(s, i3);
                            if 0 <= i4 <= s.len() {
                                let (syncs, i5) = spec_sync_seq(s, i4);
                                if 0 <= i5 <= s.len() {
                                    match spec_end_stmt(s, i5) {
                                        None => None,
                                        Some(i6) => Some(
                                            (
                                                (
                                                    name,
                                                    ProcessV {
                                                        attributes: ad,
                                                        assignments: assigns,
                                                        switches,
                                                        syncs,
                                                    },
                                                ),
                                                i6,
                                            ),
                                        ),
                                    }
                                } else {
                                    None
                                }
                            } else {
                                None
                            }
                        } else {
                            None
                        }
                    } else {
                        None
                    }
                },
            }
        } else {
            None
        }
    } else {
        None
    }
}

/// Consume a process, yielding it keyed by its name.
pub fn process(input: &Vec<char>, pos: usize) -> (r: Option<((String, Process), usize)>)
    requires
        pos <= input@.len(),
    ensures
        match r {
            Some(((name, pr), p)) => spec_process(input@, pos as int) == Some(
                ((name@, pr@), p as int),
            ) && pos < p <= input@.len() && process_v_wf(pr@),
            None => spec_process(input@, pos as int) is None,
        },
{
    let mut i0: usize = pos;
    while i0 < input.len() && characters::is_sep(input[i0])
        invariant
            pos <= i0 <= input@.len(),
            spec_skip_sep(input@, pos as int) == spec_skip_sep(input@, i0 as int),
        decreases input@.len() - i0,
    {
        i0 += 1;
    }
    proof {
        assert(i0 as int == spec_skip_sep(input@, pos as int));
    }
    let (ad, i1) = attribute::attrs(input, i0);
    let (name, i2) = match process_stmt(input, i1) {
        Some(x) => x,
        None => {
            return None;
        },
    };
    let mut assigns: Vec<(SigSpec, SigSpec)> = Vec::new();
    let mut cur: usize = i2;
    proof {
        let (l0, e0) = spec_assign_list(input@, i2 as int);
        assert(view_sigpair_seq(assigns@) + l0 =~= l0);
    }
    loop
        invariant
            pos < i2 <= cur <= input@.len(),
            ({
                let (l0, e0) = spec_assign_list(input@, i2 as int);
                let (l1, e1) = spec_assign_list(input@, cur as int);
                l0 == view_sigpair_seq(assigns@) + l1 && e0 == e1
            }),
        ensures
            pos < i2 <= cur <= input@.len(),
            spec_assign_list(input@, i2 as int) == (view_sigpair_seq(assigns@), cur as int),
        decreases input@.len() - cur,
    {
        match assign_stmt(input, cur) {
            Some((a, j)) => {
                proof {
                    let (rest, e) = spec_assign_list(input@, j as int);
                    assert(spec_assign_list(input@, cur as int) == (seq![(a.0@, a.1@)] + rest, e));
                    lemma_map_values_push(
                        assigns@,
                        |p: (SigSpec, SigSpec)| (p.0@, p.1@),
                        a,
                    );
                    assert(view_sigpair_seq(assigns@) + (seq![(a.0@, a.1@)] + rest)
                        =~= view_sigpair_seq(assigns@.push(a)) + rest);
                }
                assigns.push(a);
                cur = j;
            },
            None => {
                proof {
                    assert(spec_assign_list(input@, cur as int) == (
                        Seq::<(SigSpecV, SigSpecV)>::empty(),
                        cur as int,
                    ));
                    assert(view_sigpair_seq(assigns@) + Seq::<(SigSpecV, SigSpecV)>::empty()
                        =~= view_sigpair_seq(assigns@));
                }
                break ;
            },
        }
    }
    let mut switches: Vec<Switch> = Vec::new();
    let ghost i3 = cur as int;
    proof {
        let (l0, e0) = spec_switch_seq(input@, i3);
        assert(view_switch_list(switches@) + l0 =~= l0);
    }
    loop
        invariant
            pos < i3 <= cur <= input@.len(),
            ({
                let (l0, e0) = spec_switch_seq(input@, i3);
                let (l1, e1) = spec_switch_seq(input@, cur as int);
                l0 == view_switch_list(switches@) + l1 && e0 == e1
            }),
        ensures
            pos < i3 <= cur <= input@.len(),
            spec_switch_seq(input@, i3) == (view_switch_list(switches@), cur as int),
        decreases input@.len() - cur,
    {
        match switch::switch(input, cur) {
            Some((sw, j)) => {
                proof {
                    let (rest, e) = spec_switch_seq(input@, j as int);
                    assert(spec_switch_seq(input@, cur as int) == (
                        seq![view_switch(sw)] + rest,
                        e,
                    ));
                    lemma_map_values_push(switches@, |x: Switch| view_switch(x), sw);
                    assert(view_switch_list(switches@) + (seq![view_switch(sw)] + rest)
                        =~= view_switch_list(switches@.push(sw)) + rest);
                }
                switches.push(sw);
                cur = j;
            },
            None => {
                proof {
                    assert(spec_switch_seq(input@, cur as int) == (
                        Seq::<SwitchV>::empty(),
                        cur as int,
                    ));
                    assert(view_switch_list(switches@) + Seq::<SwitchV>::empty()
                        =~= view_switch_list(switches@));
                }
                break ;
            },
        }
    }
    let mut syncs: Vec<Sync> = Vec::new();
    let ghost i4 = cur as int;
    proof {
        let (l0, e0) = spec_sync_seq(input@, i4);
        assert(view_sync_list(syncs@) + l0 =~= l0);
    }
    loop
        invariant
            pos < i4 <= cur <= input@.len(),
            ({
                let (l0, e0) = spec_sync_seq(input@, i4);
                let (l1, e1) = spec_sync_seq(input@, cur as int);
                l0 == view_sync_list(syncs@) + l1 && e0 == e1
            }),
        ensures
            pos < i4 <= cur <= input@.len(),
            spec_sync_seq(input@, i4) == (view_sync_list(syncs@), cur as int),
        decreases input@.len() - cur,
    {
        match sync::sync(input, cur) {
            Some((sy, j)) => {
                proof {
                    let (rest, e) = spec_sync_seq(input@, j as int);
                    assert(spec_sync_seq(input@, cur as int) == (seq![sy@] + rest, e));
                    lemma_map_values_push(syncs@, |x: Sync| x@, sy);
                    assert(view_sync_list(syncs@) + (seq![sy@] + rest) =~= view_sync_list(syncs@.push(sy)) + rest);
                }
                syncs.push(sy);
                cur = j;
            },
            None => {
                proof {
                    assert(spec_sync_seq(input@, cur as int) == (
                        Seq::<SyncV>::empty(),
                        cur as int,
                    ));
                    assert(view_sync_list(syncs@) + Seq::<SyncV>::empty() =~= syncs@
                        .map_values(|x: Sync| x@));
                }
                break ;
            },
        }
    }
    let i6 = match characters::end_stmt(input, cur) {
        Some(p) => p,
        None => {
            return None;
        },
    };
    Some(
        (
            (
                name,
                Process { attributes: ad, assignments: assigns, switches, syncs },
            ),
            i6,
        ),
    )
}

} // verus!
