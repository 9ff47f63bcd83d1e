//! Sync blocks.
//!
//! A sync block names the event it triggers on — a level or edge of a
//! signal, the global clock, initialization, or always — and owns ordered
//! update pairs followed by memory-write statements keyed by memory
//! identifier.

use vstd::prelude::*;

use crate::ast::Memwr;
use crate::ast::MemwrV;
use crate::ast::SigSpec;
use crate::ast::SigSpecV;
use crate::ast::SignalSync;
use crate::ast::Sync;
use crate::ast::SyncOn;
use crate::ast::SyncOnV;
use crate::ast::SyncV;
use crate::ast::lemma_map_values_push;
use crate::ast::view_sigpair_seq;
use crate::attribute;
use crate::attribute::spec_attrs;
use crate::characters;
use crate::characters::spec_eol;
use crate::characters::spec_sep;
use crate::characters::spec_tag;
use crate::characters::str_to_chars;
use crate::characters::tag;
use crate::dict::Dict;
use crate::dict::assoc_insert;
use crate::dict::assoc_wf;
use crate::identifier;
use crate::identifier::spec_id;
use crate::sigspec;
use crate::sigspec::spec_sigspec;

verus! {

/// A sync event qualifier: one of `low high posedge negedge edge`.
pub open spec fn spec_sync_type(s: Seq<char>, i: int) -> Option<(SignalSync, int)> {
    match spec_tag(s, i, "low"@) {
        Some(p) => Some((SignalSync::Low, p)),
        None => match spec_tag(s, i, "high"@) {
            Some(p) => Some((SignalSync::High, p)),
            None => match spec_tag(s, i, "posedge"@) {
                Some(p) => Some((SignalSync::Posedge, p)),
                None => match spec_tag(s, i, "negedge"@) {
                    Some(p) => Some((SignalSync::Negedge, p)),
                    None => match spec_tag(s, i, "edge"@) {
                        Some(p) => Some((SignalSync::Edge, p)),
                        None => None,
                    },
                },
            },
        },
    }
}

/// Consume a sync event qualifier.
pub fn sync_type(input: &Vec<char>, pos: usize) -> (r: Option<(SignalSync, usize)>)
    requires
        pos <= input@.len(),
    ensures
        match r {
            Some((k, p)) => spec_sync_type(input@, pos as int) == Some((k, p as int)) && pos <= p
                <= input@.len(),
            None => spec_sync_type(input@, pos as int) is None,
        },
{
    let kw_low = str_to_chars("low");
    match tag(input, pos, &kw_low) {
        Some(p) => {
            return Some((SignalSync::Low, p));
        },
        None => {},
    }
    let kw_high = str_to_chars("high");
    match tag(input, pos, &kw_high) {
        Some(p) => {
            return Some((SignalSync::High, p));
        },
        None => {},
    }
    let kw_posedge = str_to_chars("posedge");
    match tag(input, pos, &kw_posedge) {
        Some(p) => {
            return Some((SignalSync::Posedge, p));
        },
        None => {},
    }
    let kw_negedge = str_to_chars("negedge");
    match tag(input, pos, &kw_negedge) {
        Some(p) => {
            return Some((SignalSync::Negedge, p));
        },
        None => {},
    }
    let kw_edge = str_to_chars("edge");
    match tag(input, pos, &kw_edge) {
        Some(p) => Some((SignalSync::Edge, p)),
        None => None,
    }
}

/// A sync statement: the keyword and the event — `global`, `init`,
/// `always`, or a qualifier with its signal — then the end of the line.
pub open spec fn spec_sync_stmt(s: Seq<char>, i: int) -> Option<(SyncOnV, int)> {
    match spec_tag(s, i, "sync"@) {
        None => None,
        Some(i1) => match spec_sep(s, i1) {
            None => None,
            Some(i2) => match spec_sync_event(s, i2) {
                None => None,
                Some((ev, i3)) => match spec_eol(s, i3) {
                    None => None,
                    Some(i4) => Some((ev, i4)),
                },
            },
        },
    }
}

/// The event of a sync statement, without the line end.
pub open spec fn spec_sync_event(s: Seq<char>, i: int) -> Option<(SyncOnV, int)> {
    match spec_tag(s, i, "global"@) {
        Some(p) => Some((SyncOnV::Global, p)),
        None => match spec_tag(s, i, "init"@) {
            Some(p) => Some((SyncOnV::Init, p)),
            None => match spec_tag(s, i, "always"@) {
                Some(p) => Some((SyncOnV::Always, p)),
                None => match spec_sync_type(s, i) {
                    None => None,
                    Some((k, j)) => match spec_sep(s, j) {
                        None => None,
                        Some(j1) => match spec_sigspec(s, j1) {
                            None => None,
                            Some((sig, j2)) => Some((SyncOnV::Signal(k, sig), j2)),
                        },
                    },
                },
            },
        },
    }
}

/// Consume a sync statement, yielding the event.
pub fn sync_stmt(input: &Vec<char>, pos: usize) -> (r: Option<(SyncOn, usize)>)
    requires
        pos <= input@.len(),
    ensures
        match r {
            Some((ev, p)) => spec_sync_stmt(input@, pos as int) == Some((ev@, p as int)) && pos < p
                <= input@.len(),
            None => spec_sync_stmt(input@, pos as int) is None,
        },
{
    let kw = str_to_chars("sync");
    let i1 = match tag(input, pos, &kw) {
        Some(p) => p,
        None => {
            return None;
        },
    };
    let i2 = match characters::sep(input, i1) {
        Some(p) => p,
        None => {
            return None;
        },
    };
    let (ev, i3) = match sync_event(input, i2) {
        Some(x) => x,
        None => {
            return None;
        },
    };
    let i4 = match characters::eol(input, i3) {
        Some(p) => p,
        None => {
            return None;
        },
    };
    Some((ev, i4))
}

/// Consume the event of a sync statement.
fn sync_event(input: &Vec<char>, pos: usize) -> (r: Option<(SyncOn, usize)>)
    requires
        pos <= input@.len(),
    ensures
        match r {
            Some((ev, p)) => spec_sync_event(input@, pos as int) == Some((ev@, p as int)) && pos
                <= p <= input@.len(),
            None => spec_sync_event(input@, pos as int) is None,
        },
{
    let kw_global = str_to_chars("global");
    match tag(input, pos, &kw_global) {
        Some(p) => {
            return Some((SyncOn::Global, p));
        },
        None => {},
    }
    let kw_init = str_to_chars("init");
    match tag(input, pos, &kw_init) {
        Some(p) => {
            return Some((SyncOn::Init, p));
        },
        None => {},
    }
    let kw_always = str_to_chars("always");
    match tag(input, pos, &kw_always) {
        Some(p) => {
            return Some((SyncOn::Always, p));
        },
        None => {},
    }
    let (k, j) = match sync_type(input, pos) {
        Some(x) => x,
        None => {
            return None;
        },
    };
    let j1 = match characters::sep(input, j) {
        Some(p) => p,
        None => {
            return None;
        },
    };
    let (sig, j2) = match sigspec::sigspec(input, j1) {
        Some(x) => x,
        None => {
            return None;
        },
    };
    Some((SyncOn::Signal(k, sig), j2))
}

/// An update statement: the keyword and the destination and source
/// signals.
pub open spec fn spec_update_stmt(s: Seq<char>, i: int) -> Option<((SigSpecV, SigSpecV), int)> {
    match spec_tag(s, i, "update"@) {
        None => None,
        Some(i1) => match spec_sep(s, i1) {
            None => None,
            Some(i2) => match spec_sigspec(s, i2) {
                None => None,
                Some((dst, i3)) => match spec_sep(s, i3) {
                    None => None,
                    Some(i4) => match spec_sigspec(s, i4) {
                        None => None,
                        Some((src, i5)) => match spec_eol(s, i5) {
                            None => None,
                            Some(i6) => Some(((dst, src), i6)),
                        },
                    },
                },
            },
        },
    }
}

/// Consume an update statement.
pub fn update_stmt(input: &Vec<char>, pos: usize) -> (r: Option<((SigSpec, SigSpec), usize)>)
    requires
        pos <= input@.len(),
    ensures
        match r {
            Some(((dst, src), p)) => spec_update_stmt(input@, pos as int) == Some(
                ((dst@, src@), p as int),
            ) && pos < p <= input@.len(),
            None => spec_update_stmt(input@, pos as int) is None,
        },
{
    let kw = str_to_chars("update");
    let i1 = match tag(input, pos, &kw) {
        Some(p) => p,
        None => {
            return None;
        },
    };
    let i2 = match characters::sep(input, i1) {
        Some(p) => p,
        None => {
            return None;
        },
    };
    let (dst, i3) = match sigspec::sigspec(input, i2) {
        Some(x) => x,
        None => {
            return None;
        },
    };
    let i4 = match characters::sep(input, i3) {
        Some(p) => p,
        None => {
            return None;
        },
    };
    let (src, i5) = match sigspec::sigspec(input, i4) {
        Some(x) => x,
        None => {
            return None;
        },
    };
    let i6 = match characters::eol(input, i5) {
        Some(p) => p,
        None => {
            return None;
        },
    };
    Some(((dst, src), i6))
}

/// A memory-write statement: any attribute statements, the keyword, the
/// memory identifier, and its address, data, enable and priority-mask
/// signals.
pub open spec fn spec_memwr_stmt(s: Seq<char>, i: int) -> Option<((Seq<char>, MemwrV), int)> {
    let (ad, i0) = spec_attrs(s, i, Seq::empty());
    if 0 <= i0 <= s.len() {
        match spec_tag(s, i0, "memwr"@) {
            None => None,
            Some(i1) => match spec_sep(s, i1) {
                None => None,
                Some(i2) => match spec_id(s, i2) {
                    None => None,
                    Some((name, i3)) => match spec_sep(s, i3) {
                        None => None,
                        Some(i4) => match spec_sigspec(s, i4) {
                            None => None,
                            Some((address, i5)) => match spec_sep(s, i5) {
                                None => None,
                                Some(i6) => match spec_sigspec(s, i6) {
                                    None => None,
                                    Some((data, i7)) => match spec_sep(s, i7) {
                                        None => None,
                                        Some(i8) => match spec_sigspec(s, i8) {
                                            None => None,
                                            Some((enable, i9)) => match spec_sep(s, i9) {
                                                None => None,
                                                Some(i10) => match spec_sigspec(s, i10) {
                                                    None => None,
                                                    Some((priority_mask, i11)) => match spec_eol(
                                                        s,
                                                        i11,
                                                    ) {
                                                        None => None,
                                                        Some(i12) => Some(
                                                            (
                                                                (
                                                                    name.text(),
                                                                    MemwrV {
                                                                        attributes: ad,
                                                                        address,
                                                                        data,
                                                                        enable,
                                                                        priority_mask,
                                                                    },
                                                                ),
                                                                i12,
                                                            ),
                                                        ),
                                                    },
                                                },
                                            },
                                        },
                                    },
                                },
                            },
                        },
                    },
                },
            },
        }
    } else {
        None
    }
}

/// Consume a memory-write statement, keyed by its memory identifier.
pub fn memwr_stmt(input: &Vec<char>, pos: usize) -> (r: Option<((String, Memwr), usize)>)
    requires
        pos <= input@.len(),
    ensures
        match r {
            Some(((name, w), p)) => spec_memwr_stmt(input@, pos as int) == Some(
                ((name@, w@), p as int),
            ) && pos < p <= input@.len(),
            None => spec_memwr_stmt(input@, pos as int) is None,
        },
{
    let (ad, i0) = attribute::attrs(input, pos);
    let kw = str_to_chars("memwr");
    let i1 = match tag(input, i0, &kw) {
        Some(p) => p,
        None => {
            return None;
        },
    };
    let i2 = match characters::sep(input, i1) {
        Some(p) => p,
        None => {
            return None;
        },
    };
    let (name, i3) = match identifier::id(input, i2) {
        Some(x) => x,
        None => {
            return None;
        },
    };
    let i4 = match characters::sep(input, i3) {
        Some(p) => p,
        None => {
            return None;
        },
    };
    let (address, i5) = match sigspec::sigspec(input, i4) {
        Some(x) => x,
        None => {
            return None;
        },
    };
    let i6 = match characters::sep(input, i5) {
        Some(p) => p,
        None => {
            return None;
        },
    };
    let (data, i7) = match sigspec::sigspec(input, i6) {
        Some(x) => x,
        None => {
            return None;
        },
    };
    let i8 = match characters::sep(input, i7) {
        Some(p) => p,
        None => {
            return None;
        },
    };
    let (enable, i9) = match sigspec::sigspec(input, i8) {
        Some(x) => x,
        None => {
            return None;
        },
    };
    let i10 = match characters::sep(input, i9) {
        Some(p) => p,
        None => {
            return None;
        },
    };
    let (priority_mask, i11) = match sigspec::sigspec(input, i10) {
        Some(x) => x,
        None => {
            return None;
        },
    };
    let i12 = match characters::eol(input, i11) {
        Some(p) => p,
        None => {
            return None;
        },
    };
    Some(((name.erease(), Memwr { attributes: ad, address, data, enable, priority_mask }), i12))
}

/// The longest run of update statements.
pub open spec fn spec_update_list(s: Seq<char>, i: int) -> (Seq<(SigSpecV, SigSpecV)>, int)
    decreases s.len() - i,
{
    match spec_update_stmt(s, i) {
        Some((u, j)) => {
            if i < j <= s.len() {
                let (rest, e) = spec_update_list(s, j);
                (seq![u] + rest, e)
            } else {
                (Seq::empty(), i)
            }
        },
        None => (Seq::empty(), i),
    }
}

/// The effect of a run of memory-write statements on the map `acc`, keyed
/// by memory identifier, a repeated identifier overwriting the earlier
/// entry.
pub open spec fn spec_memwrs(s: Seq<char>, i: int, acc: Seq<(Seq<char>, MemwrV)>) -> (
    Seq<(Seq<char>, MemwrV)>,
    int,
)
    decreases s.len() - i,
{
    match spec_memwr_stmt(s, i) {
        Some(((k, w), j)) => {
            if i < j <= s.len() {
                spec_memwrs(s, j, assoc_insert(acc, k, w))
            } else {
                (acc, i)
            }
        },
        None => (acc, i),
    }
}

/// A sync block: the sync statement, its updates in written order, and its
/// memory-write statements.
pub open spec fn spec_sync(s: Seq<char>, i: int) -> Option<(SyncV, int)> {
    match spec_sync_stmt(s, i) {
        None => None,
        Some((ev, i1)) => {
            if 0 <= i1 <= s.len() {
                let (updates, i2) = spec_update_list(s, i1);
                if 0 <= i2 <= s.len() {
                    let (memwrs, i3) = spec_memwrs(s, i2, Seq::empty());
                    Some((SyncV { sync_event: ev, updates, memwrs }, i3))
                } else {
                    None
                }
            } else {
                None
            }
        },
    }
}

/// Consume a sync block.
pub fn sync(input: &Vec<char>, pos: usize) -> (r: Option<(Sync, usize)>)
    requires
        pos <= input@.len(),
    ensures
        match r {
            Some((sy, p)) => spec_sync(input@, pos as int) == Some((sy@, p as int)) && pos < p
                <= input@.len(),
            None => spec_sync(input@, pos as int) is None,
        },
{
    let (ev, i1) = match sync_stmt(input, pos) {
        Some(x) => x,
        None => {
            return None;
        },
    };
    let mut updates: Vec<(SigSpec, SigSpec)> = Vec::new();
    let mut cur: usize = i1;
    proof {
        let (l0, e0) = spec_update_list(input@, i1 as int);
        assert(view_sigpair_seq(updates@) + l0 =~= l0);
    }
    loop
        invariant
            pos < i1 <= cur <= input@.len(),
            ({
                let (l0, e0) = spec_update_list(input@, i1 as int);
                let (l1, e1) = spec_update_list(input@, cur as int);
                l0 == view_sigpair_seq(updates@) + l1 && e0 == e1
            }),
        ensures
            pos < i1 <= cur <= input@.len(),
            spec_update_list(input@, i1 as int) == (view_sigpair_seq(updates@), cur as int),
        decreases input@.len() - cur,
    {
        match update_stmt(input, cur) {
            Some((u, j)) => {
                proof {
                    let (rest, e) = spec_update_list(input@, j as int);
                    assert(spec_update_list(input@, cur as int) == (seq![(u.0@, u.1@)] + rest, e));
                    lemma_map_values_push(
                        updates@,
                        |p: (SigSpec, SigSpec)| (p.0@, p.1@),
                        u,
                    );
                    assert(view_sigpair_seq(updates@) + (seq![(u.0@, u.1@)] + rest)
                        =~= view_sigpair_seq(updates@.push(u)) + rest);
                }
                updates.push(u);
                cur = j;
            },
            None => {
                proof {
                    assert(spec_update_list(input@, cur as int) == (
                        Seq::<(SigSpecV, SigSpecV)>::empty(),
                        cur as int,
                    ));
                    assert(view_sigpair_seq(updates@) + Seq::<(SigSpecV, SigSpecV)>::empty()
                        =~= view_sigpair_seq(updates@));
                }
                break ;
            },
        }
    }
    let mut memwrs: Dict<Memwr> = Dict::new();
    let ghost i2 = cur as int;
    loop
        invariant
            pos < i2 <= cur <= input@.len(),
            assoc_wf(memwrs@),
            spec_memwrs(input@, i2, Seq::empty()) == spec_memwrs(input@, cur as int, memwrs@),
        ensures
            pos < i2 <= cur <= input@.len(),
            assoc_wf(memwrs@),
            spec_memwrs(input@, i2, Seq::empty()) == (memwrs@, cur as int),
        decreases input@.len() - cur,
    {
        match memwr_stmt(input, cur) {
            Some(((k, w), j)) => {
                memwrs.insert(k, w);
                cur = j;
            },
            None => {
                proof {
                    assert(spec_memwrs(input@, cur as int, memwrs@) == (memwrs@, cur as int));
                }
                break ;
            },
        }
    }
    Some((Sync { sync_event: ev, updates, memwrs }, cur))
}

} // verus!
