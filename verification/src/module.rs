//! Modules.
//!
//! A module is opened by a `module` statement, holds parameters, wires,
//! memories, cells, processes and connections in any order, and is closed
//! by an `end` terminator.  Keyed declarations are stored by name, a
//! repeated name silently overwriting the earlier one; connections keep
//! their written order.

use vstd::prelude::*;

use crate::ast::Constant;
use crate::ast::ConstantV;
use crate::ast::CellV;
use crate::ast::MemoryV;
use crate::ast::Module;
use crate::ast::ModuleV;
use crate::ast::ProcessV;
use crate::ast::WireV;
use crate::ast::SigSpec;
use crate::ast::cell_v_wf;
use crate::ast::memory_v_wf;
use crate::ast::module_v_wf;
use crate::ast::process_v_wf;
use crate::ast::wire_v_wf;
use crate::dict::lemma_assoc_insert_preserves;
use crate::ast::lemma_map_values_push;
use crate::attribute;
use crate::attribute::spec_attrs;
use crate::cell;
use crate::cell::spec_cell;
use crate::characters;
use crate::characters::spec_end_stmt;
use crate::characters::spec_eol;
use crate::characters::spec_sep;
use crate::characters::spec_tag;
use crate::characters::str_to_chars;
use crate::characters::tag;
use crate::connect;
use crate::connect::spec_conn_stmt;
use crate::constant;
use crate::constant::spec_constant;
use crate::dict::Dict;
use crate::dict::assoc_insert;
use crate::identifier;
use crate::identifier::spec_id;
use crate::memory;
use crate::memory::spec_memory;
use crate::process;
use crate::process::spec_process;
use crate::wire;
use crate::wire::spec_wire;

verus! {

/// A module statement: the keyword, the module's identifier, and the end
/// of the line.
pub open spec fn spec_module_stmt(s: Seq<char>, i: int) -> Option<(Seq<char>, int)> {
    match spec_tag(s, i, "module"@) {
        None => None,
        Some(i1) => match spec_sep(s, i1) {
            None => None,
            Some(i2) => match spec_id(s, i2) {
                None => None,
                Some((name, i3)) => match spec_eol(s, i3) {
                    None => None,
                    Some(i4) => Some((name.text(), i4)),
                },
            },
        },
    }
}

/// Consume a module statement, yielding the module name.
pub fn module_stmt(input: &Vec<char>, pos: usize) -> (r: Option<(String, usize)>)
    requires
        pos <= input@.len(),
    ensures
        match r {
            Some((name, p)) => spec_module_stmt(input@, pos as int) == Some((name@, p as int))
                && pos < p <= input@.len(),
            None => spec_module_stmt(input@, pos as int) is None,
        },
{
    let kw = str_to_chars("module");
    let i1 = match tag(input, pos, &kw) {
        Some(p) => p,
        None => {
            return None;
        },
    };
    let i2 = match characters::sep(input, i1) {
        Some(p) => p,
        None => {
            return None;
        },
    };
    let (name, i3) = match identifier::id(input, i2) {
        Some(x) => x,
        None => {
            return None;
        },
    };
    let i4 = match characters::eol(input, i3) {
        Some(p) => p,
        None => {
            return None;
        },
    };
    Some((name.erease(), i4))
}

/// Consume a module terminator: `end` and the end of the line.
pub fn module_end_stmt(input: &Vec<char>, pos: usize) -> (r: Option<usize>)
    requires
        pos <= input@.len(),
    ensures
        match r {
            Some(p) => spec_end_stmt(input@, pos as int) == Some(p as int) && pos < p
                <= input@.len(),
            None => spec_end_stmt(input@, pos as int) is None,
        },
{
    characters::end_stmt(input, pos)
}

/// A parameter statement: the keyword, the parameter name, and an optional
/// constant value.  When a separator follows the name but no constant
/// follows it, the separator is not consumed.
pub open spec fn spec_param_stmt(s: Seq<char>, i: int) -> Option<
    ((Seq<char>, Option<ConstantV>), int),
> {
    match spec_tag(s, i, "parameter"@) {
        None => None,
        Some(i1) => match spec_sep(s, i1) {
            None => None,
            Some(i2) => match spec_id(s, i2) {
                None => None,
                Some((name, i3)) => {
                    let (copt, i4): (Option<ConstantV>, int) = match spec_sep(s, i3) {
                        Some(k) => match spec_constant(s, k) {
                            Some((c, j)) => (Some(c), j),
                            None => (None, i3),
                        },
                        None => (None, i3),
                    };
                    match spec_eol(s, i4) {
                        None => None,
                        Some(i5) => Some(((name.text(), copt), i5)),
                    }
                },
            },
        },
    }
}

/// Consume a parameter statement.
pub fn param_stmt(input: &Vec<char>, pos: usize) -> (r: Option<
    ((String, Option<Constant>), usize),
>)
    requires
        pos <= input@.len(),
    ensures
        match r {
            Some(((name, copt), p)) => pos < p <= input@.len() && spec_param_stmt(
                input@,
                pos as int,
            ) == Some(
                (
                    (
                        name@,
                        match copt {
                            Some(c) => Some(c@),
                            None => None,
                        },
                    ),
                    p as int,
                ),
            ),
            None => spec_param_stmt(input@, pos as int) is None,
        },
{
    let kw = str_to_chars("parameter");
    let i1 = match tag(input, pos, &kw) {
        Some(p) => p,
        None => {
            return None;
        },
    };
    let i2 = match characters::sep(input, i1) {
        Some(p) => p,
        None => {
            return None;
        },
    };
    let (name, i3) = match identifier::id(input, i2) {
        Some(x) => x,
        None => {
            return None;
        },
    };
    let (copt, i4): (Option<Constant>, usize) = match characters::sep(input, i3) {
        Some(k) => match constant::constant(input, k) {
            Some((c, j)) => (Some(c), j),
            None => (None, i3),
        },
        None => (None, i3),
    };
    let i5 = match characters::eol(input, i4) {
        Some(p) => p,
        None => {
            return None;
        },
    };
    Some(((name.erease(), copt), i5))
}

/// The effect of the run of module-body declarations starting at `i` on
/// the module `m`: parameters, wires, memories, cells, processes and
/// connections are tried in that order and accumulated until none
/// matches.
pub open spec fn spec_module_items(s: Seq<char>, i: int, m: ModuleV) -> (ModuleV, int)
    decreases s.len() - i,
{
    match spec_param_stmt(s, i) {
        Some(((k, v), j)) => {
            if i < j <= s.len() {
                spec_module_items(
                    s,
                    j,
                    ModuleV { parameters: assoc_insert(m.parameters, k, v), ..m },
                )
            } else {
                (m, i)
            }
        },
        None => match spec_wire(s, i) {
            Some(((k, w), j)) => {
                if i < j <= s.len() {
                    spec_module_items(s, j, ModuleV { wires: assoc_insert(m.wires, k, w), ..m })
                } else {
                    (m, i)
                }
            },
            None => match spec_memory(s, i) {
                Some(((k, w), j)) => {
                    if i < j <= s.len() {
                        spec_module_items(
                            s,
                            j,
                            ModuleV { memories: assoc_insert(m.memories, k, w), ..m },
                        )
                    } else {
                        (m, i)
                    }
                },
                None => match spec_cell(s, i) {
                    Some(((k, c), j)) => {
                        if i < j <= s.len() {
                            spec_module_items(
                                s,
                                j,
                                ModuleV { cells: assoc_insert(m.cells, k, c), ..m },
                            )
                        } else {
                            (m, i)
                        }
                    },
                    None => match spec_process(s, i) {
                        Some(((k, pr), j)) => {
                            if i < j <= s.len() {
                                spec_module_items(
                                    s,
                                    j,
                                    ModuleV { processes: assoc_insert(m.processes, k, pr), ..m },
                                )
                            } else {
                                (m, i)
                            }
                        },
                        None => match spec_conn_stmt(s, i) {
                            Some(((dst, src), j)) => {
                                if i < j <= s.len() {
                                    spec_module_items(
                                        s,
                                        j,
                                        ModuleV {
                                            connections: m.connections.push((dst, src)),
                                            ..m
                                        },
                                    )
                                } else {
                                    (m, i)
                                }
                            },
                            None => (m, i),
                        },
                    },
                },
            },
        },
    }
}

/// The model of a module holding only its attributes.
pub open spec fn spec_module_init(attrs: Seq<(Seq<char>, ConstantV)>) -> ModuleV {
    ModuleV {
        attributes: attrs,
        parameters: Seq::empty(),
        wires: Seq::empty(),
        memories: Seq::empty(),
        cells: Seq::empty(),
        processes: Seq::empty(),
        connections: Seq::empty(),
    }
}

/// A module: any attribute statements, the module statement, its body
/// declarations, and the `end` terminator.
pub open spec fn spec_module(s: Seq<char>, i: int) -> Option<((Seq<char>, ModuleV), int)> {
    let (ad, i1) = spec_attrs(s, i, Seq::empty());
    if 0 <= i1 <= s.len() {
        match spec_module_stmt(s, i1) {
            None => None,
            Some((name, i2)) => {
                if 0 <= i2 <= s.len() {
                    let (m, i3) = spec_module_items(s, i2, spec_module_init(ad));
                    if 0 <= i3 <= s.len() {
                        match spec_end_stmt(s, i3) {
                            None => None,
                            Some(i4) => Some(((name, m), i4)),
                        }
                    } else {
                        None
                    }
                } else {
                    None
                }
            },
        }
    } else {
        None
    }
}

/// Consume the run of module-body declarations, accumulating them onto
/// `m`.
#[verifier::rlimit(100)]
fn module_items(input: &Vec<char>, pos: usize, m: Module) -> (r: (Module, usize))
    requires
        pos <= input@.len(),
        module_v_wf(m@),
    ensures
        spec_module_items(input@, pos as int, m@) == (r.0@, r.1 as int),
        pos <= r.1 <= input@.len(),
        module_v_wf(r.0@),
{
    let ghost m0 = m@;
    let mut mm = m;
    let mut cur: usize = pos;
    loop
        invariant
            pos <= cur <= input@.len(),
            module_v_wf(mm@),
            spec_module_items(input@, pos as int, m0) == spec_module_items(
                input@,
                cur as int,
                mm@,
            ),
        ensures
            pos <= cur <= input@.len(),
            module_v_wf(mm@),
            spec_module_items(input@, pos as int, m0) == (mm@, cur as int),
        decreases input@.len() - cur,
    {
        match param_stmt(input, cur) {
            Some(((k, v), j)) => {
                proof {
                    assert(spec_module_items(input@, cur as int, mm@) == spec_module_items(
                        input@,
                        j as int,
                        ModuleV {
                            parameters: assoc_insert(mm@.parameters, k@, v.deep_view()),
                            ..mm@
                        },
                    ));
                }
                mm.parameters.insert(k, v);
                cur = j;
                continue ;
            },
            None => {},
        }
        match wire::wire(input, cur) {
            Some(((k, w), j)) => {
                proof {
                    assert(spec_module_items(input@, cur as int, mm@) == spec_module_items(
                        input@,
                        j as int,
                        ModuleV { wires: assoc_insert(mm@.wires, k@, w@), ..mm@ },
                    ));
                    lemma_assoc_insert_preserves(
                        mm@.wires,
                        k@,
                        w@,
                        |x: WireV| wire_v_wf(x),
                    );
                }
                mm.wires.insert(k, w);
                cur = j;
                continue ;
            },
            None => {},
        }
        match memory::memory(input, cur) {
            Some(((k, w), j)) => {
                proof {
                    assert(spec_module_items(input@, cur as int, mm@) == spec_module_items(
                        input@,
                        j as int,
                        ModuleV { memories: assoc_insert(mm@.memories, k@, w@), ..mm@ },
                    ));
                    lemma_assoc_insert_preserves(
                        mm@.memories,
                        k@,
                        w@,
                        |x: MemoryV| memory_v_wf(x),
                    );
                }
                mm.memories.insert(k, w);
                cur = j;
                continue ;
            },
            None => {},
        }
        match cell::cell(input, cur) {
            Some(((k, c), j)) => {
                proof {
                    assert(spec_module_items(input@, cur as int, mm@) == spec_module_items(
                        input@,
                        j as int,
                        ModuleV { cells: assoc_insert(mm@.cells, k@, c@), ..mm@ },
                    ));
                    lemma_assoc_insert_preserves(
                        mm@.cells,
                        k@,
                        c@,
                        |x: CellV| cell_v_wf(x),
                    );
                }
                mm.cells.insert(k, c);
                cur = j;
                continue ;
            },
            None => {},
        }
        match process::process(input, cur) {
            Some(((k, pr), j)) => {
                proof {
                    assert(spec_module_items(input@, cur as int, mm@) == spec_module_items(
                        input@,
                        j as int,
                        ModuleV { processes: assoc_insert(mm@.processes, k@, pr@), ..mm@ },
                    ));
                    lemma_assoc_insert_preserves(
                        mm@.processes,
                        k@,
                        pr@,
                        |x: ProcessV| process_v_wf(x),
                    );
                }
                mm.processes.insert(k, pr);
                cur = j;
                continue ;
            },
            None => {},
        }
        match connect::conn_stmt(input, cur) {
            Some(((dst, src), j)) => {
                proof {
                    assert(spec_module_items(input@, cur as int, mm@) == spec_module_items(
                        input@,
                        j as int,
                        ModuleV {
                            connections: mm@.connections.push((dst@, src@)),
                            ..mm@
                        },
                    ));
                    lemma_map_values_push(
                        mm.connections@,
                        |p: (SigSpec, SigSpec)| (p.0@, p.1@),
                        (dst, src),
                    );
                }
                mm.connections.push((dst, src));
                cur = j;
                continue ;
            },
            None => {},
        }
        proof {
            assert(spec_module_items(input@, cur as int, mm@) == (mm@, cur as int));
        }
        break ;
    }
    (mm, cur)
}

/// Consume a module, yielding it keyed by its name.
pub fn module(input: &Vec<char>, pos: usize) -> (r: Option<((String, Module), usize)>)
    requires
        pos <= input@.len(),
    ensures
        match r {
            Some(((name, m), p)) => spec_module(input@, pos as int) == Some(
                ((name@, m@), p as int),
            ) && pos < p <= input@.len() && module_v_wf(m@),
            None => spec_module(input@, pos as int) is None,
        },
{
    let (ad, i1) = attribute::attrs(input, pos);
    let (name, i2) = match module_stmt(input, i1) {
        Some(x) => x,
        None => {
            return None;
        },
    };
    let m0 = Module {
        attributes: ad,
        parameters: Dict::new(),
        wires: Dict::new(),
        memories: Dict::new(),
        cells: Dict::new(),
        processes: Dict::new(),
        connections: Vec::new(),
    };
    proof {
        assert(m0@ =~= spec_module_init(m0@.attributes));
    }
    let (m, i3) = module_items(input, i2, m0);
    let i4 = match characters::end_stmt(input, i3) {
        Some(p) => p,
        None => {
            return None;
        },
    };
    Some(((name, m), i4))
}

} // verus!
