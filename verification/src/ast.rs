//! The design tree: the structures a parsed RTLIL text is decoded into,
//! together with their spec-level models.
//!
//! Every executable type `X` here has a ghost model type `XV` over `Seq`,
//! and a `View`/`DeepView` implementation mapping one to the other.  The
//! parsing functions state their contracts over these models.

use vstd::prelude::*;

use crate::dict::Dict;
use crate::dict::assoc_wf;

verus! {

/// An identifier: a backslash sigil marks a publically visible (user-named)
/// identifier, a dollar sigil an autogenerated (tool-named) one.  The sigil
/// is kept as the variant tag; the carried text excludes it.
#[derive(Debug, Clone, PartialEq, Eq)]
pub enum Id {
    Public(String),
    Autogen(String),
}

/// Model of [`Id`].
#[verifier::ext_equal]
pub enum IdV {
    Public(Seq<char>),
    Autogen(Seq<char>),
}

impl IdV {
    /// The carried text, with the provenance tag erased.
    pub open spec fn text(self) -> Seq<char> {
        match self {
            IdV::Public(t) => t,
            IdV::Autogen(t) => t,
        }
    }
}

impl View for Id {
    type V = IdV;

    open spec fn view(&self) -> IdV {
        match self {
            Id::Public(t) => IdV::Public(t@),
            Id::Autogen(t) => IdV::Autogen(t@),
        }
    }
}

impl DeepView for Id {
    type V = IdV;

    open spec fn deep_view(&self) -> IdV {
        self.view()
    }
}

/// A constant: a bit-vector value (most-significant bit first), a 32-bit
/// signed integer, or a decoded string.
#[derive(Debug, Clone, PartialEq)]
pub enum Constant {
    /// Bit-vector value; each character is one of `0 1 x z m -` (the
    /// multi-valued symbols also in upper case), most-significant bit first.
    Value(Vec<char>),
    /// Signed 32-bit integer.
    Integer(i32),
    /// Decoded string.
    String(String),
}

/// Model of [`Constant`].
#[verifier::ext_equal]
pub enum ConstantV {
    Value(Seq<char>),
    Integer(i32),
    Str(Seq<char>),
}

impl View for Constant {
    type V = ConstantV;

    open spec fn view(&self) -> ConstantV {
        match self {
            Constant::Value(v) => ConstantV::Value(v@),
            Constant::Integer(n) => ConstantV::Integer(*n),
            Constant::String(s) => ConstantV::Str(s@),
        }
    }
}

impl DeepView for Constant {
    type V = ConstantV;

    open spec fn deep_view(&self) -> ConstantV {
        self.view()
    }
}

/// A signal specification: a constant, a whole wire by name, a bit range of
/// a signal specification, or a concatenation (most-significant part first).
#[derive(Debug, PartialEq)]
pub enum SigSpec {
    Constant(Constant),
    WireId(String),
    /// A bit range: base signal, start index, and optional end index; an
    /// absent end index means a single bit.
    Range(Box<SigSpec>, usize, Option<usize>),
    Concat(Vec<SigSpec>),
}

/// Model of [`SigSpec`].
#[verifier::ext_equal]
pub enum SigSpecV {
    Constant(ConstantV),
    WireId(Seq<char>),
    Range(Box<SigSpecV>, usize, Option<usize>),
    Concat(Seq<SigSpecV>),
}

pub open spec fn view_sigspec(s: SigSpec) -> SigSpecV
    decreases s,
{
    match s {
        SigSpec::Constant(c) => SigSpecV::Constant(c@),
        SigSpec::WireId(w) => SigSpecV::WireId(w@),
        SigSpec::Range(b, start, end) => SigSpecV::Range(Box::new(view_sigspec(*b)), start, end),
        SigSpec::Concat(v) => SigSpecV::Concat(view_sigspec_seq(v@)),
    }
}

pub open spec fn view_sigspec_seq(l: Seq<SigSpec>) -> Seq<SigSpecV>
    decreases l,
{
    if l.len() == 0 {
        Seq::empty()
    } else {
        seq![view_sigspec(l[0])] + view_sigspec_seq(l.drop_first())
    }
}

/// `view_sigspec_seq` views a sequence elementwise.
pub proof fn lemma_view_sigspec_seq(l: Seq<SigSpec>)
    ensures
        view_sigspec_seq(l).len() == l.len(),
        forall|i: int| 0 <= i < l.len() ==> view_sigspec_seq(l)[i] == view_sigspec(l[i]),
    decreases l.len(),
{
    if l.len() > 0 {
        lemma_view_sigspec_seq(l.drop_first());
    }
}

impl View for SigSpec {
    type V = SigSpecV;

    open spec fn view(&self) -> SigSpecV {
        view_sigspec(*self)
    }
}

impl DeepView for SigSpec {
    type V = SigSpecV;

    open spec fn deep_view(&self) -> SigSpecV {
        self.view()
    }
}

/// A wire: width and offset, directionality and ordering flags, and its
/// attributes.  Its name is the key under which the enclosing module holds
/// it.
#[derive(Debug, Clone, PartialEq)]
pub struct Wire {
    /// Width in bits; defaults to 1.
    pub width: usize,
    /// Index of the least significant bit; defaults to 0.
    pub offset: usize,
    /// Whether the wire is a module input.
    pub input: bool,
    /// Whether the wire is a module output.
    pub output: bool,
    /// Whether the wire is bidirectional.
    pub inout: bool,
    /// Bit-order flag, recognized and stored without further meaning.
    pub upto: bool,
    /// Signedness flag, recognized and stored without further meaning.
    pub signed: bool,
    /// The attributes of the wire.
    pub attributes: Dict<Constant>,
}

/// Model of [`Wire`].
#[verifier::ext_equal]
pub struct WireV {
    pub width: usize,
    pub offset: usize,
    pub input: bool,
    pub output: bool,
    pub inout: bool,
    pub upto: bool,
    pub signed: bool,
    pub attributes: Seq<(Seq<char>, ConstantV)>,
}

impl View for Wire {
    type V = WireV;

    open spec fn view(&self) -> WireV {
        WireV {
            width: self.width,
            offset: self.offset,
            input: self.input,
            output: self.output,
            inout: self.inout,
            upto: self.upto,
            signed: self.signed,
            attributes: self.attributes@,
        }
    }
}

impl DeepView for Wire {
    type V = WireV;

    open spec fn deep_view(&self) -> WireV {
        self.view()
    }
}

/// An addressable storage block with its attributes.
#[derive(Debug, Clone, PartialEq)]
pub struct Memory {
    pub width: usize,
    pub size: usize,
    pub offset: usize,
    pub attributes: Dict<Constant>,
}

/// Model of [`Memory`].
#[verifier::ext_equal]
pub struct MemoryV {
    pub width: usize,
    pub size: usize,
    pub offset: usize,
    pub attributes: Seq<(Seq<char>, ConstantV)>,
}

impl View for Memory {
    type V = MemoryV;

    open spec fn view(&self) -> MemoryV {
        MemoryV {
            width: self.width,
            size: self.size,
            offset: self.offset,
            attributes: self.attributes@,
        }
    }
}

impl DeepView for Memory {
    type V = MemoryV;

    open spec fn deep_view(&self) -> MemoryV {
        self.view()
    }
}

/// A cell: an instance of a primitive or sub-module, with named parameters
/// and port connections.  Its own identifier is the key under which the
/// enclosing module holds it.
#[derive(Debug, PartialEq)]
pub struct Cell {
    /// The type tag of the cell.
    pub cell_type: String,
    /// The parameters of the cell.
    pub parameters: Dict<Constant>,
    /// The port connections of the cell.
    pub connections: Dict<SigSpec>,
}

/// Model of [`Cell`].
#[verifier::ext_equal]
pub struct CellV {
    pub cell_type: Seq<char>,
    pub parameters: Seq<(Seq<char>, ConstantV)>,
    pub connections: Seq<(Seq<char>, SigSpecV)>,
}

impl View for Cell {
    type V = CellV;

    open spec fn view(&self) -> CellV {
        CellV {
            cell_type: self.cell_type@,
            parameters: self.parameters@,
            connections: self.connections@,
        }
    }
}

impl DeepView for Cell {
    type V = CellV;

    open spec fn deep_view(&self) -> CellV {
        self.view()
    }
}

/// One element of a case body: a nested switch, or an assignment of a
/// source signal to a destination signal.
#[derive(Debug, PartialEq)]
pub enum CaseBody {
    Switch(Switch),
    Assign(SigSpec, SigSpec),
}

/// A case of a switch: its attributes, the optional list of signals to
/// compare against (absence marks the default case), and its ordered body.
#[derive(Debug, PartialEq)]
pub struct Case {
    pub attributes: Dict<Constant>,
    pub compare_against: Option<Vec<SigSpec>>,
    pub case_bodies: Vec<CaseBody>,
}

/// A switch: its attributes, the signal it tests, and its ordered cases.
#[derive(Debug, PartialEq)]
pub struct Switch {
    pub attributes: Dict<Constant>,
    pub switch_on_sigspec: SigSpec,
    pub cases: Vec<Case>,
}

/// Model of [`CaseBody`].
#[verifier::ext_equal]
pub enum CaseBodyV {
    Switch(SwitchV),
    Assign(SigSpecV, SigSpecV),
}

/// Model of [`Case`].
#[verifier::ext_equal]
pub struct CaseV {
    pub attributes: Seq<(Seq<char>, ConstantV)>,
    pub compare_against: Option<Seq<SigSpecV>>,
    pub case_bodies: Seq<CaseBodyV>,
}

/// Model of [`Switch`].
#[verifier::ext_equal]
pub struct SwitchV {
    pub attributes: Seq<(Seq<char>, ConstantV)>,
    pub switch_on_sigspec: SigSpecV,
    pub cases: Seq<CaseV>,
}

pub open spec fn view_switch(s: Switch) -> SwitchV
    decreases s,
{
    SwitchV {
        attributes: s.attributes@,
        switch_on_sigspec: s.switch_on_sigspec@,
        cases: view_case_seq(s.cases@),
    }
}

pub open spec fn view_case_seq(l: Seq<Case>) -> Seq<CaseV>
    decreases l,
{
    if l.len() == 0 {
        Seq::empty()
    } else {
        seq![view_case(l[0])] + view_case_seq(l.drop_first())
    }
}

pub open spec fn view_case(c: Case) -> CaseV
    decreases c,
{
    CaseV {
        attributes: c.attributes@,
        compare_against: match c.compare_against {
            Some(v) => Some(view_sigspec_seq(v@)),
            None => None,
        },
        case_bodies: view_case_body_seq(c.case_bodies@),
    }
}

pub open spec fn view_case_body_seq(l: Seq<CaseBody>) -> Seq<CaseBodyV>
    decreases l,
{
    if l.len() == 0 {
        Seq::empty()
    } else {
        seq![view_case_body(l[0])] + view_case_body_seq(l.drop_first())
    }
}

pub open spec fn view_case_body(b: CaseBody) -> CaseBodyV
    decreases b,
{
    match b {
        CaseBody::Switch(s) => CaseBodyV::Switch(view_switch(s)),
        CaseBody::Assign(d, r) => CaseBodyV::Assign(d@, r@),
    }
}

/// Elementwise view of a sequence of signal pairs.
pub open spec fn view_sigpair_seq(l: Seq<(SigSpec, SigSpec)>) -> Seq<(SigSpecV, SigSpecV)> {
    l.map_values(|p: (SigSpec, SigSpec)| (p.0@, p.1@))
}

/// Elementwise view of a sequence of switches.
pub open spec fn view_switch_list(l: Seq<Switch>) -> Seq<SwitchV> {
    l.map_values(|x: Switch| view_switch(x))
}

/// Elementwise view of a sequence of sync blocks.
pub open spec fn view_sync_list(l: Seq<Sync>) -> Seq<SyncV> {
    l.map_values(|x: Sync| x@)
}

/// `map_values` distributes over `push`.
pub proof fn lemma_map_values_push<A, B>(l: Seq<A>, f: spec_fn(A) -> B, x: A)
    ensures
        (l.push(x)).map_values(f) == l.map_values(f).push(f(x)),
{
    assert((l.push(x)).map_values(f) =~= l.map_values(f).push(f(x)));
}

/// `view_case_seq` views a sequence elementwise.
pub proof fn lemma_view_case_seq(l: Seq<Case>)
    ensures
        view_case_seq(l).len() == l.len(),
        forall|i: int| 0 <= i < l.len() ==> view_case_seq(l)[i] == view_case(l[i]),
    decreases l.len(),
{
    if l.len() > 0 {
        lemma_view_case_seq(l.drop_first());
    }
}

/// `view_case_body_seq` views a sequence elementwise.
pub proof fn lemma_view_case_body_seq(l: Seq<CaseBody>)
    ensures
        view_case_body_seq(l).len() == l.len(),
        forall|i: int| 0 <= i < l.len() ==> view_case_body_seq(l)[i] == view_case_body(l[i]),
    decreases l.len(),
{
    if l.len() > 0 {
        lemma_view_case_body_seq(l.drop_first());
    }
}

impl View for Switch {
    type V = SwitchV;

    open spec fn view(&self) -> SwitchV {
        view_switch(*self)
    }
}

impl DeepView for Switch {
    type V = SwitchV;

    open spec fn deep_view(&self) -> SwitchV {
        self.view()
    }
}

impl View for Case {
    type V = CaseV;

    open spec fn view(&self) -> CaseV {
        view_case(*self)
    }
}

impl DeepView for Case {
    type V = CaseV;

    open spec fn deep_view(&self) -> CaseV {
        self.view()
    }
}

impl View for CaseBody {
    type V = CaseBodyV;

    open spec fn view(&self) -> CaseBodyV {
        view_case_body(*self)
    }
}

impl DeepView for CaseBody {
    type V = CaseBodyV;

    open spec fn deep_view(&self) -> CaseBodyV {
        self.view()
    }
}

/// The kind of signal event a sync block waits for.
#[derive(Debug, Clone, Copy, PartialEq, Eq)]
pub enum SignalSync {
    Low,
    High,
    Posedge,
    Negedge,
    Edge,
}

impl View for SignalSync {
    type V = SignalSync;

    open spec fn view(&self) -> SignalSync {
        *self
    }
}

impl DeepView for SignalSync {
    type V = SignalSync;

    open spec fn deep_view(&self) -> SignalSync {
        *self
    }
}

/// The event a sync block triggers on.
#[derive(Debug, PartialEq)]
pub enum SyncOn {
    Global,
    Init,
    Always,
    Signal(SignalSync, SigSpec),
}

/// Model of [`SyncOn`].
#[verifier::ext_equal]
pub enum SyncOnV {
    Global,
    Init,
    Always,
    Signal(SignalSync, SigSpecV),
}

impl View for SyncOn {
    type V = SyncOnV;

    open spec fn view(&self) -> SyncOnV {
        match self {
            SyncOn::Global => SyncOnV::Global,
            SyncOn::Init => SyncOnV::Init,
            SyncOn::Always => SyncOnV::Always,
            SyncOn::Signal(k, s) => SyncOnV::Signal(*k, s@),
        }
    }
}

impl DeepView for SyncOn {
    type V = SyncOnV;

    open spec fn deep_view(&self) -> SyncOnV {
        self.view()
    }
}

/// A memory-write port owned by a sync block: attributes and the four
/// operand signals.
#[derive(Debug, PartialEq)]
pub struct Memwr {
    pub attributes: Dict<Constant>,
    pub address: SigSpec,
    pub data: SigSpec,
    pub enable: SigSpec,
    pub priority_mask: SigSpec,
}

/// Model of [`Memwr`].
#[verifier::ext_equal]
pub struct MemwrV {
    pub attributes: Seq<(Seq<char>, ConstantV)>,
    pub address: SigSpecV,
    pub data: SigSpecV,
    pub enable: SigSpecV,
    pub priority_mask: SigSpecV,
}

impl View for Memwr {
    type V = MemwrV;

    open spec fn view(&self) -> MemwrV {
        MemwrV {
            attributes: self.attributes@,
            address: self.address@,
            data: self.data@,
            enable: self.enable@,
            priority_mask: self.priority_mask@,
        }
    }
}

impl DeepView for Memwr {
    type V = MemwrV;

    open spec fn deep_view(&self) -> MemwrV {
        self.view()
    }
}

/// An event-triggered update block: the event, the ordered update pairs,
/// and the memory-write ports keyed by memory identifier.
#[derive(Debug, PartialEq)]
pub struct Sync {
    pub sync_event: SyncOn,
    pub updates: Vec<(SigSpec, SigSpec)>,
    pub memwrs: Dict<Memwr>,
}

/// Model of [`Sync`].
#[verifier::ext_equal]
pub struct SyncV {
    pub sync_event: SyncOnV,
    pub updates: Seq<(SigSpecV, SigSpecV)>,
    pub memwrs: Seq<(Seq<char>, MemwrV)>,
}

impl View for Sync {
    type V = SyncV;

    open spec fn view(&self) -> SyncV {
        SyncV {
            sync_event: self.sync_event@,
            updates: view_sigpair_seq(self.updates@),
            memwrs: self.memwrs@,
        }
    }
}

impl DeepView for Sync {
    type V = SyncV;

    open spec fn deep_view(&self) -> SyncV {
        self.view()
    }
}

/// A sequential process: attributes, ordered top-level assignments, ordered
/// switches, and ordered sync blocks.  Its name is the key under which the
/// enclosing module holds it.
#[derive(Debug, PartialEq)]
pub struct Process {
    pub attributes: Dict<Constant>,
    pub assignments: Vec<(SigSpec, SigSpec)>,
    pub switches: Vec<Switch>,
    pub syncs: Vec<Sync>,
}

/// Model of [`Process`].
#[verifier::ext_equal]
pub struct ProcessV {
    pub attributes: Seq<(Seq<char>, ConstantV)>,
    pub assignments: Seq<(SigSpecV, SigSpecV)>,
    pub switches: Seq<SwitchV>,
    pub syncs: Seq<SyncV>,
}

impl View for Process {
    type V = ProcessV;

    open spec fn view(&self) -> ProcessV {
        ProcessV {
            attributes: self.attributes@,
            assignments: view_sigpair_seq(self.assignments@),
            switches: view_switch_list(self.switches@),
            syncs: view_sync_list(self.syncs@),
        }
    }
}

impl DeepView for Process {
    type V = ProcessV;

    open spec fn deep_view(&self) -> ProcessV {
        self.view()
    }
}

/// A module: attributes, parameters, and its wires, memories, cells and
/// processes keyed by name, plus the ordered direct connections.
#[derive(Debug, PartialEq)]
pub struct Module {
    pub attributes: Dict<Constant>,
    pub parameters: Dict<Option<Constant>>,
    pub wires: Dict<Wire>,
    pub memories: Dict<Memory>,
    pub cells: Dict<Cell>,
    pub processes: Dict<Process>,
    pub connections: Vec<(SigSpec, SigSpec)>,
}

/// Model of [`Module`].
#[verifier::ext_equal]
pub struct ModuleV {
    pub attributes: Seq<(Seq<char>, ConstantV)>,
    pub parameters: Seq<(Seq<char>, Option<ConstantV>)>,
    pub wires: Seq<(Seq<char>, WireV)>,
    pub memories: Seq<(Seq<char>, MemoryV)>,
    pub cells: Seq<(Seq<char>, CellV)>,
    pub processes: Seq<(Seq<char>, ProcessV)>,
    pub connections: Seq<(SigSpecV, SigSpecV)>,
}

impl View for Module {
    type V = ModuleV;

    open spec fn view(&self) -> ModuleV {
        ModuleV {
            attributes: self.attributes@,
            parameters: self.parameters@,
            wires: self.wires@,
            memories: self.memories@,
            cells: self.cells@,
            processes: self.processes@,
            connections: view_sigpair_seq(self.connections@),
        }
    }
}

impl DeepView for Module {
    type V = ModuleV;

    open spec fn deep_view(&self) -> ModuleV {
        self.view()
    }
}

/// A design: the optional global auto-index counter and the modules keyed
/// by name.
#[derive(Debug, PartialEq)]
pub struct Design {
    /// The global auto-index value, when the text declares one.
    pub autoidx: Option<i32>,
    /// The modules of the design.
    pub modules: Dict<Module>,
}

/// Model of [`Design`].
#[verifier::ext_equal]
pub struct DesignV {
    pub autoidx: Option<i32>,
    pub modules: Seq<(Seq<char>, ModuleV)>,
}

impl View for Design {
    type V = DesignV;

    open spec fn view(&self) -> DesignV {
        DesignV { autoidx: self.autoidx, modules: self.modules@ }
    }
}

impl DeepView for Design {
    type V = DesignV;

    open spec fn deep_view(&self) -> DesignV {
        self.view()
    }
}

impl Design {
    /// The modules of the design, keyed by name.
    pub fn modules(&self) -> (r: &Dict<Module>)
        ensures
            r == &self.modules,
    {
        &self.modules
    }

    /// The global auto-index value, when the text declared one.
    pub fn autoidx(&self) -> (r: &Option<i32>)
        ensures
            r == &self.autoidx,
    {
        &self.autoidx
    }
}

impl Module {
    /// The attributes of the module.
    pub fn attributes(&self) -> (r: &Dict<Constant>)
        ensures
            r == &self.attributes,
    {
        &self.attributes
    }

    /// The wires of the module, keyed by name.
    pub fn wires(&self) -> (r: &Dict<Wire>)
        ensures
            r == &self.wires,
    {
        &self.wires
    }

    /// The cells of the module, keyed by their identifier.
    pub fn cells(&self) -> (r: &Dict<Cell>)
        ensures
            r == &self.cells,
    {
        &self.cells
    }

    /// The processes of the module, keyed by name.
    pub fn processes(&self) -> (r: &Dict<Process>)
        ensures
            r == &self.processes,
    {
        &self.processes
    }

    /// The direct connections of the module, in written order.
    pub fn connections(&self) -> (r: &Vec<(SigSpec, SigSpec)>)
        ensures
            r == &self.connections,
    {
        &self.connections
    }
}

/// A wire's attribute map has unique keys.
pub open spec fn wire_v_wf(w: WireV) -> bool {
    assoc_wf(w.attributes)
}

/// A memory's attribute map has unique keys.
pub open spec fn memory_v_wf(m: MemoryV) -> bool {
    assoc_wf(m.attributes)
}

/// A cell's parameter and connection maps have unique keys.
pub open spec fn cell_v_wf(c: CellV) -> bool {
    assoc_wf(c.parameters) && assoc_wf(c.connections)
}

/// A process's attribute map has unique keys.
pub open spec fn process_v_wf(p: ProcessV) -> bool {
    assoc_wf(p.attributes)
}

/// All keyed containers of a module have unique keys, down to the maps of
/// the wires, memories, cells and processes it holds.
pub open spec fn module_v_wf(m: ModuleV) -> bool {
    &&& assoc_wf(m.attributes)
    &&& assoc_wf(m.parameters)
    &&& assoc_wf(m.wires)
    &&& assoc_wf(m.memories)
    &&& assoc_wf(m.cells)
    &&& assoc_wf(m.processes)
    &&& forall|i: int| 0 <= i < m.wires.len() ==> wire_v_wf(#[trigger] m.wires[i].1)
    &&& forall|i: int| 0 <= i < m.memories.len() ==> memory_v_wf(#[trigger] m.memories[i].1)
    &&& forall|i: int| 0 <= i < m.cells.len() ==> cell_v_wf(#[trigger] m.cells[i].1)
    &&& forall|i: int| 0 <= i < m.processes.len() ==> process_v_wf(#[trigger] m.processes[i].1)
}

/// Module names are unique in a design, and every module's keyed
/// containers have unique keys.
pub open spec fn design_v_wf(d: DesignV) -> bool {
    &&& assoc_wf(d.modules)
    &&& forall|i: int| 0 <= i < d.modules.len() ==> module_v_wf(#[trigger] d.modules[i].1)
}

/// A located syntax error: the parse stopped at the start of the first
/// construct it could not read.
#[derive(Debug, Clone, Copy, PartialEq, Eq, Structural)]
pub struct SyntaxError {
    /// 1-based line number of the position, counting line-feed characters.
    pub line: usize,
    /// Byte offset of the position in the UTF-8 encoding of the input.
    pub offset: usize,
}

impl SyntaxError {
    /// The 1-based line number of the error.
    pub fn location_line(&self) -> (r: usize)
        ensures
            r == self.line,
    {
        self.line
    }

    /// The byte offset of the error in the input text.
    pub fn location_offset(&self) -> (r: usize)
        ensures
            r == self.offset,
    {
        self.offset
    }
}

} // verus!
