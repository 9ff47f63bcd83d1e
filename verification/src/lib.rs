//! Parser for the RTLIL text format: the textual intermediate netlist
//! representation emitted by logic-synthesis tools.  The entry point is
//! [`parse`], which turns an input text into a [`Design`] tree or a located
//! syntax error.  Every parsing function is verified against a spec-level
//! description of the grammar.

pub mod ast;
pub mod attribute;
pub mod cell;
pub mod characters;
pub mod connect;
pub mod constant;
pub mod design;
pub mod dict;
pub mod identifier;
pub mod memory;
pub mod module;
pub mod process;
pub mod sigspec;
pub mod string;
pub mod switch;
pub mod sync;
pub mod value;
pub mod wire;

pub use ast::Case;
pub use ast::CaseBody;
pub use ast::Cell;
pub use ast::Constant;
pub use ast::Design;
pub use ast::Id;
pub use ast::Memory;
pub use ast::Memwr;
pub use ast::Module;
pub use ast::Process;
pub use ast::SigSpec;
pub use ast::SignalSync;
pub use ast::Switch;
pub use ast::Sync;
pub use ast::SyncOn;
pub use ast::SyntaxError;
pub use ast::Wire;
pub use design::parse;
pub use dict::Dict;
