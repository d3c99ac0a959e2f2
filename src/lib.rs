//! Language-server adapter for Verilog: resolves how to launch the server,
//! merges its initialization options and formats its symbols and completions
//! as styled display labels.
use vstd::prelude::*;

pub mod adapter;
pub mod command;
pub mod label;
pub mod options;
pub mod registry;

pub use adapter::{Adapter, Provisioned, ResolveStep, ServerState};
pub use command::{build_command, LaunchCommand};
pub use label::{
    completion_label, style_for, symbol_label, Annotation, CompletionRecord, DisplayLabel,
    Highlight, RecordKind, SymbolRecord,
};
pub use options::{initialization_options, merge_options, InitOptions, OptionEntry};
pub use registry::{classify, AdapterError, ServerKind};

verus! {

} // verus!
