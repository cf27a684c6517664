//! Typed variable-sourcing pipeline for template rendering.
//!
//! The crate assigns values to named template variables by delegating to
//! pluggable sourcing strategies. Each strategy turns a command-line-supplied
//! argument (a literal value or a file path) into a typed value that is
//! inserted into a render context. The pieces are:
//!
//! - a parser for `name:value` variable mappings ([`VarMapping`]),
//! - a dual-mode input abstraction unifying literal strings and open
//!   readable streams behind one read interface,
//! - a scanner for a leading delimited metadata block in a text document,
//! - the capability contract a sourcing strategy must implement together
//!   with the concrete plugins, and
//! - the driver that turns parsed mappings into context entries.

pub mod context;
pub mod decode;
pub mod driver;
pub mod error;
pub mod header;
pub mod mapping;
pub mod plugin;
pub mod plugins;
pub mod source;

pub use context::{Context, ContextValue, RenderedMarkdown};
pub use driver::{exec_plugin, insert_read_value, Command};
pub use error::Error;
pub use header::read_header;
pub use mapping::VarMapping;
pub use plugin::{ArgSpec, CompileVariablePlugin, PluginArgs};
pub use source::{Interpretation, Source, StreamRead};
