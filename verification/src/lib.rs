//! Verified core of a sandboxed program runner for an online judge: the run settings
//! read from a TOML configuration, the languages and their command lines, the control-group
//! limits of a run, the judger interfaces and the plugin list.

pub mod context;
pub mod env;
pub mod judger;
pub mod lang;
pub mod limits;
pub mod plugin;
pub mod stages;
pub mod toml_table;

pub use context::Context;
pub use env::Env;
pub use judger::Judger;
pub use lang::Lang;
pub use plugin::{find_plugin, register_plugin, PluginList};
