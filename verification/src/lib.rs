//! Layered resolution of configurable options for a diff-viewing CLI tool.
//!
//! Every option of the tool has a final value determined by merging four
//! sources with strict precedence: an explicit command-line value, the
//! active presets (later-listed presets win, per option), the global
//! section of the external git configuration store, and the compiled-in
//! default. The modules here model that store, expand option names into
//! ordered lists of store keys, hold the builtin preset tables, and run
//! the per-option resolution.

pub mod builtin;
pub mod get_default;
pub mod git_config_get;
pub mod keys;
pub mod laws;
pub mod options;
pub mod presets;
pub mod resolve;
pub mod set_options;
pub mod store;
pub mod text;
