//! Help and usage text synthesis for a command-line argument schema.
//!
//! A declarative command descriptor — positionals, switches, value-taking
//! options, an optional sub-command link, examples, notes and error codes —
//! is rendered deterministically into two artifacts: a human-readable text
//! document and a JSON document. Both are produced as templates whose two
//! deferred slots, the `{command_name}` token and the sub-command listing,
//! are resolved only at the moment of use, because they depend on how deep
//! in a sub-command chain the program was invoked.

pub mod descriptor;
pub mod escape;
pub mod json_help;
pub mod laws;
pub mod text;
pub mod text_help;
pub mod usage;
pub mod validate;
pub mod wrap;
