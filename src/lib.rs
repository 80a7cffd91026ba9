//! Server-side integration of pushed commits: strategy dispatch for resolved
//! unbundle actions, bookmark movement with compare-and-swap semantics, hook
//! rejection remapping and the error taxonomy reported to the protocol layer.
//!
//! Around that engine stand the pieces of repository tooling it works with:
//! the command-line model of Mononoke binaries, database and EdenAPI client
//! options, the wire types of EdenAPI, the bonsai/Mercurial id mapping and
//! the key prefixing of blobstores.

pub mod ids;
pub mod repo;
pub mod movement;
pub mod hooks;
pub mod actions;
pub mod errors;
pub mod side_effects;
pub mod processing;
pub mod laws;
pub mod cmdlib;
pub mod sql_options;
pub mod wire;
pub mod edenapi;
pub mod bonsai_hg_mapping;
pub mod prefixblob;
