//! Verified core of a multi-transport tool server.
//!
//! - `security`: the path sandbox, deciding from what the filesystem reports.
//! - `path`: paths as sequences of components.
//! - `transport_config`, `transport`: which transport runs, with which
//!   settings, and the raw-socket listener's decisions.
//! - `rpc`: the JSON-RPC 2.0 envelope, method routing and error codes.
//! - `config`: the server configuration read from the environment.
//! - `tools`, `prompts`, `templates`, `resources`: the registries, prompt
//!   rendering and resource reading.
//! - `fs_tools`, `tags`, `cover`, `musicbrainz`, `search`, `tracklist`: the
//!   decisions and result shaping of the file, tag and catalogue tools.
//! - `text`: character-level string helpers.

pub mod text;
pub mod path;
pub mod musicbrainz;
pub mod cover;
pub mod transport_config;
pub mod transport;
pub mod config;
pub mod security;
pub mod rpc;
pub mod resources;
pub mod tools;
pub mod prompts;
pub mod fs_tools;
pub mod templates;
pub mod tags;
pub mod search;
pub mod tracklist;
