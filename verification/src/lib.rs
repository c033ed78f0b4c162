//! Client-side configuration engine for a tunneling proxy: a codec between
//! compact `vmess://` share links and structured outbound entries, an
//! assembler that merges user settings and outbound entries into the engine's
//! JSON configuration document, and a supervisor state machine for the engine
//! process.

pub mod b64;
pub mod config;
pub mod descriptor;
pub mod docjson;
pub mod errors;
pub mod generate;
pub mod jsonparse;
pub mod jsontext;
pub mod proxy;
pub mod schema;
pub mod strutil;
pub mod supervisor;
pub mod transport;
pub mod vmess;
