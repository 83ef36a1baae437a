//! Client-side building blocks for the xi editor front-end protocol.
//!
//! The crate is split in two families of modules. `protocol` holds the wire
//! records, the line codec and the request/response bookkeeping of an RPC
//! endpoint. `api` holds the state an editor front-end keeps for each view:
//! the line cache, the viewport, the style cache and the list of views.
//! Beside them, `client` builds the calls that a front-end makes, `frontend`
//! sorts the calls that it receives, `diagnostics` cuts the core's error
//! output into lines, and `errors` names what can go wrong.
//!
//! Everything here is synchronous and free of I/O: byte streams, channels and
//! task scheduling belong to the program that embeds the crate.
//!
//! Six modules are the boundary to other crates and to the standard
//! library: `json` (to `serde_json`), `buffer` (to `bytes`), `channel` (to
//! `futures`), `ordered` (to `indexmap`), `highlighting` (to `syntect`) and
//! `text` (to `std`). What they say of the outside functions is stated and
//! not proved; everything else is proved from it.

pub mod api;
pub mod buffer;
pub mod channel;
pub mod client;
pub mod diagnostics;
pub mod errors;
pub mod frontend;
pub mod highlighting;
pub mod json;
pub mod location;
pub mod ordered;
pub mod protocol;
pub mod test_client;
pub mod text;

pub use self::errors::{ClientError, ServerError};
pub use self::location::XiLocation;
