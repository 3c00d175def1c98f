//! Verified data model for the gosumemory game-telemetry feed.
//!
//! The library receives one JSON text document per update and maps it into a
//! strongly typed aggregate, `Gosumemory`, enforcing the feed's field names,
//! numeric kinds and its integer-encoded booleans.  The JSON syntax layer, the
//! schema mapping and the wire encoder all live here and are verified; opening
//! the websocket that delivers the documents is the caller's concern.

pub mod errors;
pub mod legacy;
pub mod json;
pub mod mapper;
pub mod model;
pub mod syntax;
pub mod text;
pub mod wire;
pub mod wirenum;

pub use errors::ParseError;
pub use mapper::parse;
pub use model::Gosumemory;
