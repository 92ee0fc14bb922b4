//! A canonical in-memory representation of a résumé document in the JSON
//! Resume schema, a bidirectional mapping between that representation and a
//! structured wire document, and a validation pass over date-valued fields.
//!
//! The entity tree (`model`) is pure value data. The codec (`encode`,
//! `decode`) translates between the tree and a [`json::Json`] wire value,
//! renaming fields to the schema's external casing and omitting absent
//! optional fields and empty collections. The validator (`valid`) collects
//! every date field that fails the schema's date pattern, with its path.
//!
//! What the codec and the validator do is written down once, at the
//! specification level, in `wire` and `valid`; the executable functions are
//! proved against those statements, and `laws` proves the properties that
//! tie them together, chiefly that every tree survives the round trip
//! through the wire format.

pub mod util;
pub mod json;
pub mod model;
pub mod wire;
pub mod report;
pub mod valid;
pub mod encode;
pub mod decode;
pub mod laws;
