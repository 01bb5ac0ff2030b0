//! Typed bindings to a payments REST API: request encoding that omits absent
//! optional fields, entity decoding with exact field rules, a generic paginated
//! list, and a polymorphic source decoder.

pub mod json;
pub mod decode;
pub mod list;
pub mod encode;
pub mod resources;
pub mod client;
