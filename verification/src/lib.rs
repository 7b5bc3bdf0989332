//! A versioned, content-addressable record and its canonical wire encoding.
//!
//! The crate holds one entity, [`object::Object`]: two UTC timestamps, a
//! content-identifier link and a structured-metadata value. Its canonical
//! wire form is a four-entry map of a link-aware node format, and the
//! decoder validates that shape strictly, failing closed on the first
//! violation.

pub mod cid;
pub mod ipld;
pub mod json;
pub mod object;
pub mod timestamp;

pub use cid::Cid;
pub use ipld::Ipld;
pub use object::Object;
pub use object::ObjectIpldError;
pub use timestamp::Timestamp;
