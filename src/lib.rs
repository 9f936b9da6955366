//! Static user-space probes for structured tracing events.
//!
//! At build time a probe schema is parsed ([`parse`]), its argument types are mapped to
//! native types ([`schema`]), and wrapper source with one entry function and one
//! enabled-query per probe is generated ([`generate`]); the external tools then run in
//! the order that [`pipeline`] gives. At run time [`translate`] decides which probes an
//! event fires, so that nothing is recorded or encoded while no probe is enabled, and
//! [`fields`] encodes the recorded fields for the native call.

use vstd::prelude::*;

pub mod schema;
pub mod text;
pub mod generate;
pub mod fields;
pub mod translate;
pub mod demo;
pub mod parse;
pub mod pipeline;

verus! {

} // verus!
