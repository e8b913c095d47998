//! Storage routing layer: a registry of key/value backends with a
//! deterministic merge of their outcomes, a signed-plugin admission pipeline,
//! an admission gate, a cooperative cancellation token, and the value
//! encodings of the blob, database and integrity-log backends.
use vstd::prelude::*;

pub mod cancellation;
pub mod detailmem;
pub mod hub;
pub mod longmem;
pub mod merkle;
pub mod plugin;
pub mod policy;
pub mod signature;
pub mod sloguard;

pub use cancellation::CancellationToken;
pub use detailmem::DetailMem;
pub use hub::MemoryHub;
pub use longmem::LongMem;
pub use plugin::{PluginError, PluginKind, PluginLoader};
pub use policy::{AllowAllPolicy, PolicyEngine};
pub use sloguard::SloGuard;

verus! {

/// The bytes of an optional byte vector.
pub open spec fn bytes_of(v: Option<Vec<u8>>) -> Option<Seq<u8>> {
    match v {
        Some(b) => Some(b@),
        None => None,
    }
}

} // verus!
