//! A load generator for a document-indexing service: the verified core that
//! decides what is sent, how many requests may be in flight, and which cores
//! are used.
use vstd::prelude::*;

pub mod generator;
pub mod window;
pub mod endpoint;
pub mod dispatch;
pub mod clock;
pub mod progress;
pub mod bulk;
pub mod bootstrap;

verus! {

} // verus!
