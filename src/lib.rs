use vstd::prelude::*;

pub mod meta;
pub mod migration;
pub mod protocol;
pub mod replication;
pub mod retriever;
pub mod router;
pub mod session;
pub mod supervisor;
pub mod text;

verus! {

} // verus!
