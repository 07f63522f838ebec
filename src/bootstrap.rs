//! The one-time check that the target index exists, and its schema.
use vstd::prelude::*;

verus! {

/// Shards of the created index.
pub const NUMBER_OF_SHARDS: u32 = 3;

/// Replicas of the created index.
pub const NUMBER_OF_REPLICAS: u32 = 0;

/// The status with which the existence check reports a missing index.
pub const STATUS_NOT_FOUND: u16 = 404;

/// The name of the index that every bulk request writes to.
pub fn index_name() -> (r: &'static str)
    ensures
        r@ == seq!['t', 'e', 's', 't'],
{
    proof {
        reveal_strlit("test");
    }
    "test"
}

/// The one field of the schema, mapped as text.
pub fn body_field() -> (r: &'static str)
    ensures
        r@ == seq!['b', 'o', 'd', 'y'],
{
    proof {
        reveal_strlit("body");
    }
    "body"
}

/// The JSON body of the creation call: the field `body` mapped as text,
/// `NUMBER_OF_SHARDS` shards and `NUMBER_OF_REPLICAS` replicas.
pub fn index_schema() -> (r: &'static str)
    ensures
        r@ == "{\"mappings\":{\"properties\":{\"body\":{\"type\":\"text\"}}},\"settings\":{\"index.number_of_shards\":3,\"index.number_of_replicas\":0}}"@,
{
    proof {
        reveal_strlit("{\"mappings\":{\"properties\":{\"body\":{\"type\":\"text\"}}},\"settings\":{\"index.number_of_shards\":3,\"index.number_of_replicas\":0}}");
    }
    "{\"mappings\":{\"properties\":{\"body\":{\"type\":\"text\"}}},\"settings\":{\"index.number_of_shards\":3,\"index.number_of_replicas\":0}}"
}

/// What follows the existence check.
#[derive(Debug, Clone, Copy, PartialEq, Eq, Structural)]
pub enum BootstrapStep {
    /// Issue one creation call with the fixed schema.
    CreateIndex,
    /// Nothing more to do.
    Done,
}

/// The step after an existence check answered with `status`.
pub open spec fn step_after_check(status: u16) -> BootstrapStep {
    if status == STATUS_NOT_FOUND {
        BootstrapStep::CreateIndex
    } else {
        BootstrapStep::Done
    }
}

/// The number of creation calls that the bootstrap issues after an
/// existence check answered with `status`.
pub open spec fn creation_calls(status: u16) -> nat {
    if step_after_check(status) == BootstrapStep::CreateIndex {
        1
    } else {
        0
    }
}

/// The step after an existence check answered with `status`: create the
/// index exactly when it was not found.
pub fn after_exists_check(status: u16) -> (r: BootstrapStep)
    ensures
        r == step_after_check(status),
{
    if status == STATUS_NOT_FOUND {
        BootstrapStep::CreateIndex
    } else {
        BootstrapStep::Done
    }
}

/// Whether a creation call answered with `status` failed, which is
/// reported and not fatal: any status outside 200 to 299.
pub fn creation_failed(status: u16) -> (r: bool)
    ensures
        r == !(200 <= status && status <= 299),
{
    !(200 <= status && status <= 299)
}

/// The bootstrap issues exactly one creation call when the index is
/// absent, and none when it is already present.
pub proof fn lemma_bootstrap_creates_once(status: u16)
    ensures
        status == STATUS_NOT_FOUND ==> creation_calls(status) == 1,
        status != STATUS_NOT_FOUND ==> creation_calls(status) == 0,
{
}

} // verus!
