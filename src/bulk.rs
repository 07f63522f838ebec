//! The bulk write request built from one batch of records.
use vstd::prelude::*;
use crate::generator::FakeData;

verus! {

/// One "index document" operation of a bulk request.
#[derive(Debug, Clone)]
pub struct IndexOp {
    /// The document identifier.
    pub id: String,
    /// The routing key, always the document identifier.
    pub routing: String,
    /// The document written.
    pub source: FakeData,
}

/// `op` writes `rec` under its own identifier, routed by that identifier.
pub open spec fn indexes_record(op: IndexOp, rec: FakeData) -> bool {
    &&& op.id@ == rec.id@
    &&& op.routing@ == rec.id@
    &&& op.source.id@ == rec.id@
    &&& op.source.body@ == rec.body@
}

/// The operations of one bulk request for `batch`: one per record, in the
/// batch's order, each keyed and routed by its record's identifier.
pub fn build_bulk_request(batch: &Vec<FakeData>) -> (r: Vec<IndexOp>)
    ensures
        r.len() == batch.len(),
        forall|i: int| 0 <= i < r.len() ==> indexes_record(#[trigger] r[i], batch[i]),
{
    let mut ops: Vec<IndexOp> = Vec::new();
    let mut i: usize = 0;
    while i < batch.len()
        invariant
            i <= batch.len(),
            ops.len() == i,
            forall|j: int| 0 <= j < i ==> indexes_record(#[trigger] ops[j], batch[j]),
        decreases batch.len() - i,
    {
        let rec = &batch[i];
        let op = IndexOp {
            id: rec.id.clone(),
            routing: rec.id.clone(),
            source: FakeData { id: rec.id.clone(), body: rec.body.clone() },
        };
        ops.push(op);
        i = i + 1;
    }
    ops
}

} // verus!
