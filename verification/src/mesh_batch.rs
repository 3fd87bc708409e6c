use vstd::prelude::*;
use crate::Context;

verus! {

/// Placeholder for batched mesh drawing; carries no state yet.
pub struct MeshBatch {}

impl MeshBatch {
    pub fn new(_ctx: &Context) -> (b: Self) {
        MeshBatch {  }
    }
}

} // verus!
