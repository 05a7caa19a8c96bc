use vstd::prelude::*;

verus! {

// The other search-result records carry floating-point relevance scores and
// therefore live beside the transport code, outside the verified library.
#[derive(Debug, Clone)]
pub struct SearchResultClusterInfo {
    pub category: String,
    pub id: String,
    pub cluster_type: String,
}

} // verus!
