use vstd::prelude::*;

verus! {

#[derive(Debug, Clone)]
pub struct ImageRef {
    pub url: String,
}

} // verus!
