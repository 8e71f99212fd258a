use vstd::prelude::*;

verus! {

#[derive(Debug)]
pub struct ReindexRes {
    /// How many articles were pushed to the index.
    pub indexed: usize,
}

} // verus!
