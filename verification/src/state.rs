//! What a pass over one file works on.
use vstd::prelude::*;
use crate::nodes::EnderpyFile;

verus! {

/// The file under analysis.
#[derive(Debug)]
pub struct State {
    pub file: EnderpyFile,
}

} // verus!
