use vstd::prelude::*;

verus! {

/// build for the web platform
#[derive(Debug, Clone, PartialEq, Eq)]
pub struct WebArgs {
    pub serve: bool,
}

} // verus!
