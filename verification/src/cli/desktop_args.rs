use vstd::prelude::*;

verus! {

/// build for the desktop platform using gtk
#[derive(Debug, Clone, PartialEq, Eq)]
pub struct DesktopArgs {}

} // verus!
