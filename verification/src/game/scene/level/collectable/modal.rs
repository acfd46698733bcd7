use vstd::prelude::*;

verus! {

/// Marks the modal that shows a newly collected item
#[derive(Default)]
pub struct CollectableModal;

} // verus!
