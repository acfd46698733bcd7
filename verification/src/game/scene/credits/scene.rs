use vstd::prelude::*;

verus! {

/// The scene that scrolls the credits
pub struct CreditScene;

} // verus!
