//! The home screen.  It shows static choices and holds no state of its own.

use vstd::prelude::*;

verus! {

/// The home screen's state: empty, as the screen only presents choices.
#[derive(Debug, Clone, PartialEq, Eq, Structural)]
pub struct HomeScreen;

impl HomeScreen {
    pub fn new() -> (r: HomeScreen)
        ensures
            r == HomeScreen,
    {
        HomeScreen
    }
}

} // verus!
