//! The screen shown after logging in.

use vstd::prelude::*;
use crate::action::{actions_view, no_actions, nothing, Action};
use crate::app::AppMessage;

verus! {

#[derive(Debug, Clone, Copy, PartialEq, Eq, Structural)]
pub struct HomeScreen {}

impl HomeScreen {
    pub fn new() -> Self {
        HomeScreen {  }
    }

    /// The home screen takes no message and asks for nothing.
    pub fn update(&mut self, message: AppMessage) -> (actions: Vec<Action>)
        ensures
            *final(self) == *old(self),
            actions_view(actions@) == nothing(),
    {
        no_actions()
    }
}

} // verus!
