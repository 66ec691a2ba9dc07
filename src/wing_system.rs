use vstd::prelude::*;

use crate::input::ControllerState;
use crate::utils::{toggled, Toggle};

verus! {

/// The states to write to the two wing solenoids (`true`: deployed).
#[derive(Clone, Copy, Debug, PartialEq, Eq)]
pub struct WingCommand {
    pub left: bool,
    pub right: bool,
}

/// Controller of the two wings, each deployed and retracted by its own button.
pub struct WingSystem {
    left_wing: Toggle,
    right_wing: Toggle,
}

impl WingSystem {
    pub closed spec fn left_deployed(self) -> bool {
        self.left_wing.is_active()
    }

    pub closed spec fn right_deployed(self) -> bool {
        self.right_wing.is_active()
    }

    pub closed spec fn left_button(self) -> bool {
        self.left_wing.previous()
    }

    pub closed spec fn right_button(self) -> bool {
        self.right_wing.previous()
    }

    pub fn new() -> (r: Self)
        ensures
            !r.left_deployed() && !r.right_deployed(),
            !r.left_button() && !r.right_button(),
    {
        WingSystem { left_wing: Toggle::new(), right_wing: Toggle::new() }
    }

    /// Sets the left wing; returns the state to write to its solenoid.
    pub fn set_left_state(&mut self, state: bool) -> (r: bool)
        ensures
            r == state,
            final(self).left_deployed() == state,
            final(self).right_deployed() == old(self).right_deployed(),
            final(self).left_button() == old(self).left_button(),
            final(self).right_button() == old(self).right_button(),
    {
        self.left_wing.set(state);
        state
    }

    /// Sets the right wing; returns the state to write to its solenoid.
    pub fn set_right_state(&mut self, state: bool) -> (r: bool)
        ensures
            r == state,
            final(self).right_deployed() == state,
            final(self).left_deployed() == old(self).left_deployed(),
            final(self).left_button() == old(self).left_button(),
            final(self).right_button() == old(self).right_button(),
    {
        self.right_wing.set(state);
        state
    }

    /// One operator-control cycle: Down toggles the left wing, B the right.
    /// Both solenoid states are returned every cycle, changed or not.
    pub fn driver_control_cycle(&mut self, controller: &ControllerState) -> (r: WingCommand)
        ensures
            r.left == toggled(old(self).left_button(), old(self).left_deployed(), controller.down),
            r.right == toggled(
                old(self).right_button(),
                old(self).right_deployed(),
                controller.b,
            ),
            final(self).left_deployed() == r.left,
            final(self).right_deployed() == r.right,
            final(self).left_button() == controller.down,
            final(self).right_button() == controller.b,
    {
        let left = self.left_wing.update(controller.down);
        let right = self.right_wing.update(controller.b);
        WingCommand { left, right }
    }
}

} // verus!
