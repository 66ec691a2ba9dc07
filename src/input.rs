use vstd::prelude::*;

verus! {

/// Ratios (stick positions, motor powers) are fixed-point integers in which
/// `RATIO_ONE` stands for 1.0, full power.
pub const RATIO_ONE: i64 = 1_000_000;

/// Whether `x` is a ratio in [-1, 1].
pub open spec fn in_unit_range(x: int) -> bool {
    -RATIO_ONE <= x <= RATIO_ONE
}

/// One cycle's snapshot of the operator's controller: stick axes as ratios,
/// buttons as pressed or not. A failed read is given here as 0 or `false`.
#[derive(Clone, Copy, Debug, PartialEq, Eq)]
pub struct ControllerState {
    pub left_y: i64,
    pub right_y: i64,
    pub y: bool,
    pub b: bool,
    pub down: bool,
    pub right: bool,
    pub l1: bool,
    pub l2: bool,
}

impl ControllerState {
    pub open spec fn wf(self) -> bool {
        in_unit_range(self.left_y as int) && in_unit_range(self.right_y as int)
    }

    /// A controller at rest: sticks centred, no button pressed.
    pub fn idle() -> (r: Self)
        ensures
            r.wf(),
            r.left_y == 0 && r.right_y == 0,
            !r.y && !r.b && !r.down && !r.right && !r.l1 && !r.l2,
    {
        ControllerState {
            left_y: 0,
            right_y: 0,
            y: false,
            b: false,
            down: false,
            right: false,
            l1: false,
            l2: false,
        }
    }
}

} // verus!
