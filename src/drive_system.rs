use vstd::prelude::*;

use crate::input::{in_unit_range, ControllerState, RATIO_ONE};
use crate::utils::{slew, toggled, Dampener, Toggle};

verus! {

/// Largest change of either side's operator command per cycle (0.4).
pub const DRIVE_SLEW_STEP: i64 = 400_000;

/// Largest linear or turning speed of an autonomous command (50%).
pub const AUTON_MAX_SPEED: i64 = 500_000;

/// Linear speed per thousandth of an inch of remaining distance (0.05 per inch).
pub const LINEAR_GAIN: i64 = 50;

/// Distance, in thousandths of an inch, at which the linear speed saturates.
pub const LINEAR_SATURATION: i64 = 10_000;

/// Turning speed per millionth of a radian of heading error (1.0 per radian).
pub const TURN_GAIN: i64 = 1;

/// Output of a trajectory follower for one cycle: the distance still to go,
/// in thousandths of an inch, and the heading error, in millionths of a radian.
#[derive(Clone, Copy, Debug, PartialEq, Eq)]
pub struct PurePursuitCommands {
    pub distance: i64,
    pub heading: i64,
}

/// Powers for the left and right sides of a tank drive, as ratios.
#[derive(Clone, Copy, Debug, PartialEq, Eq)]
pub struct TankCommand {
    pub left: i64,
    pub right: i64,
}

pub open spec fn clamp(x: int, lo: int, hi: int) -> int {
    if x < lo {
        lo
    } else if x > hi {
        hi
    } else {
        x
    }
}

pub open spec fn linear_speed(distance: int) -> int {
    clamp(LINEAR_GAIN * distance, -AUTON_MAX_SPEED, AUTON_MAX_SPEED as int)
}

pub open spec fn turn_speed(heading: int) -> int {
    clamp(TURN_GAIN * heading, -AUTON_MAX_SPEED, AUTON_MAX_SPEED as int)
}

/// Side powers for an autonomous command: linear speed plus and minus turn.
pub open spec fn autonomous_tank(c: PurePursuitCommands) -> (int, int) {
    (
        linear_speed(c.distance as int) + turn_speed(c.heading as int),
        linear_speed(c.distance as int) - turn_speed(c.heading as int),
    )
}

/// What a drive controller remembers between cycles.
pub struct DriveView {
    /// The last sample of the reversal button.
    pub reverse_button: bool,
    /// Whether the drive is reversed.
    pub reversed: bool,
    /// The left side's last operator power.
    pub left: int,
    /// The right side's last operator power.
    pub right: int,
}

/// One operator cycle: the reversal mode is updated from the button, the
/// sticks are swapped and negated while reversed, and each side is slewed.
/// Gives the new state and the side powers.
pub open spec fn operator_step(s: DriveView, left_in: int, right_in: int, button: bool) -> (
    DriveView,
    (int, int),
) {
    let reversed = toggled(s.reverse_button, s.reversed, button);
    let l = if reversed {
        -right_in
    } else {
        left_in
    };
    let r = if reversed {
        -left_in
    } else {
        right_in
    };
    let lo = slew(s.left, DRIVE_SLEW_STEP as int, l);
    let ro = slew(s.right, DRIVE_SLEW_STEP as int, r);
    (DriveView { reverse_button: button, reversed, left: lo, right: ro }, (lo, ro))
}

/// One autonomous cycle: the state is left alone, and a present command
/// gives its side powers.
pub open spec fn autonomous_step(s: DriveView, c: Option<PurePursuitCommands>) -> (
    DriveView,
    Option<(int, int)>,
) {
    match c {
        Some(c) => (s, Some(autonomous_tank(c))),
        None => (s, None),
    }
}

/// Autonomous commands bypass the operator's slew limiters: whatever operator
/// cycle came before, the autonomous output is the one computed from the
/// command alone, and it leaves the limiters as the operator left them.
pub proof fn lemma_autonomous_bypass(
    s: DriveView,
    left_in: int,
    right_in: int,
    button: bool,
    c: Option<PurePursuitCommands>,
)
    ensures
        autonomous_step(operator_step(s, left_in, right_in, button).0, c).1 == autonomous_step(
            s,
            c,
        ).1,
        autonomous_step(operator_step(s, left_in, right_in, button).0, c).0 == operator_step(
            s,
            left_in,
            right_in,
            button,
        ).0,
        c matches Some(cmd) ==> autonomous_step(
            operator_step(s, left_in, right_in, button).0,
            c,
        ).1 == Some(autonomous_tank(cmd)),
{
}

/// Controller of the drivetrain: reversal mode and one slew limiter per side.
pub struct DriveSystem {
    reversal: Toggle,
    left_dampener: Dampener,
    right_dampener: Dampener,
}

impl DriveSystem {
    pub closed spec fn view(self) -> DriveView {
        DriveView {
            reverse_button: self.reversal.previous(),
            reversed: self.reversal.is_active(),
            left: self.left_dampener.current(),
            right: self.right_dampener.current(),
        }
    }

    pub closed spec fn wf(self) -> bool {
        &&& self.left_dampener.wf()
        &&& self.right_dampener.wf()
        &&& self.left_dampener.limit() == DRIVE_SLEW_STEP
        &&& self.right_dampener.limit() == DRIVE_SLEW_STEP
        &&& in_unit_range(self.left_dampener.current())
        &&& in_unit_range(self.right_dampener.current())
    }

    pub fn new() -> (r: Self)
        ensures
            r.wf(),
            r.view() == (DriveView { reverse_button: false, reversed: false, left: 0, right: 0 }),
    {
        DriveSystem {
            reversal: Toggle::new(),
            left_dampener: Dampener::new(DRIVE_SLEW_STEP),
            right_dampener: Dampener::new(DRIVE_SLEW_STEP),
        }
    }

    /// Whether the drive is reversed.
    pub fn reversed(&self) -> (r: bool)
        ensures
            r == self.view().reversed,
    {
        self.reversal.active()
    }

    /// Consumes one operator sample and returns the side powers to command.
    pub fn apply_operator_input(&mut self, left_raw: i64, right_raw: i64, reversal_button: bool) -> (r:
        TankCommand)
        requires
            old(self).wf(),
            in_unit_range(left_raw as int),
            in_unit_range(right_raw as int),
        ensures
            final(self).wf(),
            (final(self).view(), (r.left as int, r.right as int)) == operator_step(
                old(self).view(),
                left_raw as int,
                right_raw as int,
                reversal_button,
            ),
            in_unit_range(r.left as int),
            in_unit_range(r.right as int),
    {
        let reversed = self.reversal.update(reversal_button);
        let (left_input, right_input) = if reversed {
            (-right_raw, -left_raw)
        } else {
            (left_raw, right_raw)
        };
        let left = self.left_dampener.cycle(left_input);
        let right = self.right_dampener.cycle(right_input);
        TankCommand { left, right }
    }

    /// One operator-control cycle: the sticks drive each side, button Y
    /// toggles reversal.
    pub fn driver_control_cycle(&mut self, controller: &ControllerState) -> (r: TankCommand)
        requires
            old(self).wf(),
            controller.wf(),
        ensures
            final(self).wf(),
            (final(self).view(), (r.left as int, r.right as int)) == operator_step(
                old(self).view(),
                controller.left_y as int,
                controller.right_y as int,
                controller.y,
            ),
            in_unit_range(r.left as int),
            in_unit_range(r.right as int),
    {
        self.apply_operator_input(controller.left_y, controller.right_y, controller.y)
    }

    /// Consumes one autonomous cycle's command, if any, and returns the side
    /// powers to command; the operator's slew limiters take no part.
    pub fn run_pure_pursuit_commands(&mut self, commands: Option<PurePursuitCommands>) -> (r: Option<
        TankCommand,
    >)
        requires
            old(self).wf(),
        ensures
            final(self).wf(),
            final(self).view() == old(self).view(),
            r is Some <==> commands is Some,
            r matches Some(t) ==> autonomous_step(old(self).view(), commands).1 == Some(
                (t.left as int, t.right as int),
            ),
            r matches Some(t) ==> in_unit_range(t.left as int) && in_unit_range(t.right as int),
    {
        match commands {
            Some(c) => {
                let linear = linear_command(c.distance);
                let turn = turn_command(c.heading);
                Some(TankCommand { left: linear + turn, right: linear - turn })
            },
            None => None,
        }
    }
}

fn linear_command(distance: i64) -> (r: i64)
    ensures
        r == linear_speed(distance as int),
{
    if distance >= LINEAR_SATURATION {
        AUTON_MAX_SPEED
    } else if distance <= -LINEAR_SATURATION {
        -AUTON_MAX_SPEED
    } else {
        distance * LINEAR_GAIN
    }
}

fn turn_command(heading: i64) -> (r: i64)
    ensures
        r == turn_speed(heading as int),
{
    if heading >= AUTON_MAX_SPEED {
        AUTON_MAX_SPEED
    } else if heading <= -AUTON_MAX_SPEED {
        -AUTON_MAX_SPEED
    } else {
        heading * TURN_GAIN
    }
}

} // verus!
