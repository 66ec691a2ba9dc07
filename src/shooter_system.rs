use vstd::prelude::*;

use crate::input::ControllerState;
use crate::utils::{toggled, Toggle};

verus! {

/// Catapult power while loading, launching or driven by hand (75%).
pub const SHOOTER_FULL_POWER: i64 = 750_000;

/// Catapult power that holds a loaded catapult in place (15%).
pub const SHOOTER_HOLD_POWER: i64 = 150_000;

/// Catapult power for one operator cycle. In manual mode L1 winds forward, L2
/// backward, neither stops. Otherwise the catapult is held at low power while
/// the limit switch reports it loaded and L1 is not pressed, and driven at
/// full power else.
pub open spec fn shooter_power(manual: bool, loaded: bool, l1: bool, l2: bool) -> int {
    if manual {
        if l1 {
            SHOOTER_FULL_POWER as int
        } else if l2 {
            -SHOOTER_FULL_POWER
        } else {
            0
        }
    } else if loaded && !l1 {
        SHOOTER_HOLD_POWER as int
    } else {
        SHOOTER_FULL_POWER as int
    }
}

/// Where a launch stands.
#[derive(Clone, Copy, Debug, PartialEq, Eq, Structural)]
pub enum LaunchPhase {
    /// Winding down until the limit switch reports the catapult loaded.
    Loading,
    /// Still driving until the limit switch lets go: the shot is released.
    Releasing,
    /// The motor has been stopped; nothing more is to be done.
    Finished,
}

/// What happened since the last step of a launch.
#[derive(Clone, Copy, Debug, PartialEq, Eq, Structural)]
pub enum LaunchEvent {
    /// A fresh reading of the limit switch (`true`: loaded).
    Switch(bool),
    /// The launch was asked to stop.
    Cancelled,
}

/// The motor power to write after a step, and whether the launch is over.
#[derive(Clone, Copy, Debug, PartialEq, Eq, Structural)]
pub struct LaunchAction {
    pub power: i64,
    pub finished: bool,
}

/// The phase after an event, and the power to write.
pub open spec fn launch_step(phase: LaunchPhase, event: LaunchEvent) -> (LaunchPhase, int) {
    match event {
        LaunchEvent::Cancelled => (LaunchPhase::Finished, 0),
        LaunchEvent::Switch(loaded) => match phase {
            LaunchPhase::Loading => if loaded {
                (LaunchPhase::Releasing, SHOOTER_FULL_POWER as int)
            } else {
                (LaunchPhase::Loading, SHOOTER_FULL_POWER as int)
            },
            LaunchPhase::Releasing => if loaded {
                (LaunchPhase::Releasing, SHOOTER_FULL_POWER as int)
            } else {
                (LaunchPhase::Finished, 0)
            },
            LaunchPhase::Finished => (LaunchPhase::Finished, 0),
        },
    }
}

/// A launch of the catapult, driven one period at a time by its caller: load,
/// then release, then stop. It may be cancelled at any step.
pub struct LaunchSequence {
    phase: LaunchPhase,
}

impl LaunchSequence {
    pub closed spec fn phase(self) -> LaunchPhase {
        self.phase
    }

    pub fn new() -> (r: Self)
        ensures
            r.phase() == LaunchPhase::Loading,
    {
        LaunchSequence { phase: LaunchPhase::Loading }
    }

    /// Takes one event and returns the power to write. A finished action
    /// always carries zero power, and a cancellation always finishes.
    pub fn step(&mut self, event: LaunchEvent) -> (r: LaunchAction)
        ensures
            (final(self).phase(), r.power as int) == launch_step(old(self).phase(), event),
            r.finished <==> final(self).phase() == LaunchPhase::Finished,
            r.finished ==> r.power == 0,
            event == LaunchEvent::Cancelled ==> r.finished && r.power == 0,
    {
        let (phase, power) = match event {
            LaunchEvent::Cancelled => (LaunchPhase::Finished, 0),
            LaunchEvent::Switch(loaded) => match self.phase {
                LaunchPhase::Loading => if loaded {
                    (LaunchPhase::Releasing, SHOOTER_FULL_POWER)
                } else {
                    (LaunchPhase::Loading, SHOOTER_FULL_POWER)
                },
                LaunchPhase::Releasing => if loaded {
                    (LaunchPhase::Releasing, SHOOTER_FULL_POWER)
                } else {
                    (LaunchPhase::Finished, 0)
                },
                LaunchPhase::Finished => (LaunchPhase::Finished, 0),
            },
        };
        self.phase = phase;
        let finished = match phase {
            LaunchPhase::Finished => true,
            _ => false,
        };
        LaunchAction { power, finished }
    }
}

/// Once cancelled, a launch stays finished at zero power whatever comes next.
pub proof fn lemma_cancelled_stays_stopped(phase: LaunchPhase, next: LaunchEvent)
    ensures
        launch_step(launch_step(phase, LaunchEvent::Cancelled).0, next) == (
            LaunchPhase::Finished,
            0int,
        ),
{
}

/// Controller of the catapult: a manual-mode toggle on the right button.
pub struct ShooterSystem {
    manual: Toggle,
}

impl ShooterSystem {
    pub closed spec fn manual_enabled(self) -> bool {
        self.manual.is_active()
    }

    pub closed spec fn manual_button(self) -> bool {
        self.manual.previous()
    }

    pub fn new() -> (r: Self)
        ensures
            !r.manual_enabled(),
            !r.manual_button(),
    {
        ShooterSystem { manual: Toggle::new() }
    }

    /// Starts a launch, which its caller then steps once per period.
    pub fn shoot_once(&self) -> (r: LaunchSequence)
        ensures
            r.phase() == LaunchPhase::Loading,
    {
        LaunchSequence::new()
    }

    /// One operator-control cycle: `loaded` is the limit switch's reading.
    /// Returns the catapult power to command.
    pub fn driver_control_cycle(&mut self, controller: &ControllerState, loaded: bool) -> (r: i64)
        ensures
            final(self).manual_enabled() == toggled(
                old(self).manual_button(),
                old(self).manual_enabled(),
                controller.right,
            ),
            final(self).manual_button() == controller.right,
            r == shooter_power(final(self).manual_enabled(), loaded, controller.l1, controller.l2),
    {
        let manual = self.manual.update(controller.right);
        if manual {
            if controller.l1 {
                SHOOTER_FULL_POWER
            } else if controller.l2 {
                -SHOOTER_FULL_POWER
            } else {
                0
            }
        } else if loaded && !controller.l1 {
            SHOOTER_HOLD_POWER
        } else {
            SHOOTER_FULL_POWER
        }
    }
}

} // verus!
