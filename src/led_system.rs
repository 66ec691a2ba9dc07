use vstd::prelude::*;

verus! {

/// The three addressable LED strips.
#[derive(Clone, Copy, Debug, PartialEq, Eq, Structural)]
pub enum LedStrip {
    Left,
    Right,
    Back,
}

/// One period's drawing on the strips.
#[derive(Clone, Copy, Debug, PartialEq, Eq, Structural)]
pub enum LedAction {
    /// Paint the strip with the full red-to-red hue gradient.
    Gradient(LedStrip),
    /// Rotate the strip's colours by one LED.
    Rotate(LedStrip),
}

/// The drawing for frame `i` of the animation: the first three frames paint
/// the right, left and back strips with a gradient; from then on the left,
/// right and back strips are rotated in turn.
pub open spec fn led_action(i: nat) -> LedAction {
    if i == 0 {
        LedAction::Gradient(LedStrip::Right)
    } else if i == 1 {
        LedAction::Gradient(LedStrip::Left)
    } else if i == 2 {
        LedAction::Gradient(LedStrip::Back)
    } else if i % 3 == 0 {
        LedAction::Rotate(LedStrip::Left)
    } else if i % 3 == 1 {
        LedAction::Rotate(LedStrip::Right)
    } else {
        LedAction::Rotate(LedStrip::Back)
    }
}

/// From frame three on the animation repeats every three frames.
pub proof fn lemma_led_period(i: nat)
    requires
        i >= 3,
    ensures
        led_action(i + 3) == led_action(i),
{
}

/// The animation of the status LED strips, one frame per period.
pub struct LedSystem {
    frame: u8,
}

impl LedSystem {
    /// The frame to draw next. Past the opening gradients only the position
    /// within the rotation matters, so frames are counted as 3, 4, 5, 3, ...
    pub closed spec fn frame(self) -> nat {
        self.frame as nat
    }

    pub closed spec fn wf(self) -> bool {
        self.frame <= 5
    }

    pub fn new() -> (r: Self)
        ensures
            r.wf(),
            r.frame() == 0,
    {
        LedSystem { frame: 0 }
    }

    /// Returns this period's drawing and moves to the next frame.
    pub fn next_action(&mut self) -> (r: LedAction)
        requires
            old(self).wf(),
        ensures
            final(self).wf(),
            r == led_action(old(self).frame()),
            led_action(final(self).frame()) == led_action(old(self).frame() + 1),
    {
        let i = self.frame;
        let action = if i == 0 {
            LedAction::Gradient(LedStrip::Right)
        } else if i == 1 {
            LedAction::Gradient(LedStrip::Left)
        } else if i == 2 {
            LedAction::Gradient(LedStrip::Back)
        } else if i % 3 == 0 {
            LedAction::Rotate(LedStrip::Left)
        } else if i % 3 == 1 {
            LedAction::Rotate(LedStrip::Right)
        } else {
            LedAction::Rotate(LedStrip::Back)
        };
        self.frame = if i < 5 {
            i + 1
        } else {
            3
        };
        action
    }
}

} // verus!
