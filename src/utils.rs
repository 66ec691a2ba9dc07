use vstd::prelude::*;

verus! {

/// The value a slew-rate limiter moves to from `current` when asked for
/// `target`: straight to `target` when it lies within `limit`, else `limit`
/// closer to it.
pub open spec fn slew(current: int, limit: int, target: int) -> int {
    if target > current {
        if target - current <= limit {
            target
        } else {
            current + limit
        }
    } else if target < current {
        if current - target <= limit {
            target
        } else {
            current - limit
        }
    } else {
        current
    }
}

pub open spec fn abs(x: int) -> int {
    if x < 0 {
        -x
    } else {
        x
    }
}

/// An edge detector fires when the new sample is true and the one before was false.
pub open spec fn rising(previous: bool, sample: bool) -> bool {
    !previous && sample
}

/// A slew step never moves further than `limit`, and a value already at the
/// target stays there.
pub proof fn lemma_slew_bound(current: int, limit: int, target: int)
    requires
        limit > 0,
    ensures
        abs(slew(current, limit, target) - current) <= limit,
        slew(target, limit, target) == target,
{
}

/// A target within `limit` of the current value is reached exactly in one step.
pub proof fn lemma_slew_snap(current: int, limit: int, target: int)
    requires
        limit > 0,
        abs(target - current) <= limit,
    ensures
        slew(current, limit, target) == target,
{
}

/// An edge detector never fires on two samples in a row.
pub proof fn lemma_edge_not_twice(previous: bool, first: bool, second: bool)
    ensures
        !(rising(previous, first) && rising(first, second)),
{
}

/// Slew-rate limiter: bounds how far its output may move in one cycle.
pub struct Dampener {
    current_value: i64,
    acceleration_limit: i64,
}

impl Dampener {
    /// The value the limiter last produced.
    pub closed spec fn current(self) -> int {
        self.current_value as int
    }

    /// The largest change allowed per cycle.
    pub closed spec fn limit(self) -> int {
        self.acceleration_limit as int
    }

    pub closed spec fn wf(self) -> bool {
        self.acceleration_limit >= 0
    }

    /// A limiter at zero that moves by at most `acceleration_limit` per cycle.
    pub fn new(acceleration_limit: i64) -> (r: Self)
        requires
            acceleration_limit >= 0,
        ensures
            r.wf(),
            r.current() == 0,
            r.limit() == acceleration_limit,
    {
        Dampener { current_value: 0, acceleration_limit }
    }

    /// Moves toward `target` by at most the limit and returns the new value.
    pub fn cycle(&mut self, target: i64) -> (r: i64)
        requires
            old(self).wf(),
        ensures
            final(self).wf(),
            final(self).limit() == old(self).limit(),
            r == slew(old(self).current(), old(self).limit(), target as int),
            final(self).current() == r,
    {
        if target > self.current_value {
            if (target as i128) - (self.current_value as i128) < self.acceleration_limit as i128 {
                self.current_value = target;
            } else {
                self.current_value = self.current_value + self.acceleration_limit;
            }
        } else if target < self.current_value {
            if (self.current_value as i128) - (target as i128) < self.acceleration_limit as i128 {
                self.current_value = target;
            } else {
                self.current_value = self.current_value - self.acceleration_limit;
            }
        }
        self.current_value
    }
}

/// Edge detector: turns a held signal into one event per false-to-true change.
pub struct Debouncer {
    value: bool,
}

impl Debouncer {
    /// The last sample observed.
    pub closed spec fn previous(self) -> bool {
        self.value
    }

    pub fn new() -> (r: Self)
        ensures
            !r.previous(),
    {
        Debouncer { value: false }
    }

    /// Records `value` and reports whether it is a rising edge.
    pub fn test(&mut self, value: bool) -> (r: bool)
        ensures
            r == rising(old(self).previous(), value),
            final(self).previous() == value,
    {
        let previous_value = self.value;
        self.value = value;
        !previous_value && value
    }
}

/// The mode a toggle holds after a button sample: flipped on a rising edge,
/// else kept.
pub open spec fn toggled(previous: bool, active: bool, pressed: bool) -> bool {
    if rising(previous, pressed) {
        !active
    } else {
        active
    }
}

/// A persistent mode flag flipped once per press of its button.
pub struct Toggle {
    debouncer: Debouncer,
    active: bool,
}

impl Toggle {
    pub closed spec fn is_active(self) -> bool {
        self.active
    }

    /// The last button sample the toggle observed.
    pub closed spec fn previous(self) -> bool {
        self.debouncer.previous()
    }

    pub fn new() -> (r: Self)
        ensures
            !r.is_active(),
            !r.previous(),
    {
        Toggle { debouncer: Debouncer::new(), active: false }
    }

    /// Feeds one button sample and returns the mode that holds for this cycle.
    pub fn update(&mut self, pressed: bool) -> (r: bool)
        ensures
            r == toggled(old(self).previous(), old(self).is_active(), pressed),
            final(self).is_active() == r,
            final(self).previous() == pressed,
    {
        if self.debouncer.test(pressed) {
            self.active = !self.active;
        }
        self.active
    }

    /// The mode in force.
    pub fn active(&self) -> (r: bool)
        ensures
            r == self.is_active(),
    {
        self.active
    }

    /// Forces the mode, leaving edge detection as it was.
    pub fn set(&mut self, state: bool)
        ensures
            final(self).is_active() == state,
            final(self).previous() == old(self).previous(),
    {
        self.active = state;
    }
}

} // verus!
