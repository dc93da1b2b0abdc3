//! What the players have chosen: one time limit for each clock in play.

use crate::time::Nanos;
use vstd::prelude::*;

verus! {

/// The settings of one clock.
#[derive(Clone, Copy, Debug)]
pub struct ClockSettings {
    /// The time that the clock starts with.
    pub time_limit: Nanos,
}

impl Default for ClockSettings {
    /// A clock with no time on it.
    fn default() -> (settings: Self)
        ensures
            settings.time_limit == 0,
    {
        Self { time_limit: 0 }
    }
}

/// The settings of a game: those of its clocks, in playing order.
#[derive(Clone, Debug)]
pub struct Settings {
    pub clocks: Vec<ClockSettings>,
}

impl Default for Settings {
    /// One clock with no time on it.
    fn default() -> (settings: Self)
        ensures
            settings.clocks.len() == 1,
            settings.limits() == seq![0u128],
    {
        let mut clocks: Vec<ClockSettings> = Vec::new();
        clocks.push(ClockSettings::default());
        let settings = Self { clocks };
        settings
    }
}

impl Settings {
    /// The time limits of the clocks, in playing order.
    pub open spec fn limits(self) -> Seq<Nanos> {
        Seq::new(self.clocks.len() as nat, |i: int| self.clocks[i].time_limit)
    }

    /// The time limits of the clocks, in playing order.
    pub fn time_limits(&self) -> (limits: Vec<Nanos>)
        ensures
            limits@ == self.limits(),
    {
        let mut limits: Vec<Nanos> = Vec::new();
        let mut i: usize = 0;
        while i < self.clocks.len()
            invariant
                i <= self.clocks.len(),
                limits.len() == i,
                forall|k: int| 0 <= k < i ==> limits[k] == self.clocks[k].time_limit,
            decreases self.clocks.len() - i,
        {
            limits.push(self.clocks[i].time_limit);
            i += 1;
        }
        limits
    }
}

} // verus!
