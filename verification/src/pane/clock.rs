//! The countdown timers and the order in which they take turns.

use crate::text::{two_digit_string, two_digits};
use crate::time::{hours_of, minutes_of, seconds_of, split_hms, Nanos};
use vstd::arithmetic::div_mod::{
    lemma_mod_add_multiples_vanish, lemma_mod_self_0, lemma_small_mod,
};
use vstd::prelude::*;
use vstd::string::*;

verus! {

/// The period of the tick that drives a running clock: ten milliseconds.
pub const TICK_INTERVAL: Nanos = 10_000_000;

/// A countdown timer as a mathematical value.
pub struct ClockState {
    /// Time left on the clock, in nanoseconds.
    pub remaining: nat,
    /// Timestamp of the last tick that was taken into account. It carries
    /// meaning only while the clock runs.
    pub last_tick: nat,
    /// Whether the clock is counting down.
    pub running: bool,
}

impl ClockState {
    /// A stopped clock with the whole of `limit` left.
    pub open spec fn fresh(limit: nat) -> ClockState {
        ClockState { remaining: limit, last_tick: 0, running: false }
    }

    /// What is left of `remaining` once `elapsed` has gone by: never less
    /// than nothing.
    pub open spec fn left_after(remaining: nat, elapsed: nat) -> nat {
        if elapsed < remaining {
            (remaining - elapsed) as nat
        } else {
            0
        }
    }

    /// The clock after a tick stamped `now`. A stopped clock ignores it. A
    /// running clock that sees a timestamp from before its last tick takes
    /// that timestamp as its new reference and loses no time. Otherwise the
    /// time since the last tick comes off what remains.
    pub open spec fn on_tick(self, now: nat) -> ClockState {
        if !self.running {
            self
        } else if now < self.last_tick {
            ClockState { last_tick: now, ..self }
        } else {
            ClockState {
                remaining: Self::left_after(self.remaining, (now - self.last_tick) as nat),
                last_tick: now,
                running: true,
            }
        }
    }

    /// The clock, running from `now` on.
    pub open spec fn started(self, now: nat) -> ClockState {
        ClockState { last_tick: now, running: true, ..self }
    }

    /// The clock, stopped.
    pub open spec fn stopped(self) -> ClockState {
        ClockState { running: false, ..self }
    }

    /// A running clock stops; a stopped clock runs from `now` on.
    pub open spec fn toggle(self, now: nat) -> ClockState {
        if self.running {
            self.stopped()
        } else {
            self.started(now)
        }
    }
}

/// A running clock that is ticked `elapsed` after its last tick, with at
/// least that much time on it, has exactly `elapsed` less afterwards.
pub proof fn lemma_tick_subtracts_elapsed(clock: ClockState, elapsed: nat)
    requires
        clock.running,
        elapsed <= clock.remaining,
    ensures
        clock.on_tick(clock.last_tick + elapsed).remaining == clock.remaining - elapsed,
{
}

/// A running clock that is ticked after more time than it has left stands at
/// zero: the time on a clock is never negative.
pub proof fn lemma_tick_stops_at_zero(clock: ClockState, elapsed: nat)
    requires
        clock.running,
        elapsed > clock.remaining,
    ensures
        clock.on_tick(clock.last_tick + elapsed).remaining == 0,
{
}

/// A second tick with the timestamp of the first changes nothing.
pub proof fn lemma_tick_twice_is_tick_once(clock: ClockState, now: nat)
    ensures
        clock.on_tick(now).on_tick(now) == clock.on_tick(now),
{
}

/// A tick from before the last one resets the reference of a running clock
/// to its own timestamp and takes no time off.
pub proof fn lemma_early_tick_resynchronizes(clock: ClockState, now: nat)
    requires
        clock.running,
        now < clock.last_tick,
    ensures
        clock.on_tick(now) == (ClockState { last_tick: now, ..clock }),
        clock.on_tick(now).remaining == clock.remaining,
{
}

/// No tick adds time to a clock, and no tick starts or stops one.
pub proof fn lemma_tick_never_adds_time(clock: ClockState, now: nat)
    ensures
        clock.on_tick(now).remaining <= clock.remaining,
        clock.on_tick(now).running == clock.running,
{
}

/// What happens to a clock screen.
#[derive(Clone, Copy, Debug)]
pub enum ClockMessage {
    /// The player asks for the pause screen.
    Pause,
    /// The periodic tick, with the time at which it was made.
    Tick(Nanos),
    /// The player hits the clock, at the given time.
    Toggle(Nanos),
}

/// One countdown timer.
#[derive(Clone, Copy, Debug)]
pub struct Clock1PPane {
    remaining: Nanos,
    previous: Nanos,
    running: bool,
}

impl View for Clock1PPane {
    type V = ClockState;

    closed spec fn view(&self) -> ClockState {
        ClockState {
            remaining: self.remaining as nat,
            last_tick: self.previous as nat,
            running: self.running,
        }
    }
}

impl Clock1PPane {
    /// A stopped clock with `time_limit` on it.
    pub fn new(time_limit: Nanos) -> (pane: Self)
        ensures
            pane@ == ClockState::fresh(time_limit as nat),
    {
        Self { remaining: time_limit, previous: 0, running: false }
    }

    /// Takes a message. Only a tick concerns a single timer: who runs and who
    /// waits is decided where the turn order is known.
    pub fn update(&mut self, message: ClockMessage)
        ensures
            final(self)@ == match message {
                ClockMessage::Tick(now) => old(self)@.on_tick(now as nat),
                _ => old(self)@,
            },
    {
        match message {
            ClockMessage::Tick(now) => {
                self.on_tick(now);
            },
            _ => {},
        }
    }

    /// Takes the time since the last tick off the clock, if it runs.
    pub fn on_tick(&mut self, now: Nanos)
        ensures
            final(self)@ == old(self)@.on_tick(now as nat),
    {
        if self.running {
            if now < self.previous {
                self.previous = now;
            } else {
                let dt: Nanos = now - self.previous;
                self.previous = now;
                if self.remaining > dt {
                    self.remaining -= dt;
                } else {
                    self.remaining = 0;
                }
            }
        }
    }

    /// Starts a stopped clock at `now`, stops a running one.
    pub fn toggle(&mut self, now: Nanos)
        ensures
            final(self)@ == old(self)@.toggle(now as nat),
    {
        self.running = !self.running;
        if self.running {
            self.previous = now;
        }
    }

    /// Stops the clock. Unlike a toggle this never starts it.
    pub fn pause_request(&mut self)
        ensures
            final(self)@ == old(self)@.stopped(),
    {
        self.running = false;
    }

    /// Time left on the clock.
    pub fn remaining(&self) -> (left: Nanos)
        ensures
            left == self@.remaining,
    {
        self.remaining
    }

    /// Timestamp of the last tick that the clock took into account.
    pub fn last_tick(&self) -> (at: Nanos)
        ensures
            at == self@.last_tick,
    {
        self.previous
    }

    /// Whether the clock is counting down.
    pub fn is_running(&self) -> (running: bool)
        ensures
            running == self@.running,
    {
        self.running
    }
}

/// One to four clocks and the turn among them, as a mathematical value.
pub struct MultiClockState {
    /// The clocks, in the order in which their limits were given.
    pub clocks: Seq<ClockState>,
    /// Index of the clock whose turn it is.
    pub active: int,
}

impl MultiClockState {
    /// There are one to four clocks, the turn is with one of them, and no
    /// other clock runs.
    pub open spec fn valid(self) -> bool {
        &&& 1 <= self.clocks.len() <= 4
        &&& 0 <= self.active < self.clocks.len()
        &&& forall|i: int|
            0 <= i < self.clocks.len() && i != self.active ==> !(#[trigger] self.clocks[i]).running
    }

    /// Every clock stopped with its limit on it, and the turn with the last
    /// clock, so that the first toggle starts the first clock.
    pub open spec fn fresh(limits: Seq<Nanos>) -> MultiClockState {
        MultiClockState {
            clocks: Seq::new(limits.len(), |i: int| ClockState::fresh(limits[i] as nat)),
            active: limits.len() - 1,
        }
    }

    /// The index that follows the active one, going round.
    pub open spec fn next_index(self) -> int {
        (self.active + 1) % (self.clocks.len() as int)
    }

    /// The index before the active one, going round.
    pub open spec fn previous_index(self) -> int {
        (self.active + self.clocks.len() - 1) % (self.clocks.len() as int)
    }

    /// Every clock takes the tick.
    pub open spec fn on_tick(self, now: nat) -> MultiClockState {
        MultiClockState {
            clocks: Seq::new(self.clocks.len(), |i: int| self.clocks[i].on_tick(now)),
            active: self.active,
        }
    }

    /// A lone clock starts or stops. Among several, the active clock stops
    /// and the turn passes to the next, which starts at `now`.
    pub open spec fn toggle(self, now: nat) -> MultiClockState {
        if self.clocks.len() == 1 {
            MultiClockState {
                clocks: self.clocks.update(self.active, self.clocks[self.active].toggle(now)),
                active: self.active,
            }
        } else {
            let next = self.next_index();
            let halted = self.clocks.update(self.active, self.clocks[self.active].stopped());
            MultiClockState { clocks: halted.update(next, halted[next].started(now)), active: next }
        }
    }

    /// The active clock stops. Among several clocks the turn steps back by
    /// one, so that the toggle that resumes play hands it to the same clock
    /// again.
    pub open spec fn pause_request(self) -> MultiClockState {
        MultiClockState {
            clocks: self.clocks.update(self.active, self.clocks[self.active].stopped()),
            active: if self.clocks.len() == 1 {
                self.active
            } else {
                self.previous_index()
            },
        }
    }

    /// What the screen shows of the clocks: the rows of the layout from top
    /// to bottom, each with the texts of its clocks from left to right.
    pub open spec fn faces(self) -> Seq<Seq<Seq<char>>> {
        let plan = layout(self.clocks.len());
        Seq::new(
            plan.len(),
            |r: int|
                Seq::new(
                    plan[r].len(),
                    |c: int| clock_face(self.clocks[plan[r][c] as int].remaining),
                ),
        )
    }

    /// The state after `message`.
    pub open spec fn step(self, message: ClockMessage) -> MultiClockState {
        match message {
            ClockMessage::Pause => self.pause_request(),
            ClockMessage::Tick(now) => self.on_tick(now as nat),
            ClockMessage::Toggle(now) => self.toggle(now as nat),
        }
    }
}

/// Going round `count` places: the step forward from the last place leads
/// to the first, the step back from the first leads to the last, and any
/// other step leads to the neighbour.
pub proof fn lemma_round_steps(count: int, place: int)
    requires
        0 <= place < count,
    ensures
        (place + 1) % count == if place + 1 == count {
            0
        } else {
            place + 1
        },
        (place + count - 1) % count == if place == 0 {
            count - 1
        } else {
            place - 1
        },
{
    if place + 1 == count {
        lemma_mod_self_0(count);
    } else {
        lemma_small_mod((place + 1) as nat, count as nat);
    }
    if place == 0 {
        lemma_small_mod((count - 1) as nat, count as nat);
    } else {
        lemma_mod_add_multiples_vanish(place - 1, count);
        lemma_small_mod((place - 1) as nat, count as nat);
    }
}

/// Fresh clocks are a valid state: every clock is stopped and carries its
/// limit, and the turn is with the last clock.
pub proof fn lemma_fresh_is_valid(limits: Seq<Nanos>)
    requires
        1 <= limits.len() <= 4,
    ensures
        MultiClockState::fresh(limits).valid(),
        MultiClockState::fresh(limits).clocks.len() == limits.len(),
        MultiClockState::fresh(limits).active == limits.len() - 1,
        forall|i: int|
            0 <= i < limits.len() ==> {
                let clock = #[trigger] MultiClockState::fresh(limits).clocks[i];
                clock.remaining == limits[i] && !clock.running
            },
{
}

/// Whatever the message, a valid state is followed by a valid state with as
/// many clocks.
pub proof fn lemma_step_keeps_valid(state: MultiClockState, message: ClockMessage)
    requires
        state.valid(),
    ensures
        state.step(message).valid(),
        state.step(message).clocks.len() == state.clocks.len(),
{
}

/// A tick changes the active clock alone, and leaves the turn where it is.
pub proof fn lemma_tick_reaches_active_clock_only(state: MultiClockState, now: nat)
    requires
        state.valid(),
    ensures
        state.on_tick(now).active == state.active,
        state.on_tick(now).clocks == state.clocks.update(
            state.active,
            state.clocks[state.active].on_tick(now),
        ),
{
}

/// A second tick with the timestamp of the first changes nothing on any
/// clock.
pub proof fn lemma_multi_tick_twice_is_tick_once(state: MultiClockState, now: nat)
    ensures
        state.on_tick(now).on_tick(now) == state.on_tick(now),
{
    assert(state.on_tick(now).on_tick(now).clocks =~= state.on_tick(now).clocks);
}

/// Among several clocks a toggle passes the turn to the next clock, going
/// round: that clock runs from `now` on, every other clock is stopped, and
/// no clock has lost or gained time.
pub proof fn lemma_toggle_passes_turn(state: MultiClockState, now: nat)
    requires
        state.valid(),
        state.clocks.len() > 1,
    ensures
        state.toggle(now).active == (state.active + 1) % (state.clocks.len() as int),
        state.toggle(now).active != state.active,
        state.toggle(now).clocks[state.toggle(now).active].running,
        state.toggle(now).clocks[state.toggle(now).active].last_tick == now,
        forall|i: int|
            0 <= i < state.clocks.len() && i != state.toggle(now).active ==> !(
            #[trigger] state.toggle(now).clocks[i]).running,
        forall|i: int|
            0 <= i < state.clocks.len() ==> (#[trigger] state.toggle(now).clocks[i]).remaining
                == state.clocks[i].remaining,
{
    lemma_round_steps(state.clocks.len() as int, state.active);
}

/// Between two clocks, two toggles bring the turn back to where it was.
pub proof fn lemma_two_toggles_return_turn(state: MultiClockState, first: nat, second: nat)
    requires
        state.valid(),
        state.clocks.len() == 2,
    ensures
        state.toggle(first).toggle(second).active == state.active,
        state.toggle(first).toggle(second).clocks[state.active].running,
{
    lemma_round_steps(2, state.active);
    lemma_round_steps(2, state.toggle(first).active);
}

/// A lone clock is started or stopped by a toggle and keeps the turn, its
/// time unchanged. No message moves the turn away from a lone clock.
pub proof fn lemma_lone_clock_keeps_turn(state: MultiClockState, now: nat, message: ClockMessage)
    requires
        state.valid(),
        state.clocks.len() == 1,
    ensures
        state.toggle(now).active == state.active,
        state.toggle(now).clocks.len() == 1,
        state.toggle(now).clocks[0].running == !state.clocks[0].running,
        state.toggle(now).clocks[0].remaining == state.clocks[0].remaining,
        state.step(message).active == state.active,
{
}

/// A request to pause leaves every clock stopped with its time unchanged.
/// Among several clocks the turn goes back by one, going round.
pub proof fn lemma_pause_stops_all(state: MultiClockState)
    requires
        state.valid(),
    ensures
        forall|i: int|
            0 <= i < state.clocks.len() ==> {
                let clock = #[trigger] state.pause_request().clocks[i];
                !clock.running && clock.remaining == state.clocks[i].remaining
            },
        state.clocks.len() > 1 ==> state.pause_request().active == (state.active
            + state.clocks.len() - 1) % (state.clocks.len() as int),
        state.clocks.len() == 1 ==> state.pause_request().active == state.active,
{
}

/// The toggle that follows a pause hands the turn back to the clock that had
/// it when the pause was asked for: among several clocks that clock runs
/// again from the time of the toggle, with the time it had left.
pub proof fn lemma_toggle_after_pause_resumes_turn(state: MultiClockState, now: nat)
    requires
        state.valid(),
        state.clocks.len() > 1,
    ensures
        state.pause_request().toggle(now).active == state.active,
        state.pause_request().toggle(now).clocks[state.active] == state.clocks[state.active].started(
            now,
        ),
        forall|i: int|
            0 <= i < state.clocks.len() && i != state.active ==> !(
            #[trigger] state.pause_request().toggle(now).clocks[i]).running,
{
    lemma_round_steps(state.clocks.len() as int, state.active);
    lemma_round_steps(state.clocks.len() as int, state.pause_request().active);
}

/// How a time is shown on a clock: hours, minutes and seconds, each of two
/// digits or more, with colons between them. The fraction of a second is not
/// shown.
pub open spec fn clock_face(d: nat) -> Seq<char> {
    two_digits(hours_of(d)) + seq![':'] + two_digits(minutes_of(d)) + seq![':'] + two_digits(
        seconds_of(d),
    )
}

/// Where the clocks stand on the screen: the rows from top to bottom, each
/// with the indices of its clocks from left to right. Two clocks stand side
/// by side; of three the first stands alone above the others; four stand two
/// by two.
pub open spec fn layout(count: nat) -> Seq<Seq<usize>> {
    if count == 1 {
        seq![seq![0usize]]
    } else if count == 2 {
        seq![seq![0usize, 1usize]]
    } else if count == 3 {
        seq![seq![0usize], seq![1usize, 2usize]]
    } else {
        seq![seq![0usize, 1usize], seq![2usize, 3usize]]
    }
}

/// Read row by row, the layout of one to four clocks shows each clock once,
/// in the order of the clocks.
pub proof fn lemma_layout_shows_each_clock_once(count: nat)
    requires
        1 <= count <= 4,
    ensures
        layout(count).flatten() == Seq::new(count, |i: int| i as usize),
{
    reveal_with_fuel(Seq::flatten, 3);
}

/// The layout of one to four clocks names clocks that are there.
pub proof fn lemma_layout_names_clocks(count: nat)
    requires
        1 <= count <= 4,
    ensures
        forall|r: int, c: int|
            0 <= r < layout(count).len() && 0 <= c < layout(count)[r].len() ==> (
            #[trigger] layout(count)[r][c]) < count,
{
}

/// The text that shows the time `d` on a clock.
pub fn to_text(d: Nanos) -> (text: String)
    ensures
        text@ == clock_face(d as nat),
{
    let (hour, min, sec) = split_hms(d);
    proof {
        reveal_strlit(":");
    }
    let mut text = two_digit_string(hour);
    text.append(":");
    text.append(two_digit_string(min).as_str());
    text.append(":");
    text.append(two_digit_string(sec).as_str());
    text
}

/// The clock screen: one to four timers, of which at most the active one
/// runs.
pub struct ClockPane {
    panes: Vec<Clock1PPane>,
    current_pane: usize,
    interval: Nanos,
}

impl Clone for ClockPane {
    /// A clock screen that shows what this one shows.
    fn clone(&self) -> (copy: Self)
        ensures
            copy@ == self@,
            copy@.valid(),
    {
        proof {
            use_type_invariant(self);
        }
        Self {
            panes: self.panes.clone(),
            current_pane: self.current_pane,
            interval: self.interval,
        }
    }
}

impl View for ClockPane {
    type V = MultiClockState;

    closed spec fn view(&self) -> MultiClockState {
        MultiClockState {
            clocks: Seq::new(self.panes.len() as nat, |i: int| self.panes[i]@),
            active: self.current_pane as int,
        }
    }
}

impl ClockPane {
    #[verifier::type_invariant]
    spec fn inv(&self) -> bool {
        &&& 1 <= self.panes.len() <= 4
        &&& self.current_pane < self.panes.len()
        &&& forall|i: int|
            0 <= i < self.panes.len() && i != self.current_pane ==> !(#[trigger] self.panes[i]).running
        &&& self.interval == TICK_INTERVAL
    }

    /// A clock screen with one stopped timer for each limit.
    pub fn new(time_limits: &[Nanos]) -> (pane: Self)
        requires
            1 <= time_limits.len() <= 4,
        ensures
            pane@ == MultiClockState::fresh(time_limits@),
            pane@.valid(),
    {
        let n = time_limits.len();
        let mut panes: Vec<Clock1PPane> = Vec::new();
        let mut i: usize = 0;
        while i < n
            invariant
                n == time_limits.len(),
                i <= n,
                panes.len() == i,
                forall|k: int| 0 <= k < i ==> (#[trigger] panes[k])@ == ClockState::fresh(time_limits[k] as nat),
            decreases n - i,
        {
            panes.push(Clock1PPane::new(time_limits[i]));
            i += 1;
        }
        let pane = Self { panes, current_pane: n - 1, interval: TICK_INTERVAL };
        assert(pane@.clocks =~= MultiClockState::fresh(time_limits@).clocks);
        pane
    }

    /// Takes a message: a tick, a hit on the clock, or a request to pause.
    pub fn update(&mut self, message: ClockMessage)
        ensures
            old(self)@.valid(),
            final(self)@ == old(self)@.step(message),
            final(self)@.valid(),
    {
        match message {
            ClockMessage::Pause => self.pause_request(),
            ClockMessage::Tick(now) => self.on_tick(now),
            ClockMessage::Toggle(now) => self.toggle(now),
        }
    }

    /// Takes the time since the last tick off the running clock.
    pub fn on_tick(&mut self, now: Nanos)
        ensures
            old(self)@.valid(),
            final(self)@ == old(self)@.on_tick(now as nat),
            final(self)@.valid(),
    {
        proof {
            use_type_invariant(&*self);
        }
        let ghost before = self@;
        let mut pane = self.panes[self.current_pane];
        pane.on_tick(now);
        self.panes[self.current_pane] = pane;
        assert(self@.clocks =~= before.on_tick(now as nat).clocks);
    }

    /// Passes the turn: the active clock stops and the next one starts at
    /// `now`. A lone clock starts or stops instead.
    pub fn toggle(&mut self, now: Nanos)
        ensures
            old(self)@.valid(),
            final(self)@ == old(self)@.toggle(now as nat),
            final(self)@.valid(),
    {
        proof {
            use_type_invariant(&*self);
        }
        let ghost before = self@;
        let n = self.panes.len();
        if n == 1 {
            let mut pane = self.panes[self.current_pane];
            pane.toggle(now);
            self.panes[self.current_pane] = pane;
        } else {
            self.panes[self.current_pane].running = false;
            self.current_pane = (self.current_pane + 1) % n;
            self.panes[self.current_pane].running = true;
            self.panes[self.current_pane].previous = now;
        }
        assert(self@.clocks =~= before.toggle(now as nat).clocks);
    }

    /// Stops the active clock for the pause screen, and moves the turn back
    /// by one where there are several clocks.
    pub fn pause_request(&mut self)
        ensures
            old(self)@.valid(),
            final(self)@ == old(self)@.pause_request(),
            final(self)@.valid(),
    {
        proof {
            use_type_invariant(&*self);
        }
        let ghost before = self@;
        self.panes[self.current_pane].running = false;
        if self.panes.len() != 1 {
            self.current_pane = (self.current_pane + self.panes.len() - 1) % self.panes.len();
        }
        assert(self@.clocks =~= before.pause_request().clocks);
    }

    /// The rows in which the clocks are shown. The place of a clock depends
    /// on the number of clocks alone, never on whose turn it is.
    pub fn rows(&self) -> (rows: Vec<Vec<usize>>)
        ensures
            rows.deep_view() == layout(self@.clocks.len()),
    {
        proof {
            use_type_invariant(self);
        }
        let n = self.panes.len();
        let rows = if n == 1 {
            vec![vec![0usize]]
        } else if n == 2 {
            vec![vec![0usize, 1usize]]
        } else if n == 3 {
            vec![vec![0usize], vec![1usize, 2usize]]
        } else {
            vec![vec![0usize, 1usize], vec![2usize, 3usize]]
        };
        assert(rows.deep_view() =~~= layout(self@.clocks.len()));
        rows
    }

    /// What the screen shows: the rows from top to bottom, each with the
    /// texts of its clocks from left to right.
    pub fn faces(&self) -> (faces: Vec<Vec<String>>)
        ensures
            faces.deep_view() == self@.faces(),
    {
        proof {
            use_type_invariant(self);
            lemma_layout_names_clocks(self@.clocks.len());
        }
        let rows = self.rows();
        let ghost plan = layout(self@.clocks.len());
        let mut faces: Vec<Vec<String>> = Vec::new();
        let mut r: usize = 0;
        while r < rows.len()
            invariant
                r <= rows.len(),
                rows.deep_view() == plan,
                plan == layout(self@.clocks.len()),
                self@.clocks.len() == self.panes.len(),
                forall|r: int, c: int|
                    0 <= r < plan.len() && 0 <= c < plan[r].len() ==> (#[trigger] plan[r][c])
                        < self.panes.len(),
                faces.len() == r,
                forall|k: int| 0 <= k < r ==> (#[trigger] faces[k]).deep_view() == self@.faces()[k],
            decreases rows.len() - r,
        {
            let row = &rows[r];
            let mut texts: Vec<String> = Vec::new();
            let mut c: usize = 0;
            while c < row.len()
                invariant
                    c <= row.len(),
                    0 <= r < plan.len(),
                    row.deep_view() == plan[r as int],
                    self@.clocks.len() == self.panes.len(),
                    forall|c: int| 0 <= c < plan[r as int].len() ==> (#[trigger] plan[r as int][c])
                        < self.panes.len(),
                    texts.len() == c,
                    forall|k: int|
                        0 <= k < c ==> (#[trigger] texts[k])@ == clock_face(
                            self@.clocks[plan[r as int][k] as int].remaining,
                        ),
                decreases row.len() - c,
            {
                let index = row[c];
                assert(index == row.deep_view()[c as int]);
                texts.push(to_text(self.panes[index].remaining()));
                c += 1;
            }
            faces.push(texts);
            r += 1;
        }
        faces
    }

    /// The period at which the screen asks to be ticked.
    pub fn subscription(&self) -> (period: Option<Nanos>)
        ensures
            period == Some(TICK_INTERVAL),
    {
        Some(self.interval())
    }

    /// The timers, in the order in which their limits were given.
    pub fn panes(&self) -> (panes: &[Clock1PPane])
        ensures
            panes@.len() == self@.clocks.len(),
            forall|i: int| 0 <= i < panes@.len() ==> (#[trigger] panes@[i])@ == self@.clocks[i],
            self@.valid(),
    {
        proof {
            use_type_invariant(self);
        }
        self.panes.as_slice()
    }

    /// The number of timers.
    pub fn len(&self) -> (count: usize)
        ensures
            count == self@.clocks.len(),
            self@.valid(),
    {
        proof {
            use_type_invariant(self);
        }
        self.panes.len()
    }

    /// Index of the timer whose turn it is.
    pub fn current_pane(&self) -> (index: usize)
        ensures
            index == self@.active,
            self@.valid(),
    {
        proof {
            use_type_invariant(self);
        }
        self.current_pane
    }

    /// The period at which the screen wants to be ticked.
    pub fn interval(&self) -> (period: Nanos)
        ensures
            period == TICK_INTERVAL,
    {
        proof {
            use_type_invariant(self);
        }
        self.interval
    }
}

} // verus!
