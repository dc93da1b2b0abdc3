//! The settings screen: four clocks of which any can be in play, and the
//! time limit of each, entered as hours, minutes and seconds.

use crate::settings::{ClockSettings, Settings};
use crate::text::{decimal, decimal_string, field_value, lemma_field_reads_decimal, parse_field};
use crate::time::{from_hms, hms, hours_of, minutes_of, seconds_of, split_hms, Nanos};
use vstd::prelude::*;
use vstd::string::*;

verus! {

/// The largest number that a field takes. Any number of hours, minutes or
/// seconds is welcome; this is where the machine's numbers end.
pub const FIELD_MAX: u64 = u64::MAX;

/// The four clocks that a game can have, named by their colours.
#[derive(Clone, Copy, Debug, Hash, PartialEq, Eq, Structural)]
pub enum Clock {
    Blue,
    Green,
    Red,
    Yellow,
}

impl Clock {
    /// The place of the clock among the four: blue, green, red, yellow.
    pub open spec fn place(self) -> int {
        match self {
            Clock::Blue => 0,
            Clock::Green => 1,
            Clock::Red => 2,
            Clock::Yellow => 3,
        }
    }

    /// The place of the clock among the four: blue, green, red, yellow.
    pub fn index(self) -> (index: usize)
        ensures
            index == self.place(),
            index < 4,
    {
        match self {
            Clock::Blue => 0,
            Clock::Green => 1,
            Clock::Red => 2,
            Clock::Yellow => 3,
        }
    }
}

/// The rules by which time is measured.
#[derive(Clone, Copy, Debug, PartialEq, Eq, Structural)]
pub enum Rule {
    /// Each player has a fixed amount of time for the whole game.
    AbsoluteTiming,
}

/// What happens on the settings screen.
#[derive(Clone, Debug)]
pub enum SettingMessage {
    RuleSelected(Rule),
    /// Another clock is picked for editing.
    ClockChanged(Clock),
    /// The clock being edited is put in play or taken out.
    ClockEnablingToggled(bool),
    /// The hours field now holds this text.
    TimeLimitHourChanged(String),
    /// The minutes field now holds this text.
    TimeLimitMinChanged(String),
    /// The seconds field now holds this text.
    TimeLimitSecChanged(String),
    /// The player is done, with these settings.
    Done(Settings),
}

/// The settings screen as a mathematical value.
pub struct SettingState {
    /// The clock being edited.
    pub current: Clock,
    /// The time limit of each of the four clocks, by place.
    pub limits: Seq<Nanos>,
    /// Whether each of the four clocks is in play, by place.
    pub enabled: Seq<bool>,
    /// The text in the hours field.
    pub hour: Seq<char>,
    /// The text in the minutes field.
    pub minute: Seq<char>,
    /// The text in the seconds field.
    pub second: Seq<char>,
}

impl SettingState {
    /// The screen as it first appears: the blue clock is being edited and is
    /// alone in play, no clock has any time, and the fields are empty.
    pub open spec fn initial() -> SettingState {
        SettingState {
            current: Clock::Blue,
            limits: seq![0u128, 0u128, 0u128, 0u128],
            enabled: seq![true, false, false, false],
            hour: Seq::empty(),
            minute: Seq::empty(),
            second: Seq::empty(),
        }
    }

    /// There are four clocks.
    pub open spec fn valid(self) -> bool {
        self.limits.len() == 4 && self.enabled.len() == 4
    }

    /// The number that a field contributes to the time limit: the number in
    /// it, or zero where it holds none.
    pub open spec fn entered(text: Seq<char>) -> nat {
        match field_value(text, FIELD_MAX as nat) {
            Some(value) => value,
            None => 0,
        }
    }

    /// The time limit that the three fields spell.
    pub open spec fn time_limit(self) -> nat {
        hms(Self::entered(self.hour), Self::entered(self.minute), Self::entered(self.second))
    }

    /// The screen after `clock` was picked: the fields show its time limit
    /// in hours, minutes and seconds.
    pub open spec fn pick(self, clock: Clock) -> SettingState {
        let limit = self.limits[clock.place()] as nat;
        SettingState {
            current: clock,
            hour: decimal(hours_of(limit)),
            minute: decimal(minutes_of(limit)),
            second: decimal(seconds_of(limit)),
            ..self
        }
    }

    /// The screen after the clock being edited was put in play or taken out.
    pub open spec fn enable(self, on: bool) -> SettingState {
        SettingState { enabled: self.enabled.update(self.current.place(), on), ..self }
    }

    /// The screen with the time limit of the clock being edited set to what
    /// the fields spell.
    pub open spec fn with_limit_from_fields(self) -> SettingState {
        SettingState {
            limits: self.limits.update(self.current.place(), self.time_limit() as Nanos),
            ..self
        }
    }

    /// Whether a field accepts `text`: it does where the text holds a
    /// number. White space round the number is allowed. Empty text holds no
    /// number, nor does text with anything but digits in it.
    pub open spec fn accepts(text: Seq<char>) -> bool {
        field_value(text, FIELD_MAX as nat) is Some
    }

    /// The screen after the hours field was edited to hold `text`. Text that
    /// the field accepts is kept as it was typed, and the clock being edited
    /// gets the time limit that the three fields then spell. Any other text
    /// changes nothing: the field keeps what it held.
    pub open spec fn edit_hour(self, text: Seq<char>) -> SettingState {
        if Self::accepts(text) {
            (SettingState { hour: text, ..self }).with_limit_from_fields()
        } else {
            self
        }
    }

    /// The screen after the minutes field was edited to hold `text`, by the
    /// rule of the hours field.
    pub open spec fn edit_minute(self, text: Seq<char>) -> SettingState {
        if Self::accepts(text) {
            (SettingState { minute: text, ..self }).with_limit_from_fields()
        } else {
            self
        }
    }

    /// The screen after the seconds field was edited to hold `text`, by the
    /// rule of the hours field.
    pub open spec fn edit_second(self, text: Seq<char>) -> SettingState {
        if Self::accepts(text) {
            (SettingState { second: text, ..self }).with_limit_from_fields()
        } else {
            self
        }
    }

    /// The screen after `message`.
    pub open spec fn step(self, message: SettingMessage) -> SettingState {
        match message {
            SettingMessage::ClockChanged(clock) => self.pick(clock),
            SettingMessage::ClockEnablingToggled(on) => self.enable(on),
            SettingMessage::TimeLimitHourChanged(text) => self.edit_hour(text@),
            SettingMessage::TimeLimitMinChanged(text) => self.edit_minute(text@),
            SettingMessage::TimeLimitSecChanged(text) => self.edit_second(text@),
            SettingMessage::RuleSelected(_) => self,
            SettingMessage::Done(_) => self,
        }
    }

    /// Whether any clock is in play.
    pub open spec fn any_enabled(self) -> bool {
        self.enabled[0] || self.enabled[1] || self.enabled[2] || self.enabled[3]
    }

    /// The time limit of the clock at `place` if it is in play, else
    /// nothing.
    pub open spec fn chosen_at(self, place: int) -> Seq<Nanos> {
        if self.enabled[place] {
            seq![self.limits[place]]
        } else {
            Seq::empty()
        }
    }

    /// The time limits of the clocks in play, in the order of their places.
    pub open spec fn chosen(self) -> Seq<Nanos> {
        self.chosen_at(0) + self.chosen_at(1) + self.chosen_at(2) + self.chosen_at(3)
    }
}

/// The time limit that three fields spell fits the type of a duration,
/// whatever the fields hold.
pub proof fn lemma_time_limit_fits(state: SettingState)
    ensures
        state.time_limit() <= u128::MAX,
{
}

/// There are as many chosen time limits as clocks in play: none where no
/// clock is in play, and never more than four.
pub proof fn lemma_chosen_count(state: SettingState)
    ensures
        state.chosen().len() <= 4,
        state.any_enabled() <==> state.chosen().len() >= 1,
{
}

/// Every message leaves four clocks on the screen.
pub proof fn lemma_setting_step_keeps_valid(state: SettingState, message: SettingMessage)
    requires
        state.valid(),
    ensures
        state.step(message).valid(),
{
}

/// A field keeps its text when it is handed text that holds no number, and
/// nothing else changes either. Empty text is such text.
pub proof fn lemma_rejected_edit_changes_nothing(state: SettingState, text: Seq<char>)
    requires
        !SettingState::accepts(text),
    ensures
        state.edit_hour(text) == state,
        state.edit_minute(text) == state,
        state.edit_second(text) == state,
        !SettingState::accepts(Seq::empty()),
{
}

/// A field that is handed text with a number in it holds that text
/// afterwards, and the clock being edited gets the time limit that the
/// three fields then spell: the number as hours, minutes or seconds, with
/// what the other two fields hold.
pub proof fn lemma_accepted_edit_is_taken(state: SettingState, text: Seq<char>)
    requires
        state.valid(),
        SettingState::accepts(text),
    ensures
        state.edit_hour(text).hour == text,
        state.edit_minute(text).minute == text,
        state.edit_second(text).second == text,
        state.edit_hour(text).limits[state.current.place()] == hms(
            SettingState::entered(text),
            SettingState::entered(state.minute),
            SettingState::entered(state.second),
        ),
        state.edit_minute(text).limits[state.current.place()] == hms(
            SettingState::entered(state.hour),
            SettingState::entered(text),
            SettingState::entered(state.second),
        ),
        state.edit_second(text).limits[state.current.place()] == hms(
            SettingState::entered(state.hour),
            SettingState::entered(state.minute),
            SettingState::entered(text),
        ),
        SettingState::entered(text) == field_value(text, FIELD_MAX as nat).unwrap(),
{
}

/// A field takes every number that `decimal` writes, up to the largest that
/// a field takes, and reads it as that number.
pub proof fn lemma_field_accepts_numbers(n: nat)
    requires
        n <= FIELD_MAX,
    ensures
        SettingState::accepts(decimal(n)),
        SettingState::entered(decimal(n)) == n,
{
    lemma_field_reads_decimal(n, FIELD_MAX as nat);
}

/// The settings screen.
pub struct SettingPane {
    current_clock: Clock,
    clocks: Vec<ClockSettings>,
    enabled: Vec<bool>,
    time_limit_hour_value: String,
    time_limit_min_value: String,
    time_limit_sec_value: String,
}

impl Clone for SettingPane {
    /// A settings screen that shows what this one shows.
    fn clone(&self) -> (copy: Self)
        ensures
            copy@ == self@,
            copy@.valid(),
    {
        proof {
            use_type_invariant(self);
        }
        Self {
            current_clock: self.current_clock,
            clocks: self.clocks.clone(),
            enabled: self.enabled.clone(),
            time_limit_hour_value: self.time_limit_hour_value.clone(),
            time_limit_min_value: self.time_limit_min_value.clone(),
            time_limit_sec_value: self.time_limit_sec_value.clone(),
        }
    }
}

impl View for SettingPane {
    type V = SettingState;

    closed spec fn view(&self) -> SettingState {
        SettingState {
            current: self.current_clock,
            limits: Seq::new(self.clocks.len() as nat, |i: int| self.clocks[i].time_limit),
            enabled: self.enabled@,
            hour: self.time_limit_hour_value@,
            minute: self.time_limit_min_value@,
            second: self.time_limit_sec_value@,
        }
    }
}

impl SettingPane {
    #[verifier::type_invariant]
    spec fn inv(&self) -> bool {
        self.clocks.len() == 4 && self.enabled.len() == 4
    }

    /// The screen as it first appears.
    pub fn new() -> (pane: Self)
        ensures
            pane@ == SettingState::initial(),
            pane@.valid(),
    {
        let unset = ClockSettings::default();
        let pane = Self {
            current_clock: Clock::Blue,
            clocks: vec![unset, unset, unset, unset],
            enabled: vec![true, false, false, false],
            time_limit_hour_value: String::new(),
            time_limit_min_value: String::new(),
            time_limit_sec_value: String::new(),
        };
        assert(pane@.limits =~= SettingState::initial().limits);
        pane
    }

    /// Takes a message: a clock is picked, put in play or taken out, or a
    /// field is edited.
    pub fn update(&mut self, message: SettingMessage)
        ensures
            old(self)@.valid(),
            final(self)@ == old(self)@.step(message),
            final(self)@.valid(),
    {
        proof {
            use_type_invariant(&*self);
        }
        match message {
            SettingMessage::ClockChanged(clock) => {
                self.current_clock = clock;
                let (hour, min, sec) = split_hms(self.clocks[clock.index()].time_limit);
                self.time_limit_hour_value = decimal_string(hour);
                self.time_limit_min_value = decimal_string(min);
                self.time_limit_sec_value = decimal_string(sec);
            },
            SettingMessage::ClockEnablingToggled(enabled) => {
                let index = self.current_clock.index();
                self.enabled[index] = enabled;
            },
            SettingMessage::TimeLimitHourChanged(hour) => {
                if parse_field(hour.as_str(), FIELD_MAX).is_some() {
                    self.time_limit_hour_value = hour;
                    self.take_limit_from_fields();
                }
            },
            SettingMessage::TimeLimitMinChanged(min) => {
                if parse_field(min.as_str(), FIELD_MAX).is_some() {
                    self.time_limit_min_value = min;
                    self.take_limit_from_fields();
                }
            },
            SettingMessage::TimeLimitSecChanged(sec) => {
                if parse_field(sec.as_str(), FIELD_MAX).is_some() {
                    self.time_limit_sec_value = sec;
                    self.take_limit_from_fields();
                }
            },
            _ => {},
        }
    }

    /// Gives the clock being edited the time limit that the fields spell.
    fn take_limit_from_fields(&mut self)
        ensures
            final(self)@ == old(self)@.with_limit_from_fields(),
    {
        proof {
            use_type_invariant(&*self);
        }
        let ghost before = self@;
        let limit = self.time_limit();
        let index = self.current_clock.index();
        self.clocks[index].time_limit = limit;
        assert(self@.limits =~= before.with_limit_from_fields().limits);
    }

    /// The time limit that the three fields spell. A field that holds no
    /// number counts as zero.
    pub fn time_limit(&self) -> (limit: Nanos)
        ensures
            limit == self@.time_limit(),
    {
        let hours = Self::entered(self.time_limit_hour_value.as_str());
        let minutes = Self::entered(self.time_limit_min_value.as_str());
        let seconds = Self::entered(self.time_limit_sec_value.as_str());
        from_hms(hours, minutes, seconds)
    }

    /// The number that a field with this text contributes to the time
    /// limit.
    fn entered(text: &str) -> (value: u64)
        ensures
            value == SettingState::entered(text@),
    {
        match parse_field(text, FIELD_MAX) {
            Some(value) => value,
            None => 0,
        }
    }

    /// The settings that the screen stands for, once a clock is in play: the
    /// time limits of the clocks in play, in the order blue, green, red,
    /// yellow. With no clock in play there are none, and the player cannot
    /// be done.
    pub fn done_settings(&self) -> (done: Option<Settings>)
        ensures
            match done {
                Some(settings) => {
                    &&& self@.valid()
                    &&& self@.any_enabled()
                    &&& settings.limits() == self@.chosen()
                    &&& 1 <= settings.clocks.len() <= 4
                },
                None => self@.valid() && !self@.any_enabled(),
            },
    {
        proof {
            use_type_invariant(self);
        }
        let mut clocks: Vec<ClockSettings> = Vec::new();
        let ghost mut limits: Seq<Nanos> = Seq::empty();
        let mut i: usize = 0;
        while i < 4
            invariant
                i <= 4,
                self.clocks.len() == 4,
                self.enabled.len() == 4,
                limits.len() == clocks.len(),
                forall|k: int| 0 <= k < clocks.len() ==> (#[trigger] clocks[k]).time_limit == limits[k],
                limits == if i == 0 {
                    Seq::<Nanos>::empty()
                } else if i == 1 {
                    self@.chosen_at(0)
                } else if i == 2 {
                    self@.chosen_at(0) + self@.chosen_at(1)
                } else if i == 3 {
                    self@.chosen_at(0) + self@.chosen_at(1) + self@.chosen_at(2)
                } else {
                    self@.chosen()
                },
            decreases 4 - i,
        {
            proof {
                limits = limits + self@.chosen_at(i as int);
            }
            if self.enabled[i] {
                clocks.push(self.clocks[i]);
            }
            i += 1;
        }
        if clocks.len() == 0 {
            None
        } else {
            let settings = Settings { clocks };
            Some(settings)
        }
    }

    /// The period at which the screen asks to be ticked: it never asks.
    pub fn subscription(&self) -> (period: Option<Nanos>)
        ensures
            period is None,
    {
        None
    }

    /// The clock being edited.
    pub fn current_clock(&self) -> (clock: Clock)
        ensures
            clock == self@.current,
            self@.valid(),
    {
        proof {
            use_type_invariant(self);
        }
        self.current_clock
    }

    /// Whether `clock` is in play.
    pub fn is_enabled(&self, clock: Clock) -> (enabled: bool)
        ensures
            enabled == self@.enabled[clock.place()],
            self@.valid(),
    {
        proof {
            use_type_invariant(self);
        }
        self.enabled[clock.index()]
    }

    /// The time limit of `clock`.
    pub fn time_limit_of(&self, clock: Clock) -> (limit: Nanos)
        ensures
            limit == self@.limits[clock.place()],
            self@.valid(),
    {
        proof {
            use_type_invariant(self);
        }
        self.clocks[clock.index()].time_limit
    }

    /// The text in the hours field.
    pub fn hour_value(&self) -> (text: &str)
        ensures
            text@ == self@.hour,
    {
        self.time_limit_hour_value.as_str()
    }

    /// The text in the minutes field.
    pub fn min_value(&self) -> (text: &str)
        ensures
            text@ == self@.minute,
    {
        self.time_limit_min_value.as_str()
    }

    /// The text in the seconds field.
    pub fn sec_value(&self) -> (text: &str)
        ensures
            text@ == self@.second,
    {
        self.time_limit_sec_value.as_str()
    }
}

} // verus!
