//! The screens of the game clock and the moves from one to another.
//!
//! The screens form a stack. Only the screen on top takes messages; a
//! message that is not meant for it is passed over. The settings screen and
//! the clock screen stand alone; the pause screen lies on the clock screen
//! that it interrupts, which keeps its state underneath.

pub mod clock;
pub mod pause;
pub mod setting;

use crate::settings::Settings;
use crate::time::Nanos;
use clock::{ClockMessage, ClockPane, MultiClockState, TICK_INTERVAL};
use pause::{PauseMessage, PausePane};
use setting::{SettingMessage, SettingPane, SettingState};
use vstd::prelude::*;
use vstd::string::*;

verus! {

/// A message for one of the screens.
#[derive(Clone, Debug)]
pub enum RootMessage {
    Clock(ClockMessage),
    Pause(PauseMessage),
    Setting(SettingMessage),
}

/// The kinds of screen.
#[derive(Clone, Copy, Debug, PartialEq, Eq, Structural)]
pub enum ScreenKind {
    Clock,
    Pause,
    Setting,
}

/// A screen as a mathematical value.
pub enum Screen {
    Clock(MultiClockState),
    Pause,
    Setting(SettingState),
}

impl Screen {
    /// The kind of the screen.
    pub open spec fn kind(self) -> ScreenKind {
        match self {
            Screen::Clock(_) => ScreenKind::Clock,
            Screen::Pause => ScreenKind::Pause,
            Screen::Setting(_) => ScreenKind::Setting,
        }
    }

    /// The screen after it was handed `message`: a message for a screen of
    /// another kind leaves it as it is.
    pub open spec fn dispatch(self, message: RootMessage) -> Screen {
        match (self, message) {
            (Screen::Clock(clocks), RootMessage::Clock(m)) => Screen::Clock(clocks.step(m)),
            (Screen::Setting(form), RootMessage::Setting(m)) => Screen::Setting(form.step(m)),
            _ => self,
        }
    }

    /// Whether `message` is meant for a screen of this kind.
    pub open spec fn takes(self, message: RootMessage) -> bool {
        match (self, message) {
            (Screen::Clock(_), RootMessage::Clock(_)) => true,
            (Screen::Pause, RootMessage::Pause(_)) => true,
            (Screen::Setting(_), RootMessage::Setting(_)) => true,
            _ => false,
        }
    }

    /// The period at which the screen asks to be ticked, if it asks at all:
    /// only the clock screen does.
    pub open spec fn tick_period(self) -> Option<Nanos> {
        match self {
            Screen::Clock(_) => Some(TICK_INTERVAL),
            _ => None,
        }
    }

    /// The clocks are valid, or the form has its four clocks.
    pub open spec fn valid(self) -> bool {
        match self {
            Screen::Clock(clocks) => clocks.valid(),
            Screen::Pause => true,
            Screen::Setting(form) => form.valid(),
        }
    }
}

/// The stack of screens and the settings in force, as a mathematical value.
pub struct RootState {
    /// The screens, the one that is shown last.
    pub stack: Seq<Screen>,
    /// The time limits in force, one for each clock of the game.
    pub limits: Seq<Nanos>,
}

impl RootState {
    /// The settings screen alone, and one clock with no time as the
    /// settings in force.
    pub open spec fn initial() -> RootState {
        RootState { stack: seq![Screen::Setting(SettingState::initial())], limits: seq![0u128] }
    }

    /// The screen that is shown.
    pub open spec fn top(self) -> Screen {
        self.stack.last()
    }

    /// The settings in force are for one to four clocks, and the stack is
    /// the settings screen alone, the clock screen alone, or the pause
    /// screen on the clock screen.
    pub open spec fn valid(self) -> bool {
        &&& 1 <= self.limits.len() <= 4
        &&& self.stack.len() == 1 || self.stack.len() == 2
        &&& self.stack[0].valid()
        &&& self.stack.len() == 1 ==> !(self.stack[0] is Pause)
        &&& self.stack.len() == 2 ==> self.stack[0] is Clock && self.stack[1] is Pause
    }

    /// The stack with the screen on top replaced by `screen`.
    pub open spec fn with_top(self, screen: Screen) -> RootState {
        RootState { stack: self.stack.drop_last().push(screen), ..self }
    }

    /// A new game: the clock screen alone, with fresh clocks for `limits`,
    /// which are the settings in force from now on.
    pub open spec fn game(limits: Seq<Nanos>) -> RootState {
        RootState { stack: seq![Screen::Clock(MultiClockState::fresh(limits))], limits }
    }

    /// The period at which ticks are wanted: that of the screen on top,
    /// and none where there is no screen.
    pub open spec fn tick_period(self) -> Option<Nanos> {
        if self.stack.len() == 0 {
            None
        } else {
            self.top().tick_period()
        }
    }

    /// The kind of the screen that `message` brings up anew, if it brings
    /// one up: the pause screen when a pause is asked for, the settings
    /// screen when the pause screen is left for it, and the clock screen
    /// when a game starts, be it by a reset or with settings that are done.
    pub open spec fn opens(self, message: RootMessage) -> Option<ScreenKind> {
        if self.stack.len() == 0 || !self.top().takes(message) {
            None
        } else {
            match message {
                RootMessage::Clock(ClockMessage::Pause) => Some(ScreenKind::Pause),
                RootMessage::Pause(PauseMessage::Settings) => Some(ScreenKind::Setting),
                RootMessage::Pause(PauseMessage::Reset) => Some(ScreenKind::Clock),
                RootMessage::Setting(SettingMessage::Done(_)) => Some(ScreenKind::Clock),
                _ => None,
            }
        }
    }

    /// The state after `message`.
    ///
    /// A message that is not meant for the screen on top changes nothing,
    /// nor does any message where there is no screen.
    /// Otherwise the screen on top takes it, and then:
    /// - when the settings are done, a new game starts with them;
    /// - when a pause is asked for, the pause screen is put on the clock
    ///   screen;
    /// - from the pause screen, going back uncovers the clock screen,
    ///   a reset starts a new game with the settings in force, and the
    ///   settings screen comes up as it first appears.
    pub open spec fn step(self, message: RootMessage) -> RootState {
        if self.stack.len() == 0 || !self.top().takes(message) {
            self
        } else {
            let taken = self.with_top(self.top().dispatch(message));
            match message {
                RootMessage::Setting(SettingMessage::Done(settings)) => Self::game(
                    settings.limits(),
                ),
                RootMessage::Clock(ClockMessage::Pause) => RootState {
                    stack: taken.stack.push(Screen::Pause),
                    ..taken
                },
                RootMessage::Pause(PauseMessage::Back) => RootState {
                    stack: taken.stack.drop_last(),
                    ..taken
                },
                RootMessage::Pause(PauseMessage::Reset) => Self::game(self.limits),
                RootMessage::Pause(PauseMessage::Settings) => RootState {
                    stack: seq![Screen::Setting(SettingState::initial())],
                    ..taken
                },
                _ => taken,
            }
        }
    }
}

/// Whether `message` can be handed to the screens: settings that are done
/// must be for one to four clocks.
pub open spec fn admissible(message: RootMessage) -> bool {
    message matches RootMessage::Setting(SettingMessage::Done(settings)) ==> 1
        <= settings.clocks.len() <= 4
}

/// The first state is valid.
pub proof fn lemma_initial_is_valid()
    ensures
        RootState::initial().valid(),
{
}

/// Whatever the message, a valid state is followed by a valid state. So the
/// pause screen never stands alone: it lies on a clock screen or is not
/// there.
pub proof fn lemma_root_step_keeps_valid(state: RootState, message: RootMessage)
    requires
        state.valid(),
        admissible(message),
    ensures
        state.step(message).valid(),
{
    match message {
        RootMessage::Clock(m) => {
            if state.top() is Clock {
                clock::lemma_step_keeps_valid(state.top()->Clock_0, m);
            }
        },
        RootMessage::Setting(SettingMessage::Done(settings)) => {
            clock::lemma_fresh_is_valid(settings.limits());
        },
        RootMessage::Setting(m) => {
            if state.top() is Setting {
                setting::lemma_setting_step_keeps_valid(state.top()->Setting_0, m);
            }
        },
        RootMessage::Pause(_) => {
            clock::lemma_fresh_is_valid(state.limits);
        },
    }
}

/// A reset from the pause screen leads to the game that the settings in
/// force describe, with every clock stopped and at its limit and the turn
/// with the last clock, whatever the clocks showed before. It is the state
/// in which the game started when those settings were done.
pub proof fn lemma_reset_starts_anew(state: RootState, settings: Settings)
    requires
        state.valid(),
        state.top() is Pause,
    ensures
        state.step(RootMessage::Pause(PauseMessage::Reset)) == RootState::game(state.limits),
        state.step(RootMessage::Pause(PauseMessage::Reset)).top() == Screen::Clock(
            MultiClockState::fresh(state.limits),
        ),
        settings.limits() == state.limits ==> state.step(RootMessage::Pause(PauseMessage::Reset))
            == RootState::initial().step(RootMessage::Setting(SettingMessage::Done(settings))),
{
}

/// A pause puts the pause screen on the clock screen. While it lies there
/// no tick and no toggle reaches the clocks, and going back uncovers them
/// as the request to pause left them.
pub proof fn lemma_pause_keeps_clocks(state: RootState, clocks: MultiClockState, message: ClockMessage)
    requires
        state.valid(),
        state.top() == Screen::Clock(clocks),
    ensures
        ({
            let paused = state.step(RootMessage::Clock(ClockMessage::Pause));
            &&& paused.stack == seq![Screen::Clock(clocks.pause_request()), Screen::Pause]
            &&& paused.step(RootMessage::Clock(message)) == paused
            &&& paused.step(RootMessage::Pause(PauseMessage::Back)).stack == seq![
                Screen::Clock(clocks.pause_request()),
            ]
        }),
{
}

/// A screen that a message brings up anew is on top afterwards, and is as
/// such a screen first appears: the pause screen, the settings screen with
/// nothing entered, or fresh clocks for the settings in force. Where a
/// message brings up no screen, the stack grows by none, and each screen
/// that is left is of the kind that was at its place.
pub proof fn lemma_opened_screen_is_new(state: RootState, message: RootMessage)
    requires
        state.valid(),
        admissible(message),
    ensures
        ({
            let after = state.step(message);
            match state.opens(message) {
                Some(ScreenKind::Clock) => after.top() == Screen::Clock(
                    MultiClockState::fresh(after.limits),
                ),
                Some(ScreenKind::Pause) => after.top() == Screen::Pause && after.stack.len()
                    == state.stack.len() + 1,
                Some(ScreenKind::Setting) => after.top() == Screen::Setting(
                    SettingState::initial(),
                ),
                None => {
                    &&& 1 <= after.stack.len() <= state.stack.len()
                    &&& forall|i: int|
                        0 <= i < after.stack.len() ==> (#[trigger] after.stack[i]).kind()
                            == state.stack[i].kind()
                },
            }
        }),
{
}

/// A screen.
pub enum Pane {
    Clock(ClockPane),
    Pause(PausePane),
    Setting(SettingPane),
}

impl Clone for Pane {
    /// A screen that shows what this one shows.
    fn clone(&self) -> (copy: Self)
        ensures
            copy@ == self@,
    {
        match self {
            Pane::Clock(pane) => Pane::Clock(pane.clone()),
            Pane::Pause(pane) => Pane::Pause(*pane),
            Pane::Setting(pane) => Pane::Setting(pane.clone()),
        }
    }
}

impl View for Pane {
    type V = Screen;

    open spec fn view(&self) -> Screen {
        match self {
            Pane::Clock(pane) => Screen::Clock(pane@),
            Pane::Pause(_) => Screen::Pause,
            Pane::Setting(pane) => Screen::Setting(pane@),
        }
    }
}

impl Pane {
    /// The kind of the screen.
    pub fn kind(&self) -> (kind: ScreenKind)
        ensures
            kind == self@.kind(),
    {
        match self {
            Pane::Clock(_) => ScreenKind::Clock,
            Pane::Pause(_) => ScreenKind::Pause,
            Pane::Setting(_) => ScreenKind::Setting,
        }
    }

    /// Hands `message` to the screen if it is meant for a screen of its
    /// kind.
    pub fn update(&mut self, message: RootMessage)
        ensures
            final(self)@ == old(self)@.dispatch(message),
            final(self)@.kind() == old(self)@.kind(),
            old(self)@.valid() ==> final(self)@.valid(),
    {
        match self {
            Pane::Clock(pane) => {
                if let RootMessage::Clock(message) = message {
                    pane.update(message);
                }
            },
            Pane::Pause(pane) => {
                if let RootMessage::Pause(message) = message {
                    pane.update(message);
                }
            },
            Pane::Setting(pane) => {
                if let RootMessage::Setting(message) = message {
                    pane.update(message);
                }
            },
        }
    }

    /// The period at which the screen asks to be ticked, if it asks at all:
    /// only the clock screen does.
    pub fn subscription(&self) -> (period: Option<Nanos>)
        ensures
            period == self@.tick_period(),
    {
        match self {
            Pane::Clock(pane) => pane.subscription(),
            Pane::Pause(pane) => pane.subscription(),
            Pane::Setting(pane) => pane.subscription(),
        }
    }
}

/// The screens of the game clock, and the settings in force.
pub struct RootPane {
    children: Vec<Pane>,
    settings: Settings,
}

impl View for RootPane {
    type V = RootState;

    closed spec fn view(&self) -> RootState {
        RootState {
            stack: Seq::new(self.children.len() as nat, |i: int| self.children[i]@),
            limits: self.settings.limits(),
        }
    }
}

impl RootPane {
    #[verifier::type_invariant]
    spec fn inv(&self) -> bool {
        &&& 1 <= self.settings.clocks.len() <= 4
        &&& self.children.len() == 1 || self.children.len() == 2
        &&& self.children[0]@.valid()
        &&& self.children.len() == 1 ==> self.children[0]@.kind() != ScreenKind::Pause
        &&& self.children.len() == 2 ==> self.children[0]@.kind() == ScreenKind::Clock
            && self.children[1]@.kind() == ScreenKind::Pause
    }

    /// The settings screen, as the game clock first shows it.
    pub fn new() -> (root: Self)
        ensures
            root@ == RootState::initial(),
            root@.valid(),
    {
        let root = Self {
            children: vec![Pane::Setting(SettingPane::new())],
            settings: Settings::default(),
        };
        assert(root@.stack =~= RootState::initial().stack);
        root
    }

    /// The name of the game clock.
    pub fn title(&self) -> (title: String)
        ensures
            title@ == "GameClocKBone"@,
    {
        "GameClocKBone".to_owned()
    }

    /// Hands `message` to the screen on top and moves between the screens
    /// as the message asks.
    ///
    /// The stack is valid at every moment: it is never taken apart. The
    /// message goes to a copy of the screen on top, and the stack that
    /// follows is put in the place of the old one whole. A screen is a few
    /// numbers and three short texts, so the copy costs next to nothing.
    pub fn update(&mut self, message: RootMessage)
        requires
            admissible(message),
        ensures
            old(self)@.valid(),
            final(self)@ == old(self)@.step(message),
            final(self)@.valid(),
    {
        proof {
            use_type_invariant(&*self);
        }
        let ghost before = self@;
        let last = self.children.len() - 1;
        match (self.children[last].kind(), message) {
            (ScreenKind::Setting, RootMessage::Setting(SettingMessage::Done(settings))) => {
                let limits = settings.time_limits();
                self.settings = settings;
                self.children = vec![Pane::Clock(ClockPane::new(limits.as_slice()))];
            },
            (ScreenKind::Setting, RootMessage::Setting(other)) => {
                let mut form = self.children[last].clone();
                form.update(RootMessage::Setting(other));
                self.children = vec![form];
            },
            (ScreenKind::Clock, RootMessage::Clock(ClockMessage::Pause)) => {
                let mut clocks = self.children[last].clone();
                clocks.update(RootMessage::Clock(ClockMessage::Pause));
                self.children = vec![clocks, Pane::Pause(PausePane::new())];
            },
            (ScreenKind::Clock, RootMessage::Clock(other)) => {
                let mut clocks = self.children[last].clone();
                clocks.update(RootMessage::Clock(other));
                self.children = vec![clocks];
            },
            (ScreenKind::Pause, RootMessage::Pause(PauseMessage::Settings)) => {
                self.children = vec![Pane::Setting(SettingPane::new())];
            },
            (ScreenKind::Pause, RootMessage::Pause(PauseMessage::Back)) => {
                let clocks = self.children[0].clone();
                self.children = vec![clocks];
            },
            (ScreenKind::Pause, RootMessage::Pause(PauseMessage::Reset)) => {
                let limits = self.settings.time_limits();
                self.children = vec![Pane::Clock(ClockPane::new(limits.as_slice()))];
            },
            _ => {},
        }
        assert(self@.stack =~= before.step(message).stack);
    }

    /// The kind of the screen that `message` would bring up anew, if it
    /// would bring one up.
    pub fn opens(&self, message: &RootMessage) -> (kind: Option<ScreenKind>)
        ensures
            kind == self@.opens(*message),
            self@.valid(),
    {
        let top = self.top().kind();
        match (top, message) {
            (ScreenKind::Clock, RootMessage::Clock(ClockMessage::Pause)) => Some(ScreenKind::Pause),
            (ScreenKind::Pause, RootMessage::Pause(PauseMessage::Settings)) => Some(
                ScreenKind::Setting,
            ),
            (ScreenKind::Pause, RootMessage::Pause(PauseMessage::Reset)) => Some(ScreenKind::Clock),
            (ScreenKind::Setting, RootMessage::Setting(SettingMessage::Done(_))) => Some(
                ScreenKind::Clock,
            ),
            _ => None,
        }
    }

    /// The period at which ticks are wanted: ticks are asked for exactly
    /// while the clock screen is on top.
    pub fn subscription(&self) -> (period: Option<Nanos>)
        ensures
            period == self@.tick_period(),
            self@.valid(),
    {
        self.top().subscription()
    }

    /// The screen that is shown.
    pub fn top(&self) -> (pane: &Pane)
        ensures
            pane@ == self@.top(),
            self@.valid(),
    {
        proof {
            use_type_invariant(self);
        }
        &self.children[self.children.len() - 1]
    }

    /// The screens, the one that is shown last.
    pub fn children(&self) -> (panes: &[Pane])
        ensures
            panes@.len() == self@.stack.len(),
            forall|i: int| 0 <= i < panes@.len() ==> (#[trigger] panes@[i])@ == self@.stack[i],
            self@.valid(),
    {
        proof {
            use_type_invariant(self);
        }
        self.children.as_slice()
    }

    /// The settings in force.
    pub fn settings(&self) -> (settings: &Settings)
        ensures
            settings.limits() == self@.limits,
            self@.valid(),
    {
        proof {
            use_type_invariant(self);
        }
        &self.settings
    }
}

} // verus!
