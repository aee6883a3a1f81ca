use vstd::prelude::*;

verus! {

/// Number of foot switches on the pedal; button ids run from 0 to `BUTTON_COUNT - 1`.
pub const BUTTON_COUNT: u8 = 6;

/// How a button turns switch presses into events.
#[derive(Clone, Copy, Debug, PartialEq, Eq, Structural)]
pub enum ButtonBehavior {
    /// Each press flips a latched On/Off level; releases are silent.
    Toggle,
    /// A press sends On, the matching release sends Off.
    Momentary,
    /// A press sends On; nothing is ever sent on release.
    Tap,
}

impl Default for ButtonBehavior {
    fn default() -> (r: Self)
        ensures
            r == ButtonBehavior::Toggle,
    {
        ButtonBehavior::Toggle
    }
}

/// Logical level of a button.
#[derive(Clone, Copy, Debug, PartialEq, Eq, Structural)]
pub enum ButtonState {
    On,
    Off,
}

pub open spec fn toggled(s: ButtonState) -> ButtonState {
    match s {
        ButtonState::On => ButtonState::Off,
        ButtonState::Off => ButtonState::On,
    }
}

impl ButtonState {
    pub fn toggle(self) -> (r: Self)
        ensures
            r == toggled(self),
    {
        match self {
            ButtonState::On => ButtonState::Off,
            ButtonState::Off => ButtonState::On,
        }
    }
}

/// The configuration unit published to one button.
#[derive(Clone, Copy, Debug, PartialEq, Eq, Structural)]
pub struct ButtonConfig {
    pub behavior: ButtonBehavior,
}

impl Default for ButtonConfig {
    fn default() -> (r: Self)
        ensures
            r.behavior == ButtonBehavior::Toggle,
    {
        ButtonConfig { behavior: ButtonBehavior::Toggle }
    }
}

/// An event from one button to the dispatcher.
#[derive(Clone, Copy, Debug, PartialEq, Eq, Structural)]
pub struct ButtonMessage {
    pub button_id: u8,
    pub state: ButtonState,
}

impl ButtonMessage {
    pub open spec fn wf(self) -> bool {
        self.button_id < BUTTON_COUNT
    }
}

/// The debounce/trigger state machine of one button.
///
/// `held` is true between a handled press and its release. The task that owns
/// the switch line calls `press` on a falling edge, waits out the debounce hold
/// and the return to the released level, then calls `release`; a configuration
/// taken from the button's channel goes to `configure`.
#[derive(Clone, Copy, Debug, PartialEq, Eq, Structural)]
pub struct ButtonHandler {
    pub id: u8,
    pub behavior: ButtonBehavior,
    pub state: ButtonState,
    pub held: bool,
}

/// A button that has not yet been pressed: released, latched Off.
pub open spec fn idle_handler(id: u8, behavior: ButtonBehavior) -> ButtonHandler {
    ButtonHandler { id, behavior, state: ButtonState::Off, held: false }
}

impl ButtonHandler {
    pub open spec fn wf(self) -> bool {
        self.id < BUTTON_COUNT
    }

    /// Handler and emitted event after a press edge.
    pub open spec fn pressed(self) -> (ButtonHandler, Option<ButtonMessage>) {
        if self.held {
            (self, None)
        } else {
            let s = match self.behavior {
                ButtonBehavior::Toggle => toggled(self.state),
                _ => ButtonState::On,
            };
            (
                ButtonHandler { state: s, held: true, ..self },
                Some(ButtonMessage { button_id: self.id, state: s }),
            )
        }
    }

    /// Handler and emitted event after the line returns to its released level.
    pub open spec fn released(self) -> (ButtonHandler, Option<ButtonMessage>) {
        if !self.held {
            (self, None)
        } else {
            let s = match self.behavior {
                ButtonBehavior::Toggle => self.state,
                _ => ButtonState::Off,
            };
            let out = match self.behavior {
                ButtonBehavior::Momentary => Some(
                    ButtonMessage { button_id: self.id, state: ButtonState::Off },
                ),
                _ => None,
            };
            (ButtonHandler { state: s, held: false, ..self }, out)
        }
    }

    /// Handler after a new configuration arrives: any cycle in progress is
    /// abandoned and the latched level is forced Off.
    pub open spec fn configured(self, config: ButtonConfig) -> ButtonHandler {
        idle_handler(self.id, config.behavior)
    }

    /// Starts the handler of button `id`, adopting a configuration that was
    /// already waiting for it, if any; otherwise the behavior is Toggle.
    pub fn new(id: u8, pending: Option<ButtonConfig>) -> (r: ButtonHandler)
        requires
            id < BUTTON_COUNT,
        ensures
            r.wf(),
            r == idle_handler(
                id,
                match pending {
                    Some(c) => c.behavior,
                    None => ButtonBehavior::Toggle,
                },
            ),
    {
        let behavior = match pending {
            Some(c) => c.behavior,
            None => ButtonBehavior::default(),
        };
        ButtonHandler { id, behavior, state: ButtonState::Off, held: false }
    }

    /// Handles a press edge and returns the event to send, if any.
    pub fn press(&mut self) -> (r: Option<ButtonMessage>)
        ensures
            (*final(self), r) == old(self).pressed(),
    {
        if self.held {
            return None;
        }
        let s = match self.behavior {
            ButtonBehavior::Toggle => self.state.toggle(),
            _ => ButtonState::On,
        };
        self.state = s;
        self.held = true;
        Some(ButtonMessage { button_id: self.id, state: s })
    }

    /// Handles the confirmed release after a press and returns the event to
    /// send, if any.
    pub fn release(&mut self) -> (r: Option<ButtonMessage>)
        ensures
            (*final(self), r) == old(self).released(),
    {
        if !self.held {
            return None;
        }
        self.held = false;
        match self.behavior {
            ButtonBehavior::Toggle => None,
            ButtonBehavior::Momentary => {
                self.state = ButtonState::Off;
                Some(ButtonMessage { button_id: self.id, state: ButtonState::Off })
            },
            ButtonBehavior::Tap => {
                self.state = ButtonState::Off;
                None
            },
        }
    }

    /// Adopts a newly published configuration. Nothing is emitted.
    pub fn configure(&mut self, config: ButtonConfig)
        ensures
            *final(self) == old(self).configured(config),
    {
        self.behavior = config.behavior;
        self.state = ButtonState::Off;
        self.held = false;
    }
}

/// Under Toggle, starting from a released button latched Off, two full
/// press/release cycles emit On then Off, each at its press; the releases emit
/// nothing.
pub proof fn lemma_toggle_two_cycles(h: ButtonHandler)
    requires
        h.wf(),
        h.behavior == ButtonBehavior::Toggle,
        h.state == ButtonState::Off,
        !h.held,
    ensures
        ({
            let (h1, e1) = h.pressed();
            let (h2, e2) = h1.released();
            let (h3, e3) = h2.pressed();
            let (h4, e4) = h3.released();
            &&& e1 == Some(ButtonMessage { button_id: h.id, state: ButtonState::On })
            &&& e2 is None
            &&& e3 == Some(ButtonMessage { button_id: h.id, state: ButtonState::Off })
            &&& e4 is None
            &&& h4 == h
        }),
{
}

/// Under Momentary, a press emits On and never Off; the matching release
/// emits Off, and nothing else does.
pub proof fn lemma_momentary_cycle(h: ButtonHandler)
    requires
        h.behavior == ButtonBehavior::Momentary,
        !h.held,
    ensures
        h.pressed().1 == Some(ButtonMessage { button_id: h.id, state: ButtonState::On }),
        h.pressed().0.pressed().1 is None,
        h.pressed().0.released().1 == Some(
            ButtonMessage { button_id: h.id, state: ButtonState::Off },
        ),
        h.released().1 is None,
{
}

/// Under Tap, every press of a released button emits On, no release emits
/// anything, and after a release the latched level is Off.
pub proof fn lemma_tap_never_releases(h: ButtonHandler)
    requires
        h.behavior == ButtonBehavior::Tap,
    ensures
        !h.held ==> h.pressed().1 == Some(
            ButtonMessage { button_id: h.id, state: ButtonState::On },
        ),
        h.released().1 is None,
        h.held ==> h.released().0.state == ButtonState::Off,
{
}

/// A configuration published at any point of a cycle leaves the button
/// released and latched Off under the new behavior, so that the next press
/// acts as the first press of a fresh button with that behavior.
pub proof fn lemma_configure_resets(h: ButtonHandler, config: ButtonConfig)
    ensures
        h.configured(config).state == ButtonState::Off,
        h.configured(config).behavior == config.behavior,
        !h.configured(config).held,
        h.configured(config).pressed() == idle_handler(h.id, config.behavior).pressed(),
{
}

} // verus!
