//! What a key does, and the repeating of actions while it is held.

use crate::config::types::{Action, Modifiers};
use crate::config::Config;
use vstd::prelude::*;

verus! {

use crate::config::types::ActionView;

/// What becomes of a key event.
#[derive(Debug)]
pub enum KeyOutcome {
    /// The cycling of windows ends, and the client gets the key.
    EndCycle,
    /// The client gets the key.
    Forward,
    /// The compositor acts, and the client gets nothing.
    Intercept(Action),
}

/// What becomes of a key event, with the text of an action as characters.
pub enum KeyOutcomeView {
    EndCycle,
    Forward,
    Intercept(ActionView),
}

impl View for KeyOutcome {
    type V = KeyOutcomeView;

    open spec fn view(&self) -> KeyOutcomeView {
        match self {
            KeyOutcome::EndCycle => KeyOutcomeView::EndCycle,
            KeyOutcome::Forward => KeyOutcomeView::Forward,
            KeyOutcome::Intercept(a) => KeyOutcomeView::Intercept(a@),
        }
    }
}

/// What a key event comes to. Letting go of the cycle modifier ends cycling
/// before any binding is looked at.
pub open spec fn key_outcome(
    config: Config,
    cycling: bool,
    modifiers: Modifiers,
    pressed: bool,
    sym: u32,
) -> KeyOutcomeView {
    if cycling && !config.cycle_modifier.held(modifiers) {
        KeyOutcomeView::EndCycle
    } else if pressed {
        match config.key_action(modifiers, sym) {
            Some(a) => KeyOutcomeView::Intercept(a@),
            None => KeyOutcomeView::Forward,
        }
    } else {
        KeyOutcomeView::Forward
    }
}

/// Decides what becomes of a key event.
pub fn filter_key(config: &Config, cycling: bool, modifiers: &Modifiers, pressed: bool, sym: u32) -> (r:
    KeyOutcome)
    ensures
        r@ == key_outcome(*config, cycling, *modifiers, pressed, sym),
{
    if cycling && !config.cycle_modifier.is_pressed(modifiers) {
        return KeyOutcome::EndCycle;
    }
    if pressed {
        if let Some(action) = config.lookup(modifiers, sym) {
            return KeyOutcome::Intercept(action.duplicate());
        }
    }
    KeyOutcome::Forward
}

/// Releasing a key never starts an action.
pub proof fn releases_start_nothing(config: Config, cycling: bool, modifiers: Modifiers, sym: u32)
    ensures
        key_outcome(config, cycling, modifiers, false, sym) !is Intercept,
{
}

/// An action that repeats while its key is held.
#[derive(Debug)]
pub struct HeldAction {
    pub keycode: u32,
    pub action: Action,
    /// When it fires next, in milliseconds.
    pub next_fire: u64,
}

/// The action that repeats at present.
#[derive(Debug)]
pub struct KeyRepeat {
    pub held: Option<HeldAction>,
}

/// A repeating action with its text as characters: key, action and time.
pub open spec fn held_view(held: Option<HeldAction>) -> Option<(u32, ActionView, u64)> {
    match held {
        Some(h) => Some((h.keycode, h.action@, h.next_fire)),
        None => None,
    }
}

impl View for KeyRepeat {
    type V = Option<(u32, ActionView, u64)>;

    open spec fn view(&self) -> Option<(u32, ActionView, u64)> {
        held_view(self.held)
    }
}

/// Milliseconds between two repeats at a rate per second.
pub open spec fn repeat_interval(rate: i32) -> int {
    1000int / (if rate < 1 {
        1int
    } else {
        rate as int
    })
}

impl KeyRepeat {
    /// Nothing repeats.
    pub fn new() -> (r: KeyRepeat)
        ensures
            r@ is None,
    {
        KeyRepeat { held: None }
    }

    /// Takes a released key: what it repeated stops.
    pub fn key_released(&mut self, keycode: u32)
        ensures
            final(self)@ == match old(self)@ {
                Some(h) => if h.0 == keycode {
                    None
                } else {
                    Some(h)
                },
                None => None,
            },
    {
        let stops = match &self.held {
            Some(h) => h.keycode == keycode,
            None => false,
        };
        if stops {
            self.held = None;
        }
    }

    /// Takes an action that a key has started: it repeats after the delay if
    /// it can, and takes the place of what repeated before in any case.
    pub fn action_started(&mut self, keycode: u32, action: &Action, now: u64, repeat_delay: i32)
        requires
            repeat_delay >= 0,
            now + repeat_delay <= u64::MAX,
        ensures
            final(self)@ == if action@.repeats() {
                Some((keycode, action@, (now + repeat_delay) as u64))
            } else {
                None
            },
    {
        if action.is_repeatable() {
            self.held =
            Some(
                HeldAction {
                    keycode,
                    action: action.duplicate(),
                    next_fire: now + repeat_delay as u64,
                },
            );
        } else {
            self.held = None;
        }
    }

    /// Lets time pass. Returns the action to carry out, if one is due.
    pub fn tick(&mut self, now: u64, repeat_rate: i32) -> (r: Option<Action>)
        requires
            now + 1000 <= u64::MAX,
        ensures
            match old(self)@ {
                Some(h) => if now < h.2 {
                    r is None && final(self)@ == old(self)@
                } else {
                    r is Some && r->0@ == h.1 && final(self)@ == Some(
                        (h.0, h.1, (now + repeat_interval(repeat_rate)) as u64),
                    )
                },
                None => r is None && final(self)@ is None,
            },
    {
        let rate: u64 = if repeat_rate < 1 {
            1
        } else {
            repeat_rate as u64
        };
        let interval: u64 = 1000 / rate;
        assert(interval <= 1000) by (nonlinear_arith)
            requires
                rate >= 1,
                interval == 1000u64 / rate,
        ;
        let held = self.held.take();
        match held {
            Some(h) => {
                if now < h.next_fire {
                    self.held = Some(h);
                    None
                } else {
                    let action = h.action.duplicate();
                    self.held =
                    Some(
                        HeldAction {
                            keycode: h.keycode,
                            action: h.action,
                            next_fire: now + interval,
                        },
                    );
                    Some(action)
                }
            },
            None => None,
        }
    }
}

} // verus!
