use vstd::prelude::*;

use crate::keys::{KeyCode, KeyEvent, KeyEventKind};

verus! {

/// How long a held navigation key waits before it repeats, in nanoseconds.
pub const INITIAL_REPEAT_DELAY_NANOS: u64 = 300_000_000;

/// How often a held navigation key repeats after the first delay, in
/// nanoseconds.
pub const REPEAT_INTERVAL_NANOS: u64 = 120_000_000;

/// The keys that move a selection: the arrows and j/k in either case.
pub open spec fn spec_is_navigation_key(code: KeyCode) -> bool {
    match code {
        KeyCode::Up | KeyCode::Down | KeyCode::Left | KeyCode::Right => true,
        KeyCode::Char(c) => c == 'j' || c == 'J' || c == 'k' || c == 'K',
        _ => false,
    }
}

pub fn is_navigation_key(code: KeyCode) -> (navigation: bool)
    ensures
        navigation == spec_is_navigation_key(code),
{
    match code {
        KeyCode::Up | KeyCode::Down | KeyCode::Left | KeyCode::Right | KeyCode::Char('j')
        | KeyCode::Char('J') | KeyCode::Char('k') | KeyCode::Char('K') => true,
        _ => false,
    }
}

/// The key being repeated and when it may fire next.
#[verifier::ext_equal]
pub struct KeyRepeatView {
    pub active_key: Option<KeyCode>,
    pub next_allowed: Option<u64>,
}

impl KeyRepeatView {
    /// The state and the answer of `accept(key, now)`.
    pub open spec fn accept(self, key: KeyEvent, now: u64) -> (Self, bool) {
        match key.kind {
            KeyEventKind::Release => if self.active_key == Some(key.code) {
                (KeyRepeatView { active_key: None, next_allowed: None }, false)
            } else {
                (self, false)
            },
            _ => if !spec_is_navigation_key(key.code) {
                (self, key.kind == KeyEventKind::Press)
            } else if self.active_key != Some(key.code) || self.next_allowed is None {
                (
                    KeyRepeatView {
                        active_key: Some(key.code),
                        next_allowed: Some((now + INITIAL_REPEAT_DELAY_NANOS) as u64),
                    },
                    true,
                )
            } else if now < self.next_allowed->0 {
                (self, false)
            } else {
                (
                    KeyRepeatView {
                        next_allowed: Some((now + REPEAT_INTERVAL_NANOS) as u64),
                        ..self
                    },
                    true,
                )
            },
        }
    }
}

/// Lets the first press of a navigation key through at once, then lets a
/// held key repeat only at a controlled rate; other keys pass on press.
/// Times are nanoseconds on a monotonic clock.
#[derive(Debug)]
pub struct EditorKeyRepeatGate {
    active_key: Option<KeyCode>,
    next_allowed: Option<u64>,
}

impl View for EditorKeyRepeatGate {
    type V = KeyRepeatView;

    closed spec fn view(&self) -> KeyRepeatView {
        KeyRepeatView { active_key: self.active_key, next_allowed: self.next_allowed }
    }
}

impl Default for EditorKeyRepeatGate {
    fn default() -> (gate: Self)
        ensures
            gate@ == (KeyRepeatView { active_key: None, next_allowed: None }),
    {
        Self { active_key: None, next_allowed: None }
    }
}

impl EditorKeyRepeatGate {
    pub fn accept(&mut self, key: KeyEvent, now: u64) -> (accepted: bool)
        requires
            now <= u64::MAX - INITIAL_REPEAT_DELAY_NANOS,
        ensures
            (final(self)@, accepted) == old(self)@.accept(key, now),
    {
        match key.kind {
            KeyEventKind::Release => {
                if self.active_key == Some(key.code) {
                    self.reset();
                }
                false
            },
            KeyEventKind::Press | KeyEventKind::Repeat => {
                if !is_navigation_key(key.code) {
                    return key.kind == KeyEventKind::Press;
                }
                if self.active_key != Some(key.code) {
                    self.active_key = Some(key.code);
                    self.next_allowed = Some(now + INITIAL_REPEAT_DELAY_NANOS);
                    return true;
                }
                let next_allowed = match self.next_allowed {
                    Some(next_allowed) => next_allowed,
                    None => {
                        self.next_allowed = Some(now + INITIAL_REPEAT_DELAY_NANOS);
                        return true;
                    },
                };
                if now < next_allowed {
                    return false;
                }
                self.next_allowed = Some(now + REPEAT_INTERVAL_NANOS);
                true
            },
        }
    }

    pub fn reset(&mut self)
        ensures
            final(self)@ == (KeyRepeatView { active_key: None, next_allowed: None }),
    {
        self.active_key = None;
        self.next_allowed = None;
    }
}

/// The first press of a navigation key that is not already held goes through
/// at once.
pub proof fn law_first_navigation_press_is_immediate(gate: KeyRepeatView, key: KeyEvent, now: u64)
    requires
        key.kind == KeyEventKind::Press,
        spec_is_navigation_key(key.code),
        gate.active_key != Some(key.code),
    ensures
        gate.accept(key, now).1,
{
}

/// While a held navigation key waits out its delay, further presses and
/// repeats of it are held back.
pub proof fn law_held_key_waits(gate: KeyRepeatView, key: KeyEvent, now: u64)
    requires
        key.kind != KeyEventKind::Release,
        spec_is_navigation_key(key.code),
        gate.active_key == Some(key.code),
        gate.next_allowed is Some,
        now < gate.next_allowed->0,
    ensures
        !gate.accept(key, now).1,
        gate.accept(key, now).0 == gate,
{
}

/// Releasing the held key lets its next press through at once.
pub proof fn law_release_allows_immediate_repress(
    gate: KeyRepeatView,
    code: KeyCode,
    release: KeyEvent,
    press: KeyEvent,
    now: u64,
)
    requires
        gate.active_key == Some(code),
        release.code == code,
        release.kind == KeyEventKind::Release,
        press.code == code,
        press.kind == KeyEventKind::Press,
        spec_is_navigation_key(code),
    ensures
        !gate.accept(release, now).1,
        gate.accept(release, now).0.accept(press, now).1,
{
}

} // verus!
