//! The input snapshot: pressed keys and modifier flags, updated by key and
//! modifier events between frames and read by behaviour callbacks.
use std::collections::HashSet;
use vstd::prelude::*;

verus! {

broadcast use vstd::std_specs::hash::group_hash_axioms;

/// Which modifier keys are held down.
#[derive(Clone, Copy, Debug, PartialEq, Eq, Structural)]
pub struct Modifiers {
    pub shift: bool,
    pub ctrl: bool,
    pub alt: bool,
    pub logo: bool,
}

/// The flags with no modifier held.
pub open spec fn no_modifiers() -> Modifiers {
    Modifiers { shift: false, ctrl: false, alt: false, logo: false }
}

impl Modifiers {
    /// No modifier held.
    pub fn none() -> (r: Modifiers)
        ensures
            r == no_modifiers(),
    {
        Modifiers { shift: false, ctrl: false, alt: false, logo: false }
    }
}

/// One change to the input snapshot.
#[derive(Clone, Copy, Debug, PartialEq, Eq, Structural)]
pub enum InputEvent {
    KeyPressed(u32),
    KeyReleased(u32),
    ModifiersChanged(Modifiers),
}

/// The keys currently held, by scancode, and the modifier flags.
pub struct InputManager {
    pub pressed_scancodes: HashSet<u32>,
    pub modifiers: Modifiers,
}

/// The pressed set after one event.
pub open spec fn pressed_after(pressed: Set<u32>, ev: InputEvent) -> Set<u32> {
    match ev {
        InputEvent::KeyPressed(code) => pressed.insert(code),
        InputEvent::KeyReleased(code) => pressed.remove(code),
        InputEvent::ModifiersChanged(_) => pressed,
    }
}

/// The modifier flags after one event.
pub open spec fn modifiers_after(modifiers: Modifiers, ev: InputEvent) -> Modifiers {
    match ev {
        InputEvent::ModifiersChanged(m) => m,
        _ => modifiers,
    }
}

impl InputManager {
    /// An empty snapshot: no key pressed, no modifier held.
    pub fn new() -> (r: InputManager)
        ensures
            r.pressed_scancodes@ == Set::<u32>::empty(),
            r.modifiers == no_modifiers(),
    {
        InputManager { pressed_scancodes: HashSet::new(), modifiers: Modifiers::none() }
    }

    /// Applies one key or modifier event: a press adds the scancode, a
    /// release removes it, a modifier change replaces the flags.
    pub fn apply(&mut self, ev: InputEvent)
        ensures
            final(self).pressed_scancodes@ == pressed_after(old(self).pressed_scancodes@, ev),
            final(self).modifiers == modifiers_after(old(self).modifiers, ev),
    {
        match ev {
            InputEvent::KeyPressed(code) => {
                self.pressed_scancodes.insert(code);
            },
            InputEvent::KeyReleased(code) => {
                self.pressed_scancodes.remove(&code);
            },
            InputEvent::ModifiersChanged(m) => {
                self.modifiers = m;
            },
        }
    }

    /// Whether the key with this scancode is held.
    pub fn is_pressed(&self, code: u32) -> (r: bool)
        ensures
            r == self.pressed_scancodes@.contains(code),
    {
        self.pressed_scancodes.contains(&code)
    }
}

} // verus!
