//! The platform event layer's bookkeeping: an explicit input context in
//! place of a global singleton.
//!
//! The windowing collaborator owns one `InputState` and calls these methods
//! from its key and mouse-button callbacks; what each event does to the
//! state is stated exactly.  The key codes are the platform layer's.

use vstd::prelude::*;

verus! {

/// The platform's action code for a released key or button.
pub const ACTION_RELEASE: i32 = 0;

/// The platform's action code for a pressed key or button.
pub const ACTION_PRESS: i32 = 1;

/// The platform's action code for a key repeat.
pub const ACTION_REPEAT: i32 = 2;

/// The platform's code for the left control key.
pub const KEY_LEFT_CONTROL: usize = 341;

/// The platform's code for the left shift key.
pub const KEY_LEFT_SHIFT: usize = 340;

/// The platform's code for the left alt key.
pub const KEY_LEFT_ALT: usize = 342;

/// The platform's code for the right control key.
pub const KEY_RIGHT_CONTROL: usize = 345;

/// The platform's code for the right shift key.
pub const KEY_RIGHT_SHIFT: usize = 344;

/// The platform's code for the right alt key.
pub const KEY_RIGHT_ALT: usize = 346;

/// How many key codes the table tracks.
pub const N_KEYS: usize = 512;

/// How many mouse buttons the table tracks.
pub const N_MOUSE_BUTTONS: usize = 5;

/// Which keys and mouse buttons are currently down, with the three modifier
/// flags kept in step with the key table.
pub struct InputState {
    pub keys_down: Vec<bool>,
    pub mouse_down: Vec<bool>,
    pub key_ctrl: bool,
    pub key_shift: bool,
    pub key_alt: bool,
}

/// A modifier flag holds exactly when one of its two keys is down.
pub open spec fn spec_modifier(keys: Seq<bool>, left: usize, right: usize) -> bool {
    keys[left as int] || keys[right as int]
}

impl InputState {
    /// The tables have their fixed sizes and the modifier flags agree with
    /// the key table.
    pub open spec fn wf(self) -> bool {
        &&& self.keys_down@.len() == N_KEYS
        &&& self.mouse_down@.len() == N_MOUSE_BUTTONS
        &&& self.key_ctrl == spec_modifier(self.keys_down@, KEY_LEFT_CONTROL, KEY_RIGHT_CONTROL)
        &&& self.key_shift == spec_modifier(self.keys_down@, KEY_LEFT_SHIFT, KEY_RIGHT_SHIFT)
        &&& self.key_alt == spec_modifier(self.keys_down@, KEY_LEFT_ALT, KEY_RIGHT_ALT)
    }

    /// A fresh context: nothing down.
    pub fn new() -> (r: InputState)
        ensures
            r.wf(),
            forall|i: int| 0 <= i < N_KEYS ==> !r.keys_down@[i],
            forall|i: int| 0 <= i < N_MOUSE_BUTTONS ==> !r.mouse_down@[i],
    {
        let mut keys_down: Vec<bool> = Vec::new();
        let mut i: usize = 0;
        while i < N_KEYS
            invariant
                i <= N_KEYS,
                keys_down@.len() == i,
                forall|j: int| 0 <= j < i ==> !keys_down@[j],
            decreases N_KEYS - i,
        {
            keys_down.push(false);
            i = i + 1;
        }
        let mut mouse_down: Vec<bool> = Vec::new();
        let mut i: usize = 0;
        while i < N_MOUSE_BUTTONS
            invariant
                i <= N_MOUSE_BUTTONS,
                mouse_down@.len() == i,
                forall|j: int| 0 <= j < i ==> !mouse_down@[j],
            decreases N_MOUSE_BUTTONS - i,
        {
            mouse_down.push(false);
            i = i + 1;
        }
        InputState { keys_down, mouse_down, key_ctrl: false, key_shift: false, key_alt: false }
    }

    /// Applies one key event: an unknown key or action changes nothing and
    /// is reported unhandled; a press or release sets the key's flag and
    /// recomputes the modifiers.
    pub fn key_event(&mut self, key: usize, action: i32) -> (handled: bool)
        requires
            old(self).wf(),
        ensures
            final(self).wf(),
            handled == (key < N_KEYS && (action == ACTION_PRESS || action == ACTION_RELEASE
                || action == ACTION_REPEAT)),
            final(self).mouse_down == old(self).mouse_down,
            final(self).keys_down@ == if key < N_KEYS && action == ACTION_PRESS {
                old(self).keys_down@.update(key as int, true)
            } else if key < N_KEYS && action == ACTION_RELEASE {
                old(self).keys_down@.update(key as int, false)
            } else {
                old(self).keys_down@
            },
    {
        if key >= N_KEYS {
            return false;
        }
        if action == ACTION_PRESS {
            self.keys_down[key] = true;
        } else if action == ACTION_RELEASE {
            self.keys_down[key] = false;
        } else if action != ACTION_REPEAT {
            return false;
        }
        self.key_ctrl = self.keys_down[KEY_LEFT_CONTROL] || self.keys_down[KEY_RIGHT_CONTROL];
        self.key_shift = self.keys_down[KEY_LEFT_SHIFT] || self.keys_down[KEY_RIGHT_SHIFT];
        self.key_alt = self.keys_down[KEY_LEFT_ALT] || self.keys_down[KEY_RIGHT_ALT];
        true
    }

    /// Applies one mouse-button event: a press or release sets the
    /// button's flag, anything else changes nothing and is reported
    /// unhandled.
    pub fn mouse_button_event(&mut self, button: usize, action: i32) -> (handled: bool)
        requires
            old(self).wf(),
            button < N_MOUSE_BUTTONS,
        ensures
            final(self).wf(),
            handled == (action == ACTION_PRESS || action == ACTION_RELEASE),
            final(self).keys_down == old(self).keys_down,
            final(self).key_ctrl == old(self).key_ctrl,
            final(self).key_shift == old(self).key_shift,
            final(self).key_alt == old(self).key_alt,
            final(self).mouse_down@ == if action == ACTION_PRESS {
                old(self).mouse_down@.update(button as int, true)
            } else if action == ACTION_RELEASE {
                old(self).mouse_down@.update(button as int, false)
            } else {
                old(self).mouse_down@
            },
    {
        if action == ACTION_PRESS {
            self.mouse_down[button] = true;
            true
        } else if action == ACTION_RELEASE {
            self.mouse_down[button] = false;
            true
        } else {
            false
        }
    }
}

} // verus!
