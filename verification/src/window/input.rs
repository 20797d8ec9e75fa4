use vstd::prelude::*;

use crate::window::keys::{press_states, PressMap, PressState, PressType};

verus! {

/// What the window has heard of the keyboard and the mouse.
#[derive(Debug)]
pub struct Input {
    keys_changed: bool,
    keys: PressMap,
    pressed_buttons: PressMap,
    mouse_position_changed: bool,
    mouse_motion_changed: bool,
    mouse_scroll_changed: bool,
}

/// What an `Input` holds: the states of the keys and of the mouse buttons by
/// their codes, and what has changed since the last frame.
pub struct InputView {
    pub keys: Map<u32, PressType>,
    pub buttons: Map<u32, PressType>,
    pub keys_changed: bool,
    pub mouse_position_changed: bool,
    pub mouse_motion_changed: bool,
    pub mouse_scroll_changed: bool,
}

/// What `states` holds for `code`; of a code that is not in it nothing is
/// known.
pub open spec fn known(states: Map<u32, PressType>, code: u32) -> PressType {
    if states.dom().contains(code) {
        states[code]
    } else {
        PressType::Unknown
    }
}

/// What `states` holds for `code`, if anything.
pub open spec fn lookup(states: Map<u32, PressType>, code: u32) -> Option<PressType> {
    if states.dom().contains(code) {
        Some(states[code])
    } else {
        None
    }
}

impl InputView {
    /// Nothing has changed.
    pub open spec fn quiet(self) -> InputView {
        InputView {
            keys_changed: false,
            mouse_position_changed: false,
            mouse_motion_changed: false,
            mouse_scroll_changed: false,
            ..self
        }
    }

    /// The input after a key was reported down (`pressed`) or up. A key that
    /// the keyboard could not name (`None`) changes nothing.
    pub open spec fn key(self, key: Option<u32>, pressed: bool) -> InputView {
        match key {
            Some(code) => InputView {
                keys: self.keys.insert(code, PressType::after(lookup(self.keys, code), pressed)),
                keys_changed: true,
                ..self
            },
            None => self,
        }
    }

    /// The input after a mouse button was reported down (`pressed`) or up.
    pub open spec fn button(self, button: u32, pressed: bool) -> InputView {
        InputView {
            buttons: self.buttons.insert(
                button,
                if pressed {
                    PressType::JustPressed
                } else {
                    PressType::JustReleased
                },
            ),
            ..self
        }
    }
}

impl View for Input {
    type V = InputView;

    closed spec fn view(&self) -> InputView {
        InputView {
            keys: press_states(self.keys),
            buttons: press_states(self.pressed_buttons),
            keys_changed: self.keys_changed,
            mouse_position_changed: self.mouse_position_changed,
            mouse_motion_changed: self.mouse_motion_changed,
            mouse_scroll_changed: self.mouse_scroll_changed,
        }
    }
}

/// Gives every key or button of `map` its state at the end of a frame.
fn step_all(map: &mut PressMap, release: bool)
    ensures
        press_states(*final(map)) == press_states(*old(map)).map_values(|pt: PressType| pt.stepped(release)),
{
    let codes = map.codes();
    let ghost before = press_states(*map);
    let mut i: usize = 0;
    while i < codes.len()
        invariant
            i <= codes.len(),
            codes@.no_duplicates(),
            codes@.to_set() == before.dom(),
            press_states(*map).dom() == before.dom(),
            forall|j: int| 0 <= j < i ==> press_states(*map)[#[trigger] codes@[j]] == before[codes@[j]].stepped(release),
            forall|j: int| i <= j < codes.len() ==> press_states(*map)[#[trigger] codes@[j]] == before[codes@[j]],
        decreases codes.len() - i,
    {
        let code = codes[i];
        assert(codes@.to_set().contains(code));
        let ghost current = press_states(*map);
        match map.get(code) {
            Some(pt) => {
                map.insert(code, pt.step(release));
                assert(press_states(*map).dom() =~= before.dom());
                assert forall|j: int| 0 <= j < i + 1 implies press_states(*map)[#[trigger] codes@[j]]
                    == before[codes@[j]].stepped(release) by {
                    if j < i {
                        assert(codes@[j] != code);
                        assert(current[codes@[j]] == before[codes@[j]].stepped(release));
                    }
                }
                assert forall|j: int| i + 1 <= j < codes.len() implies press_states(*map)[#[trigger] codes@[j]]
                    == before[codes@[j]] by {
                    assert(codes@[j] != code);
                    assert(current[codes@[j]] == before[codes@[j]]);
                }
            },
            None => {},
        }
        i += 1;
    }
    proof {
        let after = press_states(*map);
        let stepped = before.map_values(|pt: PressType| pt.stepped(release));
        assert forall|code: u32| after.dom().contains(code) implies #[trigger] after[code] == stepped[code] by {
            assert(codes@.to_set().contains(code));
            let j = choose|j: int| 0 <= j < codes@.len() && codes@[j] == code;
            assert(after[codes@[j]] == before[codes@[j]].stepped(release));
        }
        assert(after =~= stepped);
    }
}

impl Input {
    /// What an input holds that has heard nothing yet.
    pub open spec fn new_view() -> InputView {
        InputView {
            keys: Map::empty(),
            buttons: Map::empty(),
            keys_changed: false,
            mouse_position_changed: false,
            mouse_motion_changed: false,
            mouse_scroll_changed: false,
        }
    }

    /// An input that has heard nothing yet.
    pub fn new() -> (input: Self)
        ensures
            input@ == Input::new_view(),
    {
        let keys = PressMap::new();
        let pressed_buttons = PressMap::new();
        assert(press_states(keys) =~= Map::empty());
        assert(press_states(pressed_buttons) =~= Map::empty());
        Input {
            keys_changed: false,
            keys,
            pressed_buttons,
            mouse_position_changed: false,
            mouse_motion_changed: false,
            mouse_scroll_changed: false,
        }
    }

    /// Takes note that a key went down (`state`) or up.
    pub fn process_key(&mut self, key: Option<u32>, state: bool)
        ensures
            final(self)@ == old(self)@.key(key, state),
    {
        let code = match key {
            Some(code) => code,
            None => {
                return ;
            },
        };
        let next = match self.keys.get(code) {
            Some(pt) => if state {
                if pt == PressType::Pressed || pt == PressType::JustPressed {
                    PressType::Pressed
                } else {
                    PressType::JustPressed
                }
            } else {
                if pt == PressType::Released || pt == PressType::JustReleased {
                    PressType::Released
                } else {
                    PressType::JustReleased
                }
            },
            None => if state {
                PressType::JustPressed
            } else {
                PressType::JustReleased
            },
        };
        self.keys.insert(code, next);
        self.keys_changed = true;
    }

    /// Takes note that a mouse button went down (`state`) or up.
    pub fn process_mouse_button(&mut self, button: u32, state: bool)
        ensures
            final(self)@ == old(self)@.button(button, state),
    {
        self.pressed_buttons.insert(
            button,
            if state {
                PressType::JustPressed
            } else {
                PressType::JustReleased
            },
        );
    }

    /// Takes note that the pointer is at a new place.
    pub fn set_mouse_position(&mut self)
        ensures
            final(self)@ == (InputView { mouse_position_changed: true, ..old(self)@ }),
    {
        self.mouse_position_changed = true;
    }

    /// Takes note that the wheel was turned.
    pub fn process_mouse_wheel(&mut self)
        ensures
            final(self)@ == (InputView { mouse_scroll_changed: true, ..old(self)@ }),
    {
        self.mouse_scroll_changed = true;
    }

    /// Takes note that the mouse was moved.
    pub fn process_mouse_motion(&mut self)
        ensures
            final(self)@ == (InputView { mouse_motion_changed: true, ..old(self)@ }),
    {
        self.mouse_motion_changed = true;
    }

    /// What is known of a mouse button.
    pub fn mouse_button(&self, button: u32) -> (state: PressState)
        ensures
            state.pt == known(self@.buttons, button),
    {
        match self.pressed_buttons.get(button) {
            Some(pt) => PressState { pt },
            None => PressState { pt: PressType::Unknown },
        }
    }

    /// What is known of a key.
    pub fn key(&self, key: u32) -> (state: PressState)
        ensures
            state.pt == known(self@.keys, key),
    {
        match self.keys.get(key) {
            Some(pt) => PressState { pt },
            None => PressState { pt: PressType::Unknown },
        }
    }

    pub fn mouse_button_pressed(&self, button: u32) -> (pressed: bool)
        ensures
            pressed == known(self@.buttons, button).is_down(),
    {
        match self.mouse_button(button).pt {
            PressType::Pressed | PressType::JustPressed => true,
            PressType::Released | PressType::JustReleased => false,
            PressType::Unknown => false,
        }
    }

    pub fn mouse_button_released(&self, button: u32) -> (released: bool)
        ensures
            released == known(self@.buttons, button).is_up(),
    {
        match self.mouse_button(button).pt {
            PressType::Pressed | PressType::JustPressed => false,
            PressType::Released | PressType::JustReleased => true,
            PressType::Unknown => true,
        }
    }

    pub fn mouse_button_just_pressed(&self, button: u32) -> (pressed: bool)
        ensures
            pressed == (known(self@.buttons, button) == PressType::JustPressed),
    {
        match self.mouse_button(button).pt {
            PressType::JustPressed => true,
            PressType::JustReleased => false,
            _ => false,
        }
    }

    pub fn mouse_button_just_released(&self, button: u32) -> (released: bool)
        ensures
            released == (known(self@.buttons, button) == PressType::JustReleased),
    {
        match self.mouse_button(button).pt {
            PressType::JustPressed => false,
            PressType::JustReleased => true,
            _ => false,
        }
    }

    pub fn key_pressed(&self, key: u32) -> (pressed: bool)
        ensures
            pressed == known(self@.keys, key).is_down(),
    {
        match self.key(key).pt {
            PressType::Pressed | PressType::JustPressed => true,
            PressType::Released | PressType::JustReleased => false,
            PressType::Unknown => false,
        }
    }

    pub fn key_released(&self, key: u32) -> (released: bool)
        ensures
            released == known(self@.keys, key).is_up(),
    {
        match self.key(key).pt {
            PressType::Pressed | PressType::JustPressed => false,
            PressType::Released | PressType::JustReleased => true,
            PressType::Unknown => true,
        }
    }

    pub fn key_just_pressed(&self, key: u32) -> (pressed: bool)
        ensures
            pressed == (known(self@.keys, key) == PressType::JustPressed),
    {
        match self.key(key).pt {
            PressType::JustPressed => true,
            PressType::JustReleased => false,
            _ => false,
        }
    }

    pub fn key_just_released(&self, key: u32) -> (released: bool)
        ensures
            released == (known(self@.keys, key) == PressType::JustReleased),
    {
        match self.key(key).pt {
            PressType::JustPressed => false,
            PressType::JustReleased => true,
            _ => false,
        }
    }

    pub fn mouse_position_changed(&self) -> (changed: bool)
        ensures
            changed == self@.mouse_position_changed,
    {
        self.mouse_position_changed
    }

    pub fn mouse_motion_changed(&self) -> (changed: bool)
        ensures
            changed == self@.mouse_motion_changed,
    {
        self.mouse_motion_changed
    }

    pub fn mouse_scroll_changed(&self) -> (changed: bool)
        ensures
            changed == self@.mouse_scroll_changed,
    {
        self.mouse_scroll_changed
    }

    pub fn keys_changed(&self) -> (changed: bool)
        ensures
            changed == self@.keys_changed,
    {
        self.keys_changed
    }

    /// The codes of the keys of which something is known, each once.
    pub fn keys(&self) -> (codes: Vec<u32>)
        ensures
            codes@.no_duplicates(),
            codes@.to_set() == self@.keys.dom(),
    {
        self.keys.codes()
    }

    /// Forgets what has changed, and takes every mouse button for released.
    pub fn consume_mouse(&mut self)
        ensures
            final(self)@ == (InputView {
                buttons: old(self)@.buttons.map_values(|pt: PressType| pt.stepped(true)),
                ..old(self)@.quiet()
            }),
    {
        self.reset_vals();
        step_all(&mut self.pressed_buttons, true);
    }

    /// Forgets what has changed, and takes every key for released.
    pub fn consume_keys(&mut self)
        ensures
            final(self)@ == (InputView {
                keys: old(self)@.keys.map_values(|pt: PressType| pt.stepped(true)),
                ..old(self)@.quiet()
            }),
    {
        self.reset_vals();
        step_all(&mut self.keys, true);
    }

    fn reset_vals(&mut self)
        ensures
            final(self)@ == old(self)@.quiet(),
    {
        self.mouse_position_changed = false;
        self.mouse_scroll_changed = false;
        self.mouse_motion_changed = false;
        self.keys_changed = false;
    }

    /// Ends a frame: forgets what has changed, and what a key or a button
    /// just did it has then done.
    pub fn reset(&mut self)
        ensures
            final(self)@ == (InputView {
                keys: old(self)@.keys.map_values(|pt: PressType| pt.stepped(false)),
                buttons: old(self)@.buttons.map_values(|pt: PressType| pt.stepped(false)),
                ..old(self)@.quiet()
            }),
    {
        self.reset_vals();
        step_all(&mut self.pressed_buttons, false);
        step_all(&mut self.keys, false);
    }
}

} // verus!
