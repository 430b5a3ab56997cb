use crate::id_map::map_keys;
use crate::maths::{F32Bits, F32_ZERO_BITS};
use std::collections::HashMap;
use vstd::prelude::*;

verus! {

broadcast use {vstd::std_specs::hash::group_hash_axioms, vstd::seq_lib::group_seq_properties};

/// The code of a physical keyboard key (the platform key codes are numbered by
/// the caller).
pub type KeyCode = u32;

/// The code of a mouse button (numbered by the caller).
pub type MouseButton = u32;

pub struct KeyboardKeyMapping {
    pub name: String,
    pub key_code: KeyCode,
}

pub struct MouseButtonMapping {
    pub name: String,
    pub mouse_button: MouseButton,
}

/// Whether a key is held, and whether it went down or up during the current frame.
#[derive(Clone, Copy, PartialEq, Eq, Structural, Debug)]
pub struct KeyboardKeyState {
    pub key_code: KeyCode,
    pub is_down: bool,
    pub down_this_frame: bool,
    pub up_this_frame: bool,
}

/// Whether a mouse button is held, and whether it went down or up during the current frame.
#[derive(Clone, Copy, PartialEq, Eq, Structural, Debug)]
pub struct MouseButtonState {
    pub mouse_button: MouseButton,
    pub is_down: bool,
    pub down_this_frame: bool,
    pub up_this_frame: bool,
}

/// The cursor position (as `f32` bits) and whether the cursor left the window.
#[derive(Clone, Copy, Debug)]
pub struct MousePositionState {
    pub position: (F32Bits, F32Bits),
    pub outside_window: bool,
}

impl KeyboardKeyState {
    /// A key that is up and has not changed this frame.
    pub open spec fn released(key_code: KeyCode) -> KeyboardKeyState {
        KeyboardKeyState { key_code, is_down: false, down_this_frame: false, up_this_frame: false }
    }

    /// The state after the key was reported down (`is_down`) or up.
    pub open spec fn after_event(self, is_down: bool) -> KeyboardKeyState {
        KeyboardKeyState {
            key_code: self.key_code,
            is_down,
            down_this_frame: if is_down {
                true
            } else {
                self.down_this_frame
            },
            up_this_frame: if is_down {
                self.up_this_frame
            } else {
                true
            },
        }
    }

    /// The state at the start of a new frame.
    pub open spec fn next_frame(self) -> KeyboardKeyState {
        KeyboardKeyState { down_this_frame: false, up_this_frame: false, ..self }
    }

    pub fn new(key_code: &KeyCode) -> (r: Self)
        ensures
            r == KeyboardKeyState::released(*key_code),
    {
        KeyboardKeyState {
            key_code: *key_code,
            is_down: false,
            down_this_frame: false,
            up_this_frame: false,
        }
    }
}

impl MouseButtonState {
    /// A button that is up and has not changed this frame.
    pub open spec fn released(mouse_button: MouseButton) -> MouseButtonState {
        MouseButtonState {
            mouse_button,
            is_down: false,
            down_this_frame: false,
            up_this_frame: false,
        }
    }

    /// The state after the button was reported down (`is_down`) or up.
    pub open spec fn after_event(self, is_down: bool) -> MouseButtonState {
        MouseButtonState {
            mouse_button: self.mouse_button,
            is_down,
            down_this_frame: if is_down {
                true
            } else {
                self.down_this_frame
            },
            up_this_frame: if is_down {
                self.up_this_frame
            } else {
                true
            },
        }
    }

    /// The state at the start of a new frame.
    pub open spec fn next_frame(self) -> MouseButtonState {
        MouseButtonState { down_this_frame: false, up_this_frame: false, ..self }
    }

    pub fn new(mouse_button: &MouseButton) -> (r: Self)
        ensures
            r == MouseButtonState::released(*mouse_button),
    {
        MouseButtonState {
            mouse_button: *mouse_button,
            is_down: false,
            down_this_frame: false,
            up_this_frame: false,
        }
    }
}

/// The tracked keys once the frame ended.
pub open spec fn keys_at_next_frame(keys: Map<KeyCode, KeyboardKeyState>) -> Map<KeyCode, KeyboardKeyState> {
    keys.map_values(|s: KeyboardKeyState| s.next_frame())
}

/// The tracked mouse buttons once the frame ended.
pub open spec fn buttons_at_next_frame(buttons: Map<MouseButton, MouseButtonState>) -> Map<
    MouseButton,
    MouseButtonState,
> {
    buttons.map_values(|s: MouseButtonState| s.next_frame())
}

/// A key event lasts for the rest of its frame and its edge is forgotten when
/// the frame ends: after the key went down (or up) the key is held (or not)
/// with that edge recorded; once the frame ends only whether it is held
/// remains; ending a frame twice is ending it once; and a key pressed and
/// released within one frame has both edges recorded and is up.
pub proof fn law_key_event_lifecycle(s: KeyboardKeyState, down: bool)
    ensures
        s.after_event(down).is_down == down,
        s.after_event(down).key_code == s.key_code,
        down ==> s.after_event(down).down_this_frame,
        !down ==> s.after_event(down).up_this_frame,
        s.after_event(down).next_frame() == (KeyboardKeyState {
            key_code: s.key_code,
            is_down: down,
            down_this_frame: false,
            up_this_frame: false,
        }),
        s.next_frame().next_frame() == s.next_frame(),
        s.after_event(true).after_event(false).down_this_frame,
        s.after_event(true).after_event(false).up_this_frame,
        !s.after_event(true).after_event(false).is_down,
{
}

/// An event touches only its own edge: a press leaves whether the key went up
/// this frame as it was (an auto-repeated press of a held key is no release),
/// and a release leaves whether it went down this frame as it was. The same
/// holds for mouse buttons.
pub proof fn law_event_touches_only_its_edge(k: KeyboardKeyState, b: MouseButtonState)
    ensures
        k.after_event(true).up_this_frame == k.up_this_frame,
        k.after_event(false).down_this_frame == k.down_this_frame,
        k.after_event(true).down_this_frame,
        k.after_event(false).up_this_frame,
        b.after_event(true).up_this_frame == b.up_this_frame,
        b.after_event(false).down_this_frame == b.down_this_frame,
        b.after_event(true).down_this_frame,
        b.after_event(false).up_this_frame,
        k.is_down ==> k.after_event(true).after_event(true) == k.after_event(true),
{
}

/// The same life of an event for a mouse button.
pub proof fn law_button_event_lifecycle(s: MouseButtonState, down: bool)
    ensures
        s.after_event(down).is_down == down,
        s.after_event(down).mouse_button == s.mouse_button,
        down ==> s.after_event(down).down_this_frame,
        !down ==> s.after_event(down).up_this_frame,
        s.after_event(down).next_frame() == (MouseButtonState {
            mouse_button: s.mouse_button,
            is_down: down,
            down_this_frame: false,
            up_this_frame: false,
        }),
        s.next_frame().next_frame() == s.next_frame(),
        s.after_event(true).after_event(false).down_this_frame,
        s.after_event(true).after_event(false).up_this_frame,
        !s.after_event(true).after_event(false).is_down,
{
}

/// Ending a frame keeps the tracked keys and whether each is held, and
/// clears every edge.
pub proof fn law_frame_end_keeps_held_keys(keys: Map<KeyCode, KeyboardKeyState>)
    ensures
        keys_at_next_frame(keys).dom() == keys.dom(),
        forall|k: KeyCode|
            #![trigger keys_at_next_frame(keys)[k]]
            keys.contains_key(k) ==> {
                let after = keys_at_next_frame(keys)[k];
                &&& after.is_down == keys[k].is_down
                &&& after.key_code == keys[k].key_code
                &&& !after.down_this_frame
                &&& !after.up_this_frame
            },
{
    assert(keys_at_next_frame(keys).dom() =~= keys.dom());
}

/// The keys and buttons a game wants tracked.
pub struct InputMap {
    pub keyboard_key_mappings: Vec<KeyboardKeyMapping>,
    pub mouse_button_mappings: Vec<MouseButtonMapping>,
}

impl InputMap {
    pub open spec fn key_codes(&self) -> Seq<KeyCode> {
        self.keyboard_key_mappings@.map_values(|m: KeyboardKeyMapping| m.key_code)
    }

    pub open spec fn mouse_buttons(&self) -> Seq<MouseButton> {
        self.mouse_button_mappings@.map_values(|m: MouseButtonMapping| m.mouse_button)
    }
}

/// Keyboard keys: each code of `codes` released.
pub open spec fn released_keys(codes: Seq<KeyCode>) -> Map<KeyCode, KeyboardKeyState> {
    Map::new(|k: KeyCode| codes.contains(k), |k: KeyCode| KeyboardKeyState::released(k))
}

/// Mouse buttons: each code of `codes` released.
pub open spec fn released_buttons(codes: Seq<MouseButton>) -> Map<MouseButton, MouseButtonState> {
    Map::new(|b: MouseButton| codes.contains(b), |b: MouseButton| MouseButtonState::released(b))
}

/// The state of the tracked keys and buttons and of the cursor.
pub struct InputManager {
    keyboard_keys_state: HashMap<KeyCode, KeyboardKeyState>,
    mouse_buttons_state: HashMap<MouseButton, MouseButtonState>,
    mouse_position_state: MousePositionState,
}

impl InputManager {
    /// The tracked keys and their states.
    pub closed spec fn keys(&self) -> Map<KeyCode, KeyboardKeyState> {
        self.keyboard_keys_state@
    }

    /// The tracked mouse buttons and their states.
    pub closed spec fn buttons(&self) -> Map<MouseButton, MouseButtonState> {
        self.mouse_buttons_state@
    }

    pub closed spec fn cursor(&self) -> MousePositionState {
        self.mouse_position_state
    }

    /// Nothing tracked; the cursor at (0, 0) inside the window.
    pub fn new() -> (r: InputManager)
        ensures
            r.keys() == Map::<KeyCode, KeyboardKeyState>::empty(),
            r.buttons() == Map::<MouseButton, MouseButtonState>::empty(),
            r.cursor() == (MousePositionState {
                position: (F32_ZERO_BITS, F32_ZERO_BITS),
                outside_window: false,
            }),
    {
        InputManager {
            keyboard_keys_state: HashMap::new(),
            mouse_buttons_state: HashMap::new(),
            mouse_position_state: MousePositionState {
                position: (F32_ZERO_BITS, F32_ZERO_BITS),
                outside_window: false,
            },
        }
    }

    /// The state of `key`, if it is tracked.
    pub fn get_keyboard_key_state(&self, key: KeyCode) -> (r: Option<&KeyboardKeyState>)
        ensures
            r is Some <==> self.keys().contains_key(key),
            r matches Some(s) ==> *s == self.keys()[key],
    {
        self.keyboard_keys_state.get(&key)
    }

    /// The state of `mouse_button`, if it is tracked.
    pub fn get_mouse_button_state(&self, mouse_button: MouseButton) -> (r: Option<
        &MouseButtonState,
    >)
        ensures
            r is Some <==> self.buttons().contains_key(mouse_button),
            r matches Some(s) ==> *s == self.buttons()[mouse_button],
    {
        self.mouse_buttons_state.get(&mouse_button)
    }

    pub fn get_mouse_position_state(&self) -> (r: &MousePositionState)
        ensures
            *r == self.cursor(),
    {
        &self.mouse_position_state
    }

    /// Tracks the keys and buttons of `input_map`, all released. The keys
    /// tracked before are forgotten; the buttons tracked before stay tracked
    /// (a button of the map is reset to released).
    pub fn load_input_map(&mut self, input_map: &InputMap)
        ensures
            final(self).keys() == released_keys(input_map.key_codes()),
            final(self).buttons() == old(self).buttons().union_prefer_right(
                released_buttons(input_map.mouse_buttons()),
            ),
            final(self).cursor() == old(self).cursor(),
    {
        self.keyboard_keys_state.clear();
        let mut i: usize = 0;
        while i < input_map.keyboard_key_mappings.len()
            invariant
                i <= input_map.keyboard_key_mappings@.len(),
                self.keyboard_keys_state@ == released_keys(input_map.key_codes().take(i as int)),
                self.mouse_buttons_state@ == old(self).buttons(),
                self.mouse_position_state == old(self).cursor(),
            decreases input_map.keyboard_key_mappings@.len() - i,
        {
            let key_code = input_map.keyboard_key_mappings[i].key_code;
            self.keyboard_keys_state.insert(key_code, KeyboardKeyState::new(&key_code));
            proof {
                let codes = input_map.key_codes();
                assert(codes[i as int] == key_code);
                assert(codes.take(i + 1) =~= codes.take(i as int).push(key_code));
                assert(self.keyboard_keys_state@ =~= released_keys(codes.take(i + 1)));
            }
            i = i + 1;
        }
        proof {
            assert(input_map.key_codes().take(i as int) =~= input_map.key_codes());
        }
        let mut j: usize = 0;
        while j < input_map.mouse_button_mappings.len()
            invariant
                j <= input_map.mouse_button_mappings@.len(),
                self.keyboard_keys_state@ == released_keys(input_map.key_codes()),
                self.mouse_buttons_state@ == old(self).buttons().union_prefer_right(
                    released_buttons(input_map.mouse_buttons().take(j as int)),
                ),
                self.mouse_position_state == old(self).cursor(),
            decreases input_map.mouse_button_mappings@.len() - j,
        {
            let mouse_button = input_map.mouse_button_mappings[j].mouse_button;
            self.mouse_buttons_state.insert(mouse_button, MouseButtonState::new(&mouse_button));
            proof {
                let codes = input_map.mouse_buttons();
                assert(codes[j as int] == mouse_button);
                assert(codes.take(j + 1) =~= codes.take(j as int).push(mouse_button));
                assert(self.mouse_buttons_state@ =~= old(self).buttons().union_prefer_right(
                    released_buttons(codes.take(j + 1)),
                ));
            }
            j = j + 1;
        }
        proof {
            assert(input_map.mouse_buttons().take(j as int) =~= input_map.mouse_buttons());
        }
    }

    /// Records that `key_code` went down (`is_down`) or up; an untracked key is ignored.
    pub fn update_keyboard_key_state(&mut self, key_code: &KeyCode, is_down: bool)
        ensures
            final(self).keys() == (if old(self).keys().contains_key(*key_code) {
                old(self).keys().insert(
                    *key_code,
                    old(self).keys()[*key_code].after_event(is_down),
                )
            } else {
                old(self).keys()
            }),
            final(self).buttons() == old(self).buttons(),
            final(self).cursor() == old(self).cursor(),
    {
        match self.keyboard_keys_state.get(key_code) {
            None => {},
            Some(found) => {
                let mut state = *found;
                state.is_down = is_down;
                if is_down {
                    state.down_this_frame = true;
                } else {
                    state.up_this_frame = true;
                }
                self.keyboard_keys_state.insert(*key_code, state);
            },
        }
    }

    /// Records that `mouse_button` went down (`is_down`) or up; an untracked button is ignored.
    pub fn update_mouse_button_state(&mut self, mouse_button: MouseButton, is_down: bool)
        ensures
            final(self).buttons() == (if old(self).buttons().contains_key(mouse_button) {
                old(self).buttons().insert(
                    mouse_button,
                    old(self).buttons()[mouse_button].after_event(is_down),
                )
            } else {
                old(self).buttons()
            }),
            final(self).keys() == old(self).keys(),
            final(self).cursor() == old(self).cursor(),
    {
        match self.mouse_buttons_state.get(&mouse_button) {
            None => {},
            Some(found) => {
                let mut state = *found;
                state.is_down = is_down;
                if is_down {
                    state.down_this_frame = true;
                } else {
                    state.up_this_frame = true;
                }
                self.mouse_buttons_state.insert(mouse_button, state);
            },
        }
    }

    pub fn update_mouse_position(&mut self, position: (F32Bits, F32Bits))
        ensures
            final(self).cursor() == (MousePositionState { position, ..old(self).cursor() }),
            final(self).keys() == old(self).keys(),
            final(self).buttons() == old(self).buttons(),
    {
        self.mouse_position_state.position = position;
    }

    pub fn update_mouse_outside_window(&mut self, outside_window: bool)
        ensures
            final(self).cursor() == (MousePositionState {
                outside_window,
                ..old(self).cursor()
            }),
            final(self).keys() == old(self).keys(),
            final(self).buttons() == old(self).buttons(),
    {
        self.mouse_position_state.outside_window = outside_window;
    }

    /// Starts a new frame: every tracked key and button keeps whether it is
    /// held and forgets whether it went down or up.
    pub fn reset_frame_states(&mut self)
        ensures
            final(self).keys() == keys_at_next_frame(old(self).keys()),
            final(self).buttons() == buttons_at_next_frame(old(self).buttons()),
            final(self).cursor() == old(self).cursor(),
    {
        let keys = map_keys(&self.keyboard_keys_state);
        let mut i: usize = 0;
        while i < keys.len()
            invariant
                i <= keys@.len(),
                keys@.to_set() == old(self).keys().dom(),
                self.keyboard_keys_state@.dom() == old(self).keys().dom(),
                forall|k: KeyCode|
                    #![trigger self.keyboard_keys_state@[k]]
                    old(self).keys().contains_key(k) ==> self.keyboard_keys_state@[k] == (if keys@.take(
                        i as int,
                    ).contains(k) {
                        old(self).keys()[k].next_frame()
                    } else {
                        old(self).keys()[k]
                    }),
                self.mouse_buttons_state@ == old(self).buttons(),
                self.mouse_position_state == old(self).cursor(),
            decreases keys@.len() - i,
        {
            let k = keys[i];
            proof {
                assert(keys@.to_set().contains(k)) by {
                    assert(keys@[i as int] == k);
                }
                assert(keys@.take(i + 1) =~= keys@.take(i as int).push(k));
            }
            let state = *self.keyboard_keys_state.get(&k).unwrap();
            self.keyboard_keys_state.insert(
                k,
                KeyboardKeyState { down_this_frame: false, up_this_frame: false, ..state },
            );
            i = i + 1;
        }
        proof {
            assert(keys@.take(i as int) =~= keys@);
            assert forall|k: KeyCode| old(self).keys().contains_key(k) implies keys@.contains(k) by {
                assert(keys@.to_set().contains(k));
            }
            assert(self.keyboard_keys_state@ =~= old(self).keys().map_values(
                |s: KeyboardKeyState| s.next_frame(),
            ));
        }
        let buttons = map_keys(&self.mouse_buttons_state);
        let mut j: usize = 0;
        while j < buttons.len()
            invariant
                j <= buttons@.len(),
                buttons@.to_set() == old(self).buttons().dom(),
                self.mouse_buttons_state@.dom() == old(self).buttons().dom(),
                forall|b: MouseButton|
                    #![trigger self.mouse_buttons_state@[b]]
                    old(self).buttons().contains_key(b) ==> self.mouse_buttons_state@[b] == (
                    if buttons@.take(j as int).contains(b) {
                        old(self).buttons()[b].next_frame()
                    } else {
                        old(self).buttons()[b]
                    }),
                self.keyboard_keys_state@ == old(self).keys().map_values(
                    |s: KeyboardKeyState| s.next_frame(),
                ),
                self.mouse_position_state == old(self).cursor(),
            decreases buttons@.len() - j,
        {
            let b = buttons[j];
            proof {
                assert(buttons@.to_set().contains(b)) by {
                    assert(buttons@[j as int] == b);
                }
                assert(buttons@.take(j + 1) =~= buttons@.take(j as int).push(b));
            }
            let state = *self.mouse_buttons_state.get(&b).unwrap();
            self.mouse_buttons_state.insert(
                b,
                MouseButtonState { down_this_frame: false, up_this_frame: false, ..state },
            );
            j = j + 1;
        }
        proof {
            assert(buttons@.take(j as int) =~= buttons@);
            assert forall|b: MouseButton| old(self).buttons().contains_key(b) implies buttons@.contains(b) by {
                assert(buttons@.to_set().contains(b));
            }
            assert(self.mouse_buttons_state@ =~= old(self).buttons().map_values(
                |s: MouseButtonState| s.next_frame(),
            ));
        }
    }
}

} // verus!
