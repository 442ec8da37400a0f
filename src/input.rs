use vstd::prelude::*;

verus! {

/// A key, by its virtual key code.
#[derive(Clone, Copy, Debug, PartialEq, Eq, Hash, Structural)]
pub struct KeyCode(pub u32);

/// Whether a key went down or up.
#[derive(Clone, Copy, Debug, PartialEq, Eq, Hash, Structural)]
pub enum ElementState {
    Pressed,
    Released,
}

/// A keyboard event, as the input handler hands it on.
#[derive(Clone, Copy, Debug, PartialEq, Eq, Hash, Structural)]
pub enum InputEvent {
    KeyPressed(KeyCode),
    KeyReleased(KeyCode),
}

/// The event for a keyboard input: none where the key has no virtual key code.
pub fn keyboard_input(virtual_keycode: Option<KeyCode>, state: ElementState) -> (r: Option<InputEvent>)
    ensures
        r == (match virtual_keycode {
            None => None,
            Some(k) => Some(
                match state {
                    ElementState::Pressed => InputEvent::KeyPressed(k),
                    ElementState::Released => InputEvent::KeyReleased(k),
                },
            ),
        }),
{
    match virtual_keycode {
        Some(key_code) => {
            let event = match state {
                ElementState::Pressed => InputEvent::KeyPressed(key_code),
                ElementState::Released => InputEvent::KeyReleased(key_code),
            };
            Some(event)
        },
        None => None,
    }
}

} // verus!
