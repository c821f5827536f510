//! From what the mouse and the keyboard did to what the user meant.
//!
//! The program hands over each window event as a `RawInput`; the handler
//! remembers the mouse and answers with an `InputAction`.
//!
//! Positions and movements are whole pixels. A wheel movement is counted in
//! hundredths of a notch, which is also the number of pixels that it scrolls
//! the grid.

use vstd::prelude::*;

verus! {

/// What the user asks for.
#[derive(Clone, Copy, Debug, PartialEq, Eq, Structural)]
pub enum InputAction {
    /// Nothing is asked for.
    Idle,
    NextImage,
    PrevImage,
    /// The wheel moved by so many hundredths of a notch.
    Zoom(i32),
    /// The mouse was dragged by so many pixels to the right and down.
    Pan(i32, i32),
    /// The left button was released at this point of the window.
    Click(i32, i32),
    Back,
    ActualSize,
    SelectUp,
    SelectDown,
    SelectLeft,
    SelectRight,
    OpenSelected,
    PageUp,
    PageDown,
}

/// The keys that mean something to the browser.
#[derive(Clone, Copy, Debug, PartialEq, Eq, Structural)]
pub enum KeyInput {
    ArrowRight,
    ArrowLeft,
    ArrowUp,
    ArrowDown,
    MediaTrackNext,
    MediaTrackPrevious,
    Backspace,
    Escape,
    Enter,
    PageUp,
    PageDown,
    /// The key that types the digit one.
    DigitOne,
    /// Any other key.
    Other,
}

/// A window event, as far as it concerns the mouse or the keyboard.
#[derive(Clone, Copy, Debug, PartialEq, Eq, Structural)]
pub enum RawInput {
    /// A key went down.
    KeyPressed(KeyInput),
    /// A key came up.
    KeyReleased(KeyInput),
    /// The wheel moved by so many hundredths of a notch.
    MouseWheel(i32),
    /// The mouse is now at this point of the window.
    CursorMoved(i32, i32),
    /// The left button went down (`true`) or came up.
    LeftButton(bool),
    /// Anything else.
    Other,
}

/// What is remembered of the mouse between events.
#[derive(Clone, Copy, Debug, PartialEq, Eq, Structural)]
pub struct InputHandler {
    /// Whether the left button is down.
    pub mouse_down: bool,
    /// Where the mouse was last seen.
    pub last_mouse_x: i32,
    pub last_mouse_y: i32,
}

/// What a key asks for when it goes down.
pub open spec fn spec_key_action(key: KeyInput) -> InputAction {
    match key {
        KeyInput::ArrowRight => InputAction::SelectRight,
        KeyInput::ArrowLeft => InputAction::SelectLeft,
        KeyInput::ArrowUp => InputAction::SelectUp,
        KeyInput::ArrowDown => InputAction::SelectDown,
        KeyInput::MediaTrackNext => InputAction::NextImage,
        KeyInput::MediaTrackPrevious => InputAction::PrevImage,
        KeyInput::Backspace => InputAction::Back,
        KeyInput::Escape => InputAction::Back,
        KeyInput::Enter => InputAction::OpenSelected,
        KeyInput::PageUp => InputAction::PageUp,
        KeyInput::PageDown => InputAction::PageDown,
        KeyInput::DigitOne => InputAction::ActualSize,
        KeyInput::Other => InputAction::Idle,
    }
}

/// The distance from `from` to `to`, kept within the range of `i32`.
pub open spec fn spec_distance(from: i32, to: i32) -> i32 {
    if to - from > i32::MAX {
        i32::MAX
    } else if to - from < i32::MIN {
        i32::MIN
    } else {
        (to - from) as i32
    }
}

/// The handler after an event.
pub open spec fn spec_handler_after(handler: InputHandler, event: RawInput) -> InputHandler {
    match event {
        RawInput::CursorMoved(x, y) => InputHandler {
            last_mouse_x: x,
            last_mouse_y: y,
            ..handler
        },
        RawInput::LeftButton(pressed) => InputHandler { mouse_down: pressed, ..handler },
        _ => handler,
    }
}

/// What an event asks for: a key that goes down asks for its action; the
/// wheel zooms; the mouse pans while the left button is down; the left
/// button clicks when it comes up, where the mouse was last seen.
pub open spec fn spec_input_action(handler: InputHandler, event: RawInput) -> InputAction {
    match event {
        RawInput::KeyPressed(key) => spec_key_action(key),
        RawInput::KeyReleased(_) => InputAction::Idle,
        RawInput::MouseWheel(amount) => InputAction::Zoom(amount),
        RawInput::CursorMoved(x, y) => if handler.mouse_down {
            InputAction::Pan(
                spec_distance(handler.last_mouse_x, x),
                spec_distance(handler.last_mouse_y, y),
            )
        } else {
            InputAction::Idle
        },
        RawInput::LeftButton(pressed) => if pressed {
            InputAction::Idle
        } else {
            InputAction::Click(handler.last_mouse_x, handler.last_mouse_y)
        },
        RawInput::Other => InputAction::Idle,
    }
}

/// The distance from `from` to `to`, kept within the range of `i32`.
fn distance(from: i32, to: i32) -> (moved: i32)
    ensures
        moved == spec_distance(from, to),
{
    let wide: i64 = to as i64 - from as i64;
    if wide > i32::MAX as i64 {
        i32::MAX
    } else if wide < i32::MIN as i64 {
        i32::MIN
    } else {
        wide as i32
    }
}

impl InputHandler {
    /// A handler that has seen nothing yet: button up, mouse at the origin.
    pub fn new() -> (handler: Self)
        ensures
            handler == (InputHandler { mouse_down: false, last_mouse_x: 0, last_mouse_y: 0 }),
    {
        InputHandler { mouse_down: false, last_mouse_x: 0, last_mouse_y: 0 }
    }

    /// Takes an event and says what it asks for.
    pub fn handle_window_event(&mut self, event: &RawInput) -> (action: InputAction)
        ensures
            action == spec_input_action(*old(self), *event),
            *final(self) == spec_handler_after(*old(self), *event),
    {
        match event {
            RawInput::KeyPressed(key) => self.handle_keyboard_input(*key),
            RawInput::KeyReleased(_) => InputAction::Idle,
            RawInput::MouseWheel(amount) => InputAction::Zoom(*amount),
            RawInput::CursorMoved(x, y) => {
                let dx: i32 = distance(self.last_mouse_x, *x);
                let dy: i32 = distance(self.last_mouse_y, *y);
                self.last_mouse_x = *x;
                self.last_mouse_y = *y;
                if self.mouse_down {
                    InputAction::Pan(dx, dy)
                } else {
                    InputAction::Idle
                }
            },
            RawInput::LeftButton(pressed) => {
                self.mouse_down = *pressed;
                if *pressed {
                    InputAction::Idle
                } else {
                    InputAction::Click(self.last_mouse_x, self.last_mouse_y)
                }
            },
            RawInput::Other => InputAction::Idle,
        }
    }

    /// What a key asks for when it goes down.
    pub fn handle_keyboard_input(&self, key: KeyInput) -> (action: InputAction)
        ensures
            action == spec_key_action(key),
    {
        match key {
            KeyInput::ArrowRight => InputAction::SelectRight,
            KeyInput::ArrowLeft => InputAction::SelectLeft,
            KeyInput::ArrowUp => InputAction::SelectUp,
            KeyInput::ArrowDown => InputAction::SelectDown,
            KeyInput::MediaTrackNext => InputAction::NextImage,
            KeyInput::MediaTrackPrevious => InputAction::PrevImage,
            KeyInput::Backspace => InputAction::Back,
            KeyInput::Escape => InputAction::Back,
            KeyInput::Enter => InputAction::OpenSelected,
            KeyInput::PageUp => InputAction::PageUp,
            KeyInput::PageDown => InputAction::PageDown,
            KeyInput::DigitOne => InputAction::ActualSize,
            KeyInput::Other => InputAction::Idle,
        }
    }
}

} // verus!
