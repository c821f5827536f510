use fastview::input_handler::{InputAction, InputHandler, KeyInput, RawInput};

#[test]
fn new_handler_has_seen_nothing() {
    let handler = InputHandler::new();
    assert_eq!(handler, InputHandler { mouse_down: false, last_mouse_x: 0, last_mouse_y: 0 });
}

#[test]
fn keys_ask_for_their_actions() {
    let mut handler = InputHandler::new();
    let expected = [
        (KeyInput::ArrowRight, InputAction::SelectRight),
        (KeyInput::ArrowLeft, InputAction::SelectLeft),
        (KeyInput::ArrowUp, InputAction::SelectUp),
        (KeyInput::ArrowDown, InputAction::SelectDown),
        (KeyInput::MediaTrackNext, InputAction::NextImage),
        (KeyInput::MediaTrackPrevious, InputAction::PrevImage),
        (KeyInput::Backspace, InputAction::Back),
        (KeyInput::Escape, InputAction::Back),
        (KeyInput::Enter, InputAction::OpenSelected),
        (KeyInput::PageUp, InputAction::PageUp),
        (KeyInput::PageDown, InputAction::PageDown),
        (KeyInput::DigitOne, InputAction::ActualSize),
        (KeyInput::Other, InputAction::Idle),
    ];
    for (key, action) in expected {
        assert_eq!(handler.handle_window_event(&RawInput::KeyPressed(key)), action);
        assert_eq!(handler.handle_keyboard_input(key), action);
        assert_eq!(handler.handle_window_event(&RawInput::KeyReleased(key)), InputAction::Idle);
    }
    assert_eq!(handler, InputHandler::new());
}

#[test]
fn wheel_zooms() {
    let mut handler = InputHandler::new();
    assert_eq!(handler.handle_window_event(&RawInput::MouseWheel(100)), InputAction::Zoom(100));
    assert_eq!(handler.handle_window_event(&RawInput::MouseWheel(-35)), InputAction::Zoom(-35));
    assert_eq!(handler, InputHandler::new());
}

#[test]
fn mouse_pans_only_while_the_button_is_down() {
    let mut handler = InputHandler::new();
    assert_eq!(handler.handle_window_event(&RawInput::CursorMoved(10, 20)), InputAction::Idle);
    assert_eq!(handler.handle_window_event(&RawInput::LeftButton(true)), InputAction::Idle);
    assert!(handler.mouse_down);
    assert_eq!(
        handler.handle_window_event(&RawInput::CursorMoved(13, 15)),
        InputAction::Pan(3, -5)
    );
    assert_eq!(
        handler.handle_window_event(&RawInput::CursorMoved(13, 15)),
        InputAction::Pan(0, 0)
    );
    assert_eq!((handler.last_mouse_x, handler.last_mouse_y), (13, 15));
}

#[test]
fn releasing_the_button_clicks_where_the_mouse_is() {
    let mut handler = InputHandler::new();
    handler.handle_window_event(&RawInput::CursorMoved(300, 400));
    handler.handle_window_event(&RawInput::LeftButton(true));
    assert_eq!(
        handler.handle_window_event(&RawInput::LeftButton(false)),
        InputAction::Click(300, 400)
    );
    assert!(!handler.mouse_down);
    assert_eq!(handler.handle_window_event(&RawInput::CursorMoved(1, 1)), InputAction::Idle);
}

#[test]
fn other_events_ask_for_nothing() {
    let mut handler = InputHandler { mouse_down: true, last_mouse_x: 5, last_mouse_y: 6 };
    assert_eq!(handler.handle_window_event(&RawInput::Other), InputAction::Idle);
    assert_eq!(handler, InputHandler { mouse_down: true, last_mouse_x: 5, last_mouse_y: 6 });
}

#[test]
fn drag_distance_stays_in_range() {
    let mut handler = InputHandler { mouse_down: true, last_mouse_x: i32::MIN, last_mouse_y: 7 };
    assert_eq!(
        handler.handle_window_event(&RawInput::CursorMoved(i32::MAX, i32::MIN)),
        InputAction::Pan(i32::MAX, i32::MIN)
    );
    assert_eq!(
        handler.handle_window_event(&RawInput::CursorMoved(i32::MIN, i32::MAX)),
        InputAction::Pan(i32::MIN, i32::MAX)
    );
}
