use rendertext::{next_action, LoopAction, WindowEvent};

const PROTOCOLS: u64 = 301;
const DELETE: u64 = 302;

#[test]
fn delete_window_message_exits() {
    let e = WindowEvent::ClientMessage { message_type: PROTOCOLS, format: 32, first_datum: 302 };
    assert_eq!(next_action(e, PROTOCOLS, DELETE), LoopAction::Exit);
}

#[test]
fn other_client_messages_wait() {
    let wrong_type = WindowEvent::ClientMessage { message_type: 5, format: 32, first_datum: 302 };
    let wrong_format = WindowEvent::ClientMessage { message_type: PROTOCOLS, format: 8, first_datum: 302 };
    let wrong_atom = WindowEvent::ClientMessage { message_type: PROTOCOLS, format: 32, first_datum: 303 };
    assert_eq!(next_action(wrong_type, PROTOCOLS, DELETE), LoopAction::Wait);
    assert_eq!(next_action(wrong_format, PROTOCOLS, DELETE), LoopAction::Wait);
    assert_eq!(next_action(wrong_atom, PROTOCOLS, DELETE), LoopAction::Wait);
}

#[test]
fn expose_redraws() {
    assert_eq!(next_action(WindowEvent::Expose, PROTOCOLS, DELETE), LoopAction::Redraw);
}

#[test]
fn other_events_wait() {
    assert_eq!(next_action(WindowEvent::Other, PROTOCOLS, DELETE), LoopAction::Wait);
}
