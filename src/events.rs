use vstd::prelude::*;

verus! {

/// The window events that the drawing loop tells apart.
#[derive(Clone, Copy, Debug, PartialEq, Eq, Structural)]
pub enum WindowEvent {
    /// A client message: its type atom, its data format and its first datum.
    ClientMessage { message_type: u64, format: i32, first_datum: i64 },
    /// Part of the window needs to be drawn again.
    Expose,
    /// Any other event.
    Other,
}

/// What the drawing loop does after an event.
#[derive(Clone, Copy, Debug, PartialEq, Eq, Structural)]
pub enum LoopAction {
    /// Leave the loop: the window manager asked the window to close.
    Exit,
    /// Clear the window's background, then composite the text.
    Redraw,
    /// Wait for the next event.
    Wait,
}

/// A close request is a client message of the window-manager protocols
/// type, in 32-bit format, whose first datum is the delete-window atom.
pub open spec fn is_close_request(event: WindowEvent, wm_protocols: u64, wm_delete_window: u64) -> bool {
    match event {
        WindowEvent::ClientMessage { message_type, format, first_datum } => message_type == wm_protocols
            && format == 32 && first_datum as u64 == wm_delete_window,
        _ => false,
    }
}

/// Decides how the drawing loop answers `event`, given the atoms of the
/// window-manager protocols and of the delete-window message.
pub fn next_action(event: WindowEvent, wm_protocols: u64, wm_delete_window: u64) -> (r: LoopAction)
    ensures
        r == LoopAction::Exit <==> is_close_request(event, wm_protocols, wm_delete_window),
        r == LoopAction::Redraw <==> event == WindowEvent::Expose,
{
    match event {
        WindowEvent::ClientMessage { message_type, format, first_datum } => {
            if message_type == wm_protocols && format == 32 && #[verifier::truncate] (first_datum as u64)
                == wm_delete_window {
                LoopAction::Exit
            } else {
                LoopAction::Wait
            }
        },
        WindowEvent::Expose => LoopAction::Redraw,
        WindowEvent::Other => LoopAction::Wait,
    }
}

} // verus!
