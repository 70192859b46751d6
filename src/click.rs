use vstd::prelude::*;

verus! {

/// Event type of a right mouse button press.
pub const RIGHT_MOUSE_DOWN: u64 = 3;

/// Event type of a right mouse button release.
pub const RIGHT_MOUSE_UP: u64 = 4;

/// Modifier flag set while the control key is held.
pub const CONTROL_KEY_MASK: u64 = 0x40000;

/// A click that opens the menu: the right button, or the left one with
/// control held.
pub open spec fn opens_menu(event_type: u64, modifier_flags: u64) -> bool {
    event_type == RIGHT_MOUSE_DOWN || event_type == RIGHT_MOUSE_UP || modifier_flags
        & CONTROL_KEY_MASK != 0
}

/// Whether a click on the status-bar button opens the menu; any other click
/// toggles the session.
pub fn is_menu_click(event_type: u64, modifier_flags: u64) -> (r: bool)
    ensures
        r == opens_menu(event_type, modifier_flags),
{
    event_type == RIGHT_MOUSE_DOWN || event_type == RIGHT_MOUSE_UP || modifier_flags
        & CONTROL_KEY_MASK != 0
}

} // verus!
