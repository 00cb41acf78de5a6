//! Decisions of the client process that don't need the engine.

use vstd::prelude::*;

verus! {

/// Which way a UI message travels.
#[derive(Debug, Clone, Copy, PartialEq, Eq, Structural)]
pub enum MessageDirection {
    ToWidget,
    FromWidget,
}

/// Whether a UI message is printed, given the `d_ui_msgs*` cvars: all of them
/// or a subset, filtered by direction and by whether it's about the mouse.
pub fn should_log_ui_message(
    d_ui_msgs: bool,
    d_ui_msgs_direction_to: bool,
    d_ui_msgs_direction_from: bool,
    d_ui_msgs_mouse: bool,
    direction: MessageDirection,
    is_mouse_message: bool,
) -> (print: bool)
    ensures
        print == (d_ui_msgs && (direction == MessageDirection::ToWidget ==> d_ui_msgs_direction_to)
            && (direction == MessageDirection::FromWidget ==> d_ui_msgs_direction_from) && (
        is_mouse_message ==> d_ui_msgs_mouse)),
{
    let mut print = d_ui_msgs;
    match direction {
        MessageDirection::ToWidget => if !d_ui_msgs_direction_to {
            print = false;
        },
        MessageDirection::FromWidget => if !d_ui_msgs_direction_from {
            print = false;
        },
    }
    if is_mouse_message && !d_ui_msgs_mouse {
        print = false;
    }
    print
}

/// Renderer quality presets.
#[derive(Debug, Clone, Copy, PartialEq, Eq, Structural)]
pub enum Quality {
    Low,
    Medium,
    High,
}

/// The preset for the `r_quality` cvar, and whether the value was valid
/// (invalid values fall back to low quality).
pub fn quality_for(r_quality: i32) -> (res: (Quality, bool))
    ensures
        res == (if r_quality == 0 {
            (Quality::Low, true)
        } else if r_quality == 1 {
            (Quality::Medium, true)
        } else if r_quality == 2 {
            (Quality::High, true)
        } else {
            (Quality::Low, false)
        }),
{
    match r_quality {
        0 => (Quality::Low, true),
        1 => (Quality::Medium, true),
        2 => (Quality::High, true),
        _ => (Quality::Low, false),
    }
}

} // verus!
