//! Decision core of a minimal single-window desktop application.
//!
//! The library describes, as plain verified data and functions, everything the
//! application decides on its own: the menu tree it builds, how the window
//! procedure routes each delivered event, and how the bootstrap sequence and
//! its blocking message loop react to what the platform hands back. The thin
//! platform shell performs the actual windowing calls and feeds their outcomes
//! to these functions.

use vstd::prelude::*;

pub mod bootstrap;
pub mod dispatch;
pub mod menu;
pub mod message_loop;

verus! {

/// Menu id of the "File" popup entry in the menu bar.
pub const IDM_FILE: u64 = 100;
/// Menu id of the "About" command in the menu bar.
pub const IDM_ABOUT: u64 = 101;
/// Menu id of the "Exit" command in the File popup.
pub const IDM_EXIT: u64 = 110;

/// True for the ids that the menu tree actually carries as command entries
/// or popup anchors; the window procedure defers every other command id.
pub open spec fn known_menu_id(id: u64) -> bool {
    id == IDM_FILE || id == IDM_ABOUT || id == IDM_EXIT
}

} // verus!
