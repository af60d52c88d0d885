//! The tunable quantities of the editor.

use vstd::prelude::*;

verus! {

/// Two clicks at most this many milliseconds apart count as consecutive.
pub const CONSECUTIVE_CLICK_TIME: u64 = 300;

/// The consecutive-click count at which renaming starts.
pub const RENAME_CLICK_COUNT: u32 = 2;

/// How many entries each of the undo and redo histories may hold together.
pub const UNDO_REDO_CAPACITY: usize = 64;

} // verus!
