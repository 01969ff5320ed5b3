//! The writes to the game-center tables that the commands decide on; the
//! caller runs each one against the database.

use vstd::prelude::*;

verus! {

/// One write to the game-center tables (`gamecenterdata`, one row per game
/// center; `gc_name`, one row per name of a game center in a group).
pub enum DbWrite {
    /// A new game center, created by group `admin_gid`; the database gives
    /// it its id.
    NewCenter { admin_gid: i64, description: String },
    /// Game center `gc_id` is called `name` in group `gid`.
    AddName { gc_id: i64, gid: i64, name: String },
    /// Every name of game center `gc_id` in group `gid` is removed.
    RemoveGroupNames { gc_id: i64, gid: i64 },
    /// The name `name` of game center `gc_id` in group `gid` is removed.
    RemoveName { gc_id: i64, gid: i64, name: String },
    /// Game center `gc_id` and all its names are removed.
    RemoveCenter { gc_id: i64 },
    /// The name `old` of game center `gc_id` in group `gid` becomes `new`.
    Rename { gc_id: i64, gid: i64, old: Option<String>, new: String },
    /// The description of game center `gc_id` is replaced.
    SetDescription { gc_id: i64, description: String },
    /// The count of game center `gc_id` is stored, with who reported it and
    /// when (seconds since the epoch).
    SetCount { gc_id: i64, headcount: i32, report_id: i64, report_time: i64 },
}

/// A copy of an optional text.
pub(crate) fn copy_opt(s: &Option<String>) -> (r: Option<String>)
    ensures
        match (*s, r) {
            (Some(a), Some(b)) => a@ == b@,
            (None, None) => true,
            _ => false,
        },
{
    match s {
        Some(a) => Some(a.clone()),
        None => None,
    }
}

} // verus!
