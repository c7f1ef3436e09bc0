//! Changes to a library folder, as far as they concern the library: a
//! manifest that appears, disappears or is rewritten.

use vstd::prelude::*;
use crate::paths::{extension_of, has_extension};

verus! {

/// What happened to a game's manifest.
#[derive(Debug, PartialEq, Eq)]
pub enum GameWatchEvent {
    NewGame(String),
    GameRemoved(String),
    GameUpdated(String),
}

/// What happened to a file.
#[derive(Debug, Clone, Copy, PartialEq, Eq, Structural)]
pub enum FileChange {
    Created,
    Removed,
    Written,
    Other,
}

/// Whether a change to a file concerns the library: the file is a
/// manifest, and it was created, removed or written.
pub open spec fn concerns_library(change: FileChange, path: Seq<char>) -> bool {
    extension_of(path) == Some("acf"@) && change != FileChange::Other
}

/// The event that a change to a file amounts to, if it concerns the
/// library.
pub fn event_for(change: FileChange, path: &str) -> (r: Option<GameWatchEvent>)
    ensures
        r is Some <==> concerns_library(change, path@),
        match r {
            Some(GameWatchEvent::NewGame(p)) => change == FileChange::Created && p@ == path@,
            Some(GameWatchEvent::GameRemoved(p)) => change == FileChange::Removed && p@ == path@,
            Some(GameWatchEvent::GameUpdated(p)) => change == FileChange::Written && p@ == path@,
            None => true,
        },
{
    if !has_extension(path, "acf") {
        return None;
    }
    match change {
        FileChange::Created => Some(GameWatchEvent::NewGame(String::from_str(path))),
        FileChange::Removed => Some(GameWatchEvent::GameRemoved(String::from_str(path))),
        FileChange::Written => Some(GameWatchEvent::GameUpdated(String::from_str(path))),
        FileChange::Other => None,
    }
}

} // verus!
