//! The error taxonomy of a wallpaper run. Every stage failure is fatal to the
//! run; the variant names the failing stage.

use vstd::prelude::*;

verus! {

/// Why a wallpaper run failed.
#[derive(Clone, Copy, PartialEq, Eq, Structural, Debug)]
pub enum WpError {
    /// A required window or container never appeared within the retry budget.
    NotFound,
    /// A previously valid window handle became invalid between stages.
    StaleWindow,
    /// The move/resize directive was rejected by the window manager.
    PlacementFailed,
    /// The reparent call was rejected by the window manager.
    ReparentFailed,
}

impl WpError {
    /// A short operator-visible description of the failure.
    pub fn describe(&self) -> (s: &'static str)
        ensures
            (*self is NotFound) ==> s@ == "a required window never appeared"@,
            (*self is StaleWindow) ==> s@ == "a window handle became invalid"@,
            (*self is PlacementFailed) ==> s@ == "the window could not be moved or resized"@,
            (*self is ReparentFailed) ==> s@ == "the window could not be reparented"@,
    {
        match self {
            WpError::NotFound => "a required window never appeared",
            WpError::StaleWindow => "a window handle became invalid",
            WpError::PlacementFailed => "the window could not be moved or resized",
            WpError::ReparentFailed => "the window could not be reparented",
        }
    }
}

} // verus!
