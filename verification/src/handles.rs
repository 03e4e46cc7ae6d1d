//! Opaque identifiers for operating-system windows and monitors.

use vstd::prelude::*;

verus! {

/// An opaque identifier for an operating-system window. The value zero is the
/// sentinel for "no window"; any other value stands for a real handle.
#[derive(Clone, Copy, PartialEq, Eq, Structural, Debug)]
pub struct WindowHandle {
    pub raw: isize,
}

impl WindowHandle {
    /// A handle is valid exactly when it is not the zero sentinel.
    pub open spec fn spec_is_valid(&self) -> bool {
        self.raw != 0
    }

    /// The sentinel handle meaning "no window".
    pub fn null() -> (h: WindowHandle)
        ensures
            !h.spec_is_valid(),
    {
        WindowHandle { raw: 0 }
    }

    pub fn from_raw(raw: isize) -> (h: WindowHandle)
        ensures
            h.raw == raw,
    {
        WindowHandle { raw }
    }

    #[verifier::when_used_as_spec(spec_is_valid)]
    pub fn is_valid(&self) -> (b: bool)
        ensures
            b == self.spec_is_valid(),
    {
        self.raw != 0
    }
}

/// An opaque identifier for a physical display, as handed out by the
/// operating system's point-to-monitor query.
#[derive(Clone, Copy, PartialEq, Eq, Structural, Debug)]
pub struct MonitorId {
    pub raw: isize,
}

impl MonitorId {
    pub fn from_raw(raw: isize) -> (m: MonitorId)
        ensures
            m.raw == raw,
    {
        MonitorId { raw }
    }
}

} // verus!
