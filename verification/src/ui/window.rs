//! Window identifiers, the source that hands out fresh ones, and the
//! requests that the application hands to the windowing toolkit.

use vstd::prelude::*;

verus! {

/// Handle of one window. The value `0` is the primary window, which is
/// also what a view holds while it has no window of its own.
#[derive(Clone, Copy, Debug, PartialEq, Eq, Hash, Structural)]
pub struct WindowId {
    pub raw: u64,
}

impl WindowId {
    /// The primary window.
    pub open spec fn spec_main() -> WindowId {
        WindowId { raw: 0 }
    }

    /// The primary window.
    #[verifier::when_used_as_spec(spec_main)]
    pub fn main() -> (id: WindowId)
        ensures
            id == WindowId::spec_main(),
    {
        WindowId { raw: 0 }
    }

    /// True for the primary window.
    pub fn is_main(&self) -> (r: bool)
        ensures
            r == (*self == WindowId::main()),
    {
        self.raw == 0
    }
}

/// Hands out window identifiers, each one once and none of them the
/// primary window.
#[derive(Debug)]
pub struct WindowIds {
    pub next: u64,
}

impl WindowIds {
    /// No identifier handed out so far is at or above `next`, and the
    /// primary window is never handed out.
    pub open spec fn wf(&self) -> bool {
        self.next >= 1
    }

    /// A source that has handed out nothing yet.
    pub fn new() -> (ids: WindowIds)
        ensures
            ids.wf(),
            ids.next == 1,
    {
        WindowIds { next: 1 }
    }

    /// The identifier that `fresh` returns next, if one is left.
    pub open spec fn upcoming(&self) -> Option<WindowId> {
        if self.next < u64::MAX {
            Some(WindowId { raw: self.next })
        } else {
            None
        }
    }

    /// Hands out the next identifier. When the identifiers are used up
    /// the source stays as it is and the answer is `None`.
    pub fn fresh(&mut self) -> (id: Option<WindowId>)
        requires
            old(self).wf(),
        ensures
            final(self).wf(),
            id == old(self).upcoming(),
            id is Some ==> final(self).next == old(self).next + 1,
            id is None ==> final(self).next == old(self).next,
    {
        if self.next < u64::MAX {
            let id = WindowId { raw: self.next };
            self.next = self.next + 1;
            Some(id)
        } else {
            None
        }
    }
}

/// Where a new window is placed on the screen.
#[derive(Clone, Copy, Debug, PartialEq, Eq, Structural)]
pub enum Position {
    /// Wherever the platform puts it.
    Default,
    /// In the middle of the screen.
    Centered,
}

/// What a window is opened with. Sizes are whole logical pixels.
#[derive(Clone, Copy, Debug, PartialEq, Eq, Structural)]
pub struct WindowSettings {
    pub width: u32,
    pub height: u32,
    pub min_width: u32,
    pub min_height: u32,
    pub position: Position,
    pub resizable: bool,
    pub decorations: bool,
    pub transparent: bool,
    pub exit_on_close_request: bool,
}

/// A text input of the login window.
#[derive(Clone, Copy, Debug, PartialEq, Eq, Structural)]
pub enum InputField {
    Name,
    Passwd,
}

} // verus!
