//! The keyboard and window events that the application reacts to.

use vstd::prelude::*;

use crate::ui::window::WindowId;

verus! {

/// An event that means something to the application.
#[derive(Debug, Clone, Copy, PartialEq, Eq, Structural)]
pub enum Event {
    /// Clear the entries.
    Clear,
    /// The user asked for a window to close.
    CloseRequested,
    /// Delete the selected entries.
    Delete,
    /// A window was closed.
    Closed(WindowId),
    /// Store the configuration.
    Save,
    /// Read the configuration.
    Load,
    /// Move the cursor on to the next input.
    ChangeBit,
    /// A window got the focus.
    Focused(WindowId),
}

/// A key of the keyboard, as far as the application tells keys apart.
#[derive(Debug)]
pub enum Key {
    /// The delete key.
    Delete,
    /// A key that types the given text.
    Character(String),
    /// Any other key.
    Other,
}

/// The modifier keys that were held.
#[derive(Debug, Clone, Copy, PartialEq, Eq, Structural)]
pub struct Modifiers {
    pub shift: bool,
    /// Control, or the command key where the platform has one.
    pub command: bool,
}

/// What happened to a window.
#[derive(Debug, Clone, Copy, PartialEq, Eq, Structural)]
pub enum WindowEvent {
    CloseRequested,
    Closed,
    Focused,
    Other,
}

/// An event as the toolkit reports it.
#[derive(Debug)]
pub enum RawEvent {
    /// A key was released.
    KeyReleased(Key, Modifiers),
    /// Something happened to the window.
    Window(WindowId, WindowEvent),
    /// Anything else.
    Other,
}

/// Whether a widget has handled an event already.
#[derive(Debug, Clone, Copy, PartialEq, Eq, Structural)]
pub enum Status {
    Ignored,
    Captured,
}

/// What a raw event means to the application, if anything.
///
/// The delete key counts only where no widget took it: with shift it
/// clears, alone it deletes. Command with `s` saves and command with `m`
/// loads, whether or not a widget took the key. Of the window events the
/// close request, the closing and the focus count.
pub open spec fn spec_filter(event: RawEvent, status: Status) -> Option<Event> {
    match event {
        RawEvent::KeyReleased(key, modifiers) => match key {
            Key::Delete => if status == Status::Ignored {
                if modifiers.shift {
                    Some(Event::Clear)
                } else {
                    Some(Event::Delete)
                }
            } else {
                None
            },
            Key::Character(c) => if modifiers.command && c@ == "s"@ {
                Some(Event::Save)
            } else if modifiers.command && c@ == "m"@ {
                Some(Event::Load)
            } else {
                None
            },
            Key::Other => None,
        },
        RawEvent::Window(id, event) => match event {
            WindowEvent::CloseRequested => Some(Event::CloseRequested),
            WindowEvent::Closed => Some(Event::Closed(id)),
            WindowEvent::Focused => Some(Event::Focused(id)),
            WindowEvent::Other => None,
        },
        RawEvent::Other => None,
    }
}

/// What a raw event means to the application, if anything.
pub fn filter(event: RawEvent, status: Status) -> (r: Option<Event>)
    ensures
        r == spec_filter(event, status),
{
    match event {
        RawEvent::KeyReleased(key, modifiers) => match key {
            Key::Delete => {
                if status == Status::Ignored {
                    if modifiers.shift {
                        Some(Event::Clear)
                    } else {
                        Some(Event::Delete)
                    }
                } else {
                    None
                }
            },
            Key::Character(c) => {
                if modifiers.command && c == String::from_str("s") {
                    Some(Event::Save)
                } else if modifiers.command && c == String::from_str("m") {
                    Some(Event::Load)
                } else {
                    None
                }
            },
            Key::Other => None,
        },
        RawEvent::Window(id, event) => match event {
            WindowEvent::CloseRequested => Some(Event::CloseRequested),
            WindowEvent::Closed => Some(Event::Closed(id)),
            WindowEvent::Focused => Some(Event::Focused(id)),
            WindowEvent::Other => None,
        },
        RawEvent::Other => None,
    }
}

/// The events that the application listens to.
pub fn events() -> (sub: crate::ui::command::Subscription)
    ensures
        sub == crate::ui::command::Subscription::Events,
{
    crate::ui::command::Subscription::Events
}

} // verus!
