//! The style selectors of the widgets.

use vstd::prelude::*;

use crate::config::logger::Level;
use crate::config::theme::themes::Rgb;

verus! {

/// How a button is drawn.
#[derive(Debug, Clone, Copy, PartialEq, Eq, Structural)]
pub enum Button {
    Primary,
    Cancel,
    Hyperlink,
    HyperlinkInverted,
    Unavailable,
    Entry,
    EntryError,
    Success,
    Delete,
    Dark,
    MediaStart,
    MediaMiddle,
    MediaEnd,
    Pressed,
    Ready,
}

impl Default for Button {
    fn default() -> (b: Button)
        ensures
            b == Button::Primary,
    {
        Button::Primary
    }
}

/// How a check box is drawn.
#[derive(Default, Debug, Clone, Copy)]
pub enum CheckBox {
    #[default]
    Normal,
    Inverted,
    Entry,
}

/// How a container is drawn.
#[derive(Default, Debug, Clone, Copy)]
pub enum Container {
    #[default]
    Default,
    Hovered(bool),
    Frame,
    Black,
    BlackHovered(bool),
    Error,
    Success,
    Warn,
}

/// How a progress bar is drawn.
#[derive(Default, Debug, Clone, Copy)]
pub enum ProgressBar {
    #[default]
    Default,
    Dark,
    Disrupted,
}

/// How a scrollable area is drawn.
#[derive(Default, Debug, Clone, Copy)]
pub enum Scrollable {
    #[default]
    Normal,
    Dark,
}

/// How a text is drawn.
#[derive(Clone, Copy, Debug, PartialEq, Eq, Structural)]
pub enum Text {
    Default,
    Success,
    Error,
    Warning,
    Color(Rgb),
}

impl Default for Text {
    fn default() -> (t: Text)
        ensures
            t == Text::Default,
    {
        Text::Default
    }
}

impl Text {
    /// The style in which a log line of `level` is drawn.
    pub open spec fn spec_of_level(level: Level) -> Text {
        match level {
            Level::Error => Text::Error,
            Level::Warn => Text::Warning,
            Level::Info => Text::Success,
            _ => Text::Default,
        }
    }

    /// The style in which a log line of `level` is drawn.
    pub fn from(level: &Level) -> (t: Text)
        ensures
            t == Text::spec_of_level(*level),
    {
        match level {
            Level::Error => Text::Error,
            Level::Warn => Text::Warning,
            Level::Info => Text::Success,
            _ => Text::Default,
        }
    }

    /// The style that draws a text in `color`.
    pub fn from_color(color: Rgb) -> (t: Text)
        ensures
            t == Text::Color(color),
    {
        Text::Color(color)
    }
}

/// How a text input is drawn.
#[derive(Default, Clone, Copy, Debug)]
pub enum TextInputStyle {
    #[default]
    Normal,
    Inverted,
}

/// How a text editor is drawn.
#[derive(Default, Clone, Copy, Debug)]
pub enum TextEditor {
    #[default]
    Default,
}

} // verus!
