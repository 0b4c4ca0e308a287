//! Colour themes and the style selectors of the widgets.

pub mod base;
pub mod themes;

pub use base::{
    Button, CheckBox, Container, ProgressBar, Scrollable, Text, TextEditor, TextInputStyle,
};
pub use themes::{Palette, Theme, Themes};
