//! What the application asks of its surroundings: the windowing toolkit,
//! the store, the credential check and the notification dialogs.

use vstd::prelude::*;

use crate::config::logger::{Level, Tag};
use crate::config::{Config, ConfigView};
use crate::ui::window::{InputField, WindowId, WindowSettings};

verus! {

/// A message for the user: a dialog with a title and a text.
#[derive(Debug)]
pub struct Notice {
    pub level: Level,
    pub title: String,
    pub message: String,
    pub tag: Tag,
}

/// What a `Notice` holds.
pub struct NoticeView {
    pub level: Level,
    pub title: Seq<char>,
    pub message: Seq<char>,
    pub tag: Tag,
}

impl View for Notice {
    type V = NoticeView;

    open spec fn view(&self) -> NoticeView {
        NoticeView {
            level: self.level,
            title: self.title@,
            message: self.message@,
            tag: self.tag,
        }
    }
}

impl Notice {
    /// A notice of `level` with the given title, and with `detail` behind
    /// `text` as its message.
    pub fn new(level: Level, title: &str, text: &str, detail: &str, tag: Tag) -> (n: Notice)
        ensures
            n@ == (NoticeView { level, title: title@, message: text@ + detail@, tag }),
    {
        let mut message = String::from_str(text);
        message.append(detail);
        Notice { level, title: String::from_str(title), message, tag }
    }
}

/// One request. The caller carries it out; where it has an answer, the
/// answer comes back as a message.
#[derive(Debug)]
pub enum Command {
    /// Open a window under this identifier.
    Spawn(WindowId, WindowSettings),
    /// Close the window.
    Close(WindowId),
    /// Make the window visible.
    Show(WindowId),
    /// Bring the window to the front and give it the focus.
    Focus(WindowId),
    /// Put the cursor into a text input of the login window.
    FocusInput(InputField),
    /// Check a user name and a password. The answer is a login result.
    Verify(String, String),
    /// Store the configuration. The answer is a save result.
    Save(Config),
    /// Read the configuration of the user with this number. The answer
    /// is a load result.
    Load(i64),
    /// Load the fonts.
    LoadFonts,
    /// Show a dialog.
    Notify(Notice),
}

/// What a `Command` holds.
pub enum CommandView {
    Spawn(WindowId, WindowSettings),
    Close(WindowId),
    Show(WindowId),
    Focus(WindowId),
    FocusInput(InputField),
    Verify(Seq<char>, Seq<char>),
    Save(ConfigView),
    Load(i64),
    LoadFonts,
    Notify(NoticeView),
}

impl View for Command {
    type V = CommandView;

    open spec fn view(&self) -> CommandView {
        match self {
            Command::Spawn(id, settings) => CommandView::Spawn(*id, *settings),
            Command::Close(id) => CommandView::Close(*id),
            Command::Show(id) => CommandView::Show(*id),
            Command::Focus(id) => CommandView::Focus(*id),
            Command::FocusInput(field) => CommandView::FocusInput(*field),
            Command::Verify(name, passwd) => CommandView::Verify(name@, passwd@),
            Command::Save(config) => CommandView::Save(config@),
            Command::Load(id) => CommandView::Load(*id),
            Command::LoadFonts => CommandView::LoadFonts,
            Command::Notify(notice) => CommandView::Notify(notice@),
        }
    }
}

/// What a list of commands holds, in their order.
pub open spec fn views(cmds: Seq<Command>) -> Seq<CommandView> {
    cmds.map_values(|c: Command| c@)
}

/// A stream of events that the application listens to.
#[derive(Clone, Copy, Debug, PartialEq, Eq, Structural)]
pub enum Subscription {
    /// Keyboard and window events.
    Events,
}

/// Appends `more` to `cmds`.
pub fn append(cmds: &mut Vec<Command>, more: Vec<Command>)
    ensures
        views(final(cmds)@) == views(old(cmds)@) + views(more@),
{
    let mut rest = more;
    cmds.append(&mut rest);
}

} // verus!
