//! The settings window.

use vstd::prelude::*;
use vstd::view::View as _;

use crate::config::theme::{Button, Themes};
use crate::config::{Config, ConfigView};
use crate::db::types::user::{UserCfg, UserView};
use crate::ui::command::{views, Command, CommandView, Subscription};
use crate::ui::main_app::AppWindow;
use crate::ui::window::{Position, WindowId, WindowIds, WindowSettings};

verus! {

/// The panels of the settings window.
#[derive(Debug, Clone, Copy, PartialEq, Eq, Structural)]
pub enum View {
    Main,
    User,
}

impl Default for View {
    fn default() -> (v: View)
        ensures
            v == View::Main,
    {
        View::Main
    }
}

impl View {
    /// How the button of panel `v` is drawn while this panel is shown:
    /// pressed for the panel itself, ready for every other.
    pub fn get_theme(&self, v: &View) -> (b: Button)
        ensures
            b == (if *self == *v {
                Button::Pressed
            } else {
                Button::Ready
            }),
    {
        if *self == *v {
            Button::Pressed
        } else {
            Button::Ready
        }
    }
}

/// The settings window: closed while `id` is the primary window, open
/// under `id` otherwise. `flag` is the configuration as it is being
/// edited.
#[derive(Debug)]
pub struct App {
    pub view: View,
    pub flag: Config,
    pub id: WindowId,
}

/// What a settings `App` holds.
pub struct AppView {
    pub view: View,
    pub flag: ConfigView,
    pub id: WindowId,
}

impl vstd::view::View for App {
    type V = AppView;

    open spec fn view(&self) -> AppView {
        AppView { view: self.view, flag: self.flag@, id: self.id }
    }
}

/// What happens in the settings window.
#[derive(Debug)]
pub enum Message {
    /// The user panel was chosen.
    UserPressed,
    /// The main panel was chosen.
    MainViewPressed,
    /// The user name was edited.
    SetUserName(String),
    /// The password was edited.
    SetUserPasswd(String),
    /// A theme was picked.
    SetTheme(Themes),
    /// The user asked to store the configuration.
    Save,
    /// The user asked to read the configuration again.
    ReLoad,
}

/// What a settings `Message` holds.
pub enum MessageView {
    UserPressed,
    MainViewPressed,
    SetUserName(Seq<char>),
    SetUserPasswd(Seq<char>),
    SetTheme(Themes),
    Save,
    ReLoad,
}

impl vstd::view::View for Message {
    type V = MessageView;

    open spec fn view(&self) -> MessageView {
        match self {
            Message::UserPressed => MessageView::UserPressed,
            Message::MainViewPressed => MessageView::MainViewPressed,
            Message::SetUserName(v) => MessageView::SetUserName(v@),
            Message::SetUserPasswd(v) => MessageView::SetUserPasswd(v@),
            Message::SetTheme(theme) => MessageView::SetTheme(*theme),
            Message::Save => MessageView::Save,
            Message::ReLoad => MessageView::ReLoad,
        }
    }
}

impl Clone for Message {
    fn clone(&self) -> (r: Message)
        ensures
            r@ == self@,
    {
        match self {
            Message::UserPressed => Message::UserPressed,
            Message::MainViewPressed => Message::MainViewPressed,
            Message::SetUserName(v) => Message::SetUserName(v.clone()),
            Message::SetUserPasswd(v) => Message::SetUserPasswd(v.clone()),
            Message::SetTheme(theme) => Message::SetTheme(*theme),
            Message::Save => Message::Save,
            Message::ReLoad => Message::ReLoad,
        }
    }
}

impl AppView {
    /// The settings window after an event: a panel is chosen, or a
    /// field of the configuration is edited. Storing and reading are
    /// not decided by the window, so those two events change nothing.
    pub open spec fn updated(self, message: MessageView) -> AppView {
        match message {
            MessageView::UserPressed => AppView { view: View::User, ..self },
            MessageView::MainViewPressed => AppView { view: View::Main, ..self },
            MessageView::SetUserName(v) => AppView {
                flag: ConfigView { user: UserView { name: v, ..self.flag.user }, ..self.flag },
                ..self
            },
            MessageView::SetUserPasswd(v) => AppView {
                flag: ConfigView { user: UserView { password: v, ..self.flag.user }, ..self.flag },
                ..self
            },
            MessageView::SetTheme(theme) => AppView {
                flag: ConfigView {
                    user_cfg: UserCfg { theme, ..self.flag.user_cfg },
                    ..self.flag
                },
                ..self
            },
            MessageView::Save | MessageView::ReLoad => self,
        }
    }

    /// True while the settings window is open.
    pub open spec fn exist(self) -> bool {
        self.id != WindowId::main()
    }

    /// The settings window after a request to open it, where `fresh` is
    /// the identifier that a new window would get.
    pub open spec fn created(self, fresh: Option<WindowId>) -> AppView {
        if self.exist() {
            self
        } else {
            match fresh {
                Some(id) => AppView { id, ..self },
                None => self,
            }
        }
    }

    /// What a request to open the settings window asks for: an open
    /// window is shown and focused, a closed one is spawned.
    pub open spec fn create_commands(self, fresh: Option<WindowId>) -> Seq<CommandView> {
        if self.exist() {
            seq![CommandView::Show(self.id), CommandView::Focus(self.id)]
        } else {
            match fresh {
                Some(id) => seq![CommandView::Spawn(id, App::spec_settings(self.flag.user_cfg))],
                None => seq![],
            }
        }
    }

    /// The settings window after its window was closed.
    pub open spec fn closed(self) -> AppView {
        AppView { id: WindowId::main(), ..self }
    }

    /// What closing the settings window asks for.
    pub open spec fn close_commands(self) -> Seq<CommandView> {
        if self.exist() {
            seq![CommandView::Close(self.id)]
        } else {
            seq![]
        }
    }
}

/// Takes an event of the settings window: a panel is chosen, or a field
/// of the configuration is edited. Nothing is ever asked for.
pub fn update(app: &mut App, message: Message) -> (cmds: Vec<Command>)
    ensures
        cmds@.len() == 0,
        final(app)@ == old(app)@.updated(message@),
{
    match message {
        Message::UserPressed => {
            app.view = View::User;
        },
        Message::MainViewPressed => {
            app.view = View::Main;
        },
        Message::SetUserName(v) => {
            app.flag.user.name = v;
        },
        Message::SetUserPasswd(v) => {
            app.flag.user.password = v;
        },
        Message::SetTheme(theme) => {
            app.flag.user_cfg.theme = theme;
        },
        Message::Save | Message::ReLoad => {},
    }
    Vec::new()
}

impl App {
    /// What a settings window is opened with.
    pub open spec fn spec_settings(cfg: UserCfg) -> WindowSettings {
        WindowSettings {
            width: cfg.width,
            height: cfg.height,
            min_width: cfg.width,
            min_height: cfg.height,
            position: Position::Default,
            resizable: cfg.resizable,
            decorations: cfg.decorations,
            transparent: cfg.transparent,
            exit_on_close_request: true,
        }
    }

    /// The title of the settings window.
    pub open spec fn spec_title() -> Seq<char> {
        "配置"@
    }

    /// True while the settings window is open.
    pub open spec fn spec_exist(&self) -> bool {
        self.id != WindowId::main()
    }
}

impl Default for App {
    /// A closed settings window that edits the empty configuration.
    fn default() -> (app: App)
        ensures
            app@ == (AppView { view: View::Main, flag: ConfigView::empty(), id: WindowId::main() }),
    {
        App::new(Config::default())
    }
}

impl AppWindow for App {
    type Flag = Config;

    type Setting = UserCfg;

    type Event = Message;

    open spec fn window(&self) -> WindowId {
        self.id
    }

    open spec fn spawn_settings(&self) -> WindowSettings {
        App::spec_settings(self.flag.user_cfg)
    }

    /// A closed settings window that edits `flag`.
    fn new(flag: Config) -> (app: App)
        ensures
            app@ == (AppView { view: View::Main, flag: flag@, id: WindowId::main() }),
    {
        App { id: WindowId::main(), view: View::Main, flag }
    }

    /// What a settings window is opened with.
    fn settings(cfg: UserCfg) -> (s: WindowSettings)
        ensures
            s == App::spec_settings(cfg),
    {
        WindowSettings {
            width: cfg.width,
            height: cfg.height,
            min_width: cfg.width,
            min_height: cfg.height,
            position: Position::Default,
            resizable: cfg.resizable,
            decorations: cfg.decorations,
            transparent: cfg.transparent,
            exit_on_close_request: true,
        }
    }

    /// The title of the settings window.
    fn title(&self) -> (t: String)
        ensures
            t@ == App::spec_title(),
    {
        String::from_str("配置")
    }

    /// Opens the settings window, or brings it to the front where it is
    /// open already. Nothing happens once the identifiers are used up.
    fn create(&mut self, ids: &mut WindowIds) -> (cmds: Vec<Command>)
        ensures
            final(self)@ == old(self)@.created(old(ids).upcoming()),
            views(cmds@) == old(self)@.create_commands(old(ids).upcoming()),
    {
        let mut cmds: Vec<Command> = Vec::new();
        if self.exist() {
            cmds.push(Command::Show(self.id));
            cmds.push(Command::Focus(self.id));
        } else {
            match ids.fresh() {
                Some(id) => {
                    self.id = id;
                    cmds.push(Command::Spawn(id, App::settings(self.flag.user_cfg)));
                },
                None => {},
            }
        }
        cmds
    }

    /// Closes the settings window. Nothing happens where it is closed
    /// already.
    fn close(&mut self) -> (cmds: Vec<Command>)
        ensures
            final(self)@ == old(self)@.closed(),
            views(cmds@) == old(self)@.close_commands(),
    {
        let mut cmds: Vec<Command> = Vec::new();
        if self.exist() {
            cmds.push(Command::Close(self.id));
            self.id = WindowId::main();
        }
        cmds
    }

    /// Makes the settings window visible. Nothing happens while it is
    /// closed.
    fn show(&self) -> (cmds: Vec<Command>) {
        let mut cmds: Vec<Command> = Vec::new();
        if self.exist() {
            cmds.push(Command::Show(self.id));
        }
        cmds
    }

    /// Gives the settings window the focus. Nothing happens while it is
    /// closed.
    fn focus(&self) -> (cmds: Vec<Command>)
        ensures
            views(cmds@) == (if self.spec_exist() {
                seq![CommandView::Focus(self.id)]
            } else {
                seq![]
            }),
    {
        let mut cmds: Vec<Command> = Vec::new();
        if self.exist() {
            cmds.push(Command::Focus(self.id));
        }
        cmds
    }

    /// True while the settings window is open.
    fn exist(&self) -> (r: bool) {
        !self.id.is_main()
    }

    /// Takes an event of the settings window, as the free function
    /// `update` does.
    fn update(&mut self, event: Message) -> (cmds: Vec<Command>)
        ensures
            cmds@.len() == 0,
            final(self)@ == old(self)@.updated(event@),
    {
        update(self, event)
    }

    /// The events that the settings window listens to: none.
    fn subscription(&self) -> (subs: Vec<Subscription>)
        ensures
            subs@.len() == 0,
    {
        Vec::new()
    }
}

} // verus!
