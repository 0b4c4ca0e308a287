//! The log viewer.

use vstd::prelude::*;

use crate::db::types::user::UserCfg;
use crate::ui::command::{views, Command, CommandView, Subscription};
use crate::ui::main_app::AppWindow;
use crate::ui::window::{Position, WindowId, WindowIds, WindowSettings};

verus! {

/// The log viewer has no events that mean anything to it.
#[derive(Clone, Copy, Debug, PartialEq, Eq, Structural)]
pub enum Message {
    /// An event without effect.
    Ignore,
}

/// The log viewer: closed while `id` is the primary window, open under
/// `id` otherwise.
#[derive(Debug, Clone, Copy, PartialEq, Eq, Structural)]
pub struct App {
    pub flag: UserCfg,
    pub id: WindowId,
    pub state: bool,
}

impl Default for App {
    fn default() -> (app: App)
        ensures
            app == (App { flag: UserCfg::spec_default(), id: WindowId::main(), state: false }),
    {
        App { id: WindowId::main(), flag: UserCfg::default(), state: false }
    }
}

impl App {
    /// Records whether the log window is shown.
    pub fn update_log_window_state(&mut self, status: bool)
        ensures
            *final(self) == (App { state: status, ..*old(self) }),
    {
        self.state = status;
    }

    /// What a log window is opened with.
    pub open spec fn spec_settings(cfg: UserCfg) -> WindowSettings {
        WindowSettings {
            width: cfg.width,
            height: cfg.height,
            min_width: cfg.width,
            min_height: cfg.height,
            position: Position::Default,
            resizable: cfg.resizable,
            decorations: cfg.decorations,
            transparent: cfg.transparent,
            exit_on_close_request: true,
        }
    }

    /// The title of the log window.
    pub open spec fn spec_title() -> Seq<char> {
        "日志窗口"@
    }

    /// True while the log window is open.
    pub open spec fn spec_exist(&self) -> bool {
        self.id != WindowId::main()
    }

    /// The viewer after a request to open it, where `fresh` is the
    /// identifier that a new window would get.
    pub open spec fn spec_created(self, fresh: Option<WindowId>) -> App {
        if self.spec_exist() {
            App { state: true, ..self }
        } else {
            match fresh {
                Some(id) => App { id, state: true, ..self },
                None => self,
            }
        }
    }

    /// What a request to open the viewer asks for: an open window is
    /// shown and focused, a closed one is spawned.
    pub open spec fn create_commands(self, fresh: Option<WindowId>) -> Seq<CommandView> {
        if self.spec_exist() {
            seq![CommandView::Show(self.id), CommandView::Focus(self.id)]
        } else {
            match fresh {
                Some(id) => seq![CommandView::Spawn(id, App::spec_settings(self.flag))],
                None => seq![],
            }
        }
    }

    /// The viewer after its window was closed.
    pub open spec fn spec_closed(self) -> App {
        if self.spec_exist() {
            App { id: WindowId::main(), state: false, ..self }
        } else {
            self
        }
    }

    /// What closing the viewer asks for.
    pub open spec fn close_commands(self) -> Seq<CommandView> {
        if self.spec_exist() {
            seq![CommandView::Close(self.id)]
        } else {
            seq![]
        }
    }
}

impl AppWindow for App {
    type Flag = UserCfg;

    type Setting = UserCfg;

    type Event = Message;

    open spec fn window(&self) -> WindowId {
        self.id
    }

    open spec fn spawn_settings(&self) -> WindowSettings {
        App::spec_settings(self.flag)
    }

    /// A closed log viewer with the preferences `flag`.
    fn new(flag: UserCfg) -> (app: App)
        ensures
            app == (App { flag, id: WindowId::main(), state: false }),
    {
        App { id: WindowId::main(), flag, state: false }
    }

    /// What a log window is opened with.
    fn settings(cfg: UserCfg) -> (s: WindowSettings)
        ensures
            s == App::spec_settings(cfg),
    {
        WindowSettings {
            width: cfg.width,
            height: cfg.height,
            min_width: cfg.width,
            min_height: cfg.height,
            position: Position::Default,
            resizable: cfg.resizable,
            decorations: cfg.decorations,
            transparent: cfg.transparent,
            exit_on_close_request: true,
        }
    }

    /// The title of the log window.
    fn title(&self) -> (t: String)
        ensures
            t@ == App::spec_title(),
    {
        String::from_str("日志窗口")
    }

    /// Opens the log window, or brings it to the front where it is open
    /// already. Nothing happens once the identifiers are used up.
    fn create(&mut self, ids: &mut WindowIds) -> (cmds: Vec<Command>)
        ensures
            *final(self) == old(self).spec_created(old(ids).upcoming()),
            views(cmds@) == old(self).create_commands(old(ids).upcoming()),
    {
        let mut cmds: Vec<Command> = Vec::new();
        if self.exist() {
            self.update_log_window_state(true);
            cmds.push(Command::Show(self.id));
            cmds.push(Command::Focus(self.id));
        } else {
            match ids.fresh() {
                Some(id) => {
                    self.update_log_window_state(true);
                    self.id = id;
                    cmds.push(Command::Spawn(id, App::settings(self.flag)));
                },
                None => {},
            }
        }
        cmds
    }

    /// Closes the log window. Nothing happens where it is closed already.
    fn close(&mut self) -> (cmds: Vec<Command>)
        ensures
            *final(self) == old(self).spec_closed(),
            views(cmds@) == old(self).close_commands(),
    {
        let mut cmds: Vec<Command> = Vec::new();
        if self.exist() {
            self.update_log_window_state(false);
            cmds.push(Command::Close(self.id));
            self.id = WindowId::main();
        }
        cmds
    }

    /// Makes the log window visible. Nothing happens while it is closed.
    fn show(&self) -> (cmds: Vec<Command>) {
        let mut cmds: Vec<Command> = Vec::new();
        if self.exist() {
            cmds.push(Command::Show(self.id));
        }
        cmds
    }

    /// Gives the log window the focus. Nothing happens while it is closed.
    fn focus(&self) -> (cmds: Vec<Command>)
        ensures
            views(cmds@) == (if self.spec_exist() {
                seq![CommandView::Focus(self.id)]
            } else {
                seq![]
            }),
    {
        let mut cmds: Vec<Command> = Vec::new();
        if self.exist() {
            cmds.push(Command::Focus(self.id));
        }
        cmds
    }

    /// True while the log window is open.
    fn exist(&self) -> (r: bool) {
        !self.id.is_main()
    }

    /// Takes an event: nothing changes and nothing is asked for.
    fn update(&mut self, event: Message) -> (cmds: Vec<Command>)
        ensures
            *final(self) == *old(self),
            cmds@.len() == 0,
    {
        Vec::new()
    }

    /// The events that the log viewer listens to: none.
    fn subscription(&self) -> (subs: Vec<Subscription>)
        ensures
            subs@.len() == 0,
    {
        Vec::new()
    }
}

} // verus!
