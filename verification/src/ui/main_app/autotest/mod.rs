//! The main view: the test bench.

pub mod table;

use vstd::prelude::*;

use crate::config::{Config, ConfigView};
use crate::db::types::user::UserCfg;
use crate::ui::command::{views, Command, CommandView, Subscription};
use crate::ui::main_app::AppWindow;
use crate::ui::window::{Position, WindowId, WindowIds, WindowSettings};

verus! {

/// What happens in the test bench.
#[derive(Clone, Copy, Debug, PartialEq, Eq, Structural)]
pub enum Message {
    /// Something happened in the table. The table itself takes it.
    TableWindow,
    /// The user asked for a run.
    Submit,
}

/// How a test stands.
#[derive(Debug, Clone, Copy, PartialEq, Eq, Structural)]
pub enum DataState {
    Ready,
    Success,
    Fail,
}

impl DataState {
    /// The state of sample row `i`: the first row is ready, and after it
    /// the rows with an odd number have failed and the others have
    /// passed.
    pub open spec fn spec_generate(i: i32) -> DataState {
        if i == 0 {
            DataState::Ready
        } else if i > 0 && i % 2 == 1 {
            DataState::Fail
        } else {
            DataState::Success
        }
    }

    /// The state of sample row `i`.
    pub fn generate(i: i32) -> (s: DataState)
        ensures
            s == DataState::spec_generate(i),
    {
        if i == 0 {
            DataState::Ready
        } else if i > 0 && i % 2 == 1 {
            DataState::Fail
        } else {
            DataState::Success
        }
    }

    /// The word that shows a state.
    pub open spec fn spec_label(&self) -> Seq<char> {
        match self {
            DataState::Ready => "Ready"@,
            DataState::Success => "Pass"@,
            DataState::Fail => "Fail"@,
        }
    }

    /// The word that shows a state.
    pub fn label(&self) -> (s: &'static str)
        ensures
            s@ == self.spec_label(),
    {
        match self {
            DataState::Ready => "Ready",
            DataState::Success => "Pass",
            DataState::Fail => "Fail",
        }
    }
}

/// The test bench. It lives in the primary window, so `id` stays the
/// primary window unless the bench is opened in a window of its own.
#[derive(Debug)]
pub struct App {
    pub flag: Config,
    pub id: WindowId,
    pub state: DataState,
}

/// What a test bench holds.
pub struct AppView {
    pub flag: ConfigView,
    pub id: WindowId,
    pub state: DataState,
}

impl View for App {
    type V = AppView;

    open spec fn view(&self) -> AppView {
        AppView { flag: self.flag@, id: self.id, state: self.state }
    }
}

impl AppView {
    /// True while the bench has a window of its own.
    pub open spec fn exist(self) -> bool {
        self.id != WindowId::main()
    }
}

impl App {
    /// What a window for the bench is opened with.
    pub open spec fn spec_settings(cfg: UserCfg) -> WindowSettings {
        WindowSettings {
            width: cfg.width,
            height: cfg.height,
            min_width: cfg.width,
            min_height: cfg.height,
            position: Position::Default,
            resizable: cfg.resizable,
            decorations: cfg.decorations,
            transparent: cfg.transparent,
            exit_on_close_request: true,
        }
    }

    /// The title of the bench.
    pub open spec fn spec_title() -> Seq<char> {
        "主窗口"@
    }

    /// True while the bench has a window of its own.
    pub open spec fn spec_exist(&self) -> bool {
        self.id != WindowId::main()
    }
}

impl Default for App {
    /// A test bench with the empty configuration.
    fn default() -> (app: App)
        ensures
            app@ == (AppView {
                flag: ConfigView::empty(),
                id: WindowId::main(),
                state: DataState::Success,
            }),
    {
        App::new(Config::default())
    }
}

impl AppWindow for App {
    type Flag = Config;

    type Setting = Config;

    type Event = Message;

    open spec fn window(&self) -> WindowId {
        self.id
    }

    open spec fn spawn_settings(&self) -> WindowSettings {
        App::spec_settings(self.flag.user_cfg)
    }

    /// A test bench without a window of its own.
    fn new(flag: Config) -> (app: App)
        ensures
            app@ == (AppView { flag: flag@, id: WindowId::main(), state: DataState::Success }),
    {
        App { id: WindowId::main(), flag, state: DataState::Success }
    }

    /// What a window for the bench is opened with.
    fn settings(flag: Config) -> (s: WindowSettings)
        ensures
            s == App::spec_settings(flag.user_cfg),
    {
        let cfg = flag.user_cfg;
        WindowSettings {
            width: cfg.width,
            height: cfg.height,
            min_width: cfg.width,
            min_height: cfg.height,
            position: Position::Default,
            resizable: cfg.resizable,
            decorations: cfg.decorations,
            transparent: cfg.transparent,
            exit_on_close_request: true,
        }
    }

    /// The title of the bench.
    fn title(&self) -> (t: String)
        ensures
            t@ == App::spec_title(),
    {
        String::from_str("主窗口")
    }

    /// Opens a window for the bench, or brings it to the front where it
    /// is open already. Nothing happens once the identifiers are used up.
    fn create(&mut self, ids: &mut WindowIds) -> (cmds: Vec<Command>)
        ensures
            final(self)@ == (AppView { id: final(self).id, ..old(self)@ }),
            views(cmds@) == (if old(self).spec_exist() {
                seq![CommandView::Show(old(self).id), CommandView::Focus(old(self).id)]
            } else {
                match old(ids).upcoming() {
                    Some(id) => seq![
                        CommandView::Spawn(id, App::spec_settings(old(self).flag.user_cfg)),
                    ],
                    None => seq![],
                }
            }),
    {
        let mut cmds: Vec<Command> = Vec::new();
        if self.exist() {
            cmds.push(Command::Show(self.id));
            cmds.push(Command::Focus(self.id));
        } else {
            match ids.fresh() {
                Some(id) => {
                    self.id = id;
                    cmds.push(Command::Spawn(id, App::settings(self.flag.clone())));
                },
                None => {},
            }
        }
        cmds
    }

    /// Closes the window of the bench. Nothing happens where it has
    /// none.
    fn close(&mut self) -> (cmds: Vec<Command>)
        ensures
            final(self)@ == (AppView { id: WindowId::main(), ..old(self)@ }),
    {
        let mut cmds: Vec<Command> = Vec::new();
        if self.exist() {
            cmds.push(Command::Close(self.id));
            self.id = WindowId::main();
        }
        cmds
    }

    /// Makes the window of the bench visible. Nothing happens where it
    /// has none.
    fn show(&self) -> (cmds: Vec<Command>) {
        let mut cmds: Vec<Command> = Vec::new();
        if self.exist() {
            cmds.push(Command::Show(self.id));
        }
        cmds
    }

    /// Gives the window of the bench the focus. Nothing happens where it
    /// has none.
    fn focus(&self) -> (cmds: Vec<Command>)
        ensures
            views(cmds@) == (if self.spec_exist() {
                seq![CommandView::Focus(self.id)]
            } else {
                seq![]
            }),
    {
        let mut cmds: Vec<Command> = Vec::new();
        if self.exist() {
            cmds.push(Command::Focus(self.id));
        }
        cmds
    }

    /// True while the bench has a window of its own.
    fn exist(&self) -> (r: bool) {
        !self.id.is_main()
    }

    /// Takes an event of the bench: nothing changes and nothing is asked
    /// for.
    fn update(&mut self, event: Message) -> (cmds: Vec<Command>)
        ensures
            final(self)@ == old(self)@,
            cmds@.len() == 0,
    {
        Vec::new()
    }

    /// The events that the bench listens to: none.
    fn subscription(&self) -> (subs: Vec<Subscription>)
        ensures
            subs@.len() == 0,
    {
        Vec::new()
    }
}

} // verus!
