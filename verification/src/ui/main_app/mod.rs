//! The application shell: the one place that opens, closes and focuses
//! windows and hands events to the view they belong to.

pub mod autotest;
pub mod laws;
pub mod model;

use vstd::prelude::*;
use vstd::view::View as _;

use crate::config::logger::{Level, Tag};
use crate::config::theme::{Button, Themes};
use crate::config::Config;
use crate::db::types::user::UserCfg;
use crate::event::Event;
use crate::ui::command::{append, views, Command, CommandView, Notice, Subscription};
use crate::ui::main_app::model::{
    closes_all, notice_loaded, notice_saved, AppView, MessageView, PayloadView,
};
use crate::ui::registry::WindowRegistry;
use crate::ui::window::{Position, WindowId, WindowIds, WindowSettings};
use crate::ui::{log_app, login_app, setting_app};

verus! {

/// The logical views of the application. Each has at most one window.
#[derive(Debug, Clone, Copy, PartialEq, Eq, Hash, PartialOrd, Ord, Structural)]
pub enum View {
    Main,
    Log,
    Setting,
    Login,
}

impl View {
    /// How the button of view `v` is drawn while this view is shown:
    /// pressed for the view itself, ready for every other.
    pub fn get_theme(&self, v: &View) -> (b: Button)
        ensures
            b == (if *self == *v {
                Button::Pressed
            } else {
                Button::Ready
            }),
    {
        if *self == *v {
            Button::Pressed
        } else {
            Button::Ready
        }
    }
}

/// What every view of the application can do with its window.
///
/// A view is closed or open. While it is closed it holds the primary
/// window in place of a window of its own. A request to open it gives it
/// a window once; closing it gives the window up, and closing it again
/// does nothing. No event opens or closes a window.
pub trait AppWindow: Sized {
    /// What a view is made from.
    type Flag;

    /// What the settings of a window are made from.
    type Setting;

    /// The events of the view.
    type Event;

    /// The window that the view holds.
    spec fn window(&self) -> WindowId;

    /// What a window for the view is opened with.
    spec fn spawn_settings(&self) -> WindowSettings;

    /// A closed view.
    fn new(flag: Self::Flag) -> (app: Self)
        ensures
            app.window() == WindowId::main(),
    ;

    /// What a window is opened with.
    fn settings(cfg: Self::Setting) -> (s: WindowSettings)
        ensures
            s.min_width == s.width,
            s.min_height == s.height,
    ;

    /// The title of the window.
    fn title(&self) -> (t: String);

    /// Opens the view: a closed view gets the next identifier and asks
    /// for its window to be spawned, an open view keeps its window and
    /// asks for it to be shown and focused. Once the identifiers are used
    /// up a closed view stays closed.
    fn create(&mut self, ids: &mut WindowIds) -> (cmds: Vec<Command>)
        requires
            old(ids).wf(),
        ensures
            final(ids).wf(),
            old(self).window() != WindowId::main() ==> {
                &&& final(self).window() == old(self).window()
                &&& final(ids).next == old(ids).next
                &&& cmds@.len() >= 2
                &&& cmds@[0]@ == CommandView::Show(old(self).window())
                &&& cmds@[1]@ == CommandView::Focus(old(self).window())
            },
            old(self).window() == WindowId::main() ==> (match old(ids).upcoming() {
                Some(id) => {
                    &&& final(self).window() == id
                    &&& final(ids).next == old(ids).next + 1
                    &&& views(cmds@) == seq![CommandView::Spawn(id, old(self).spawn_settings())]
                },
                None => {
                    &&& final(self).window() == WindowId::main()
                    &&& final(ids).next == old(ids).next
                    &&& cmds@.len() == 0
                },
            }),
    ;

    /// Closes the view: an open view gives its window up and asks for it
    /// to be closed, a closed view does nothing.
    fn close(&mut self) -> (cmds: Vec<Command>)
        ensures
            final(self).window() == WindowId::main(),
            views(cmds@) == (if old(self).window() != WindowId::main() {
                seq![CommandView::Close(old(self).window())]
            } else {
                seq![]
            }),
    ;

    /// Asks for the window to be shown. A closed view asks for nothing.
    fn show(&self) -> (cmds: Vec<Command>)
        ensures
            views(cmds@) == (if self.window() != WindowId::main() {
                seq![CommandView::Show(self.window())]
            } else {
                seq![]
            }),
    ;

    /// Asks for the window to get the focus, before anything else that
    /// the view asks for with it. A closed view asks for nothing.
    fn focus(&self) -> (cmds: Vec<Command>)
        ensures
            self.window() == WindowId::main() ==> cmds@.len() == 0,
            self.window() != WindowId::main() ==> cmds@.len() >= 1 && cmds@[0]@
                == CommandView::Focus(self.window()),
    ;

    /// True while the view is open.
    fn exist(&self) -> (r: bool)
        ensures
            r == (self.window() != WindowId::main()),
    ;

    /// Takes an event of the view. The view keeps its window.
    fn update(&mut self, event: Self::Event) -> (cmds: Vec<Command>)
        ensures
            final(self).window() == old(self).window(),
    ;

    /// The events that the view listens to.
    fn subscription(&self) -> (subs: Vec<Subscription>);
}

/// What the shell reacts to.
#[derive(Debug)]
pub enum Message {
    /// A keyboard or window event.
    Event(Event),
    /// Store the configuration as the settings window holds it.
    SaveConfig,
    /// Read the configuration from the store.
    LoadConfig,
    /// The store answered a read: the configuration, or what went wrong.
    LoadConfigResult(Result<Config, String>),
    /// The store answered a write: the configuration, or what went wrong.
    SaveConfigResult(Result<Config, String>),
    /// The fonts were loaded, or not.
    FontLoaded(bool),
    /// An event of the log viewer.
    LogEvent(log_app::Message),
    /// An event of the login window.
    LoginEvent(login_app::Message),
    /// An event of the test bench.
    AutotestEvent(autotest::Message),
    /// An event of the settings window.
    SettingEvent(setting_app::Message),
    /// Open a view that stands behind the login.
    Login(View),
    /// Open the log viewer, which stands behind the login.
    LogPressed,
    /// Show the test bench in the primary window.
    MainPressed,
    /// Nothing.
    Ignore,
}

/// An event of one window, for the view that the window shows.
#[derive(Debug)]
pub enum Payload {
    Log(log_app::Message),
    Login(login_app::Message),
    Setting(setting_app::Message),
    Autotest(autotest::Message),
}

impl vstd::view::View for Payload {
    type V = PayloadView;

    open spec fn view(&self) -> PayloadView {
        match self {
            Payload::Log(e) => PayloadView::Log(*e),
            Payload::Login(e) => PayloadView::Login(e@),
            Payload::Setting(e) => PayloadView::Setting(e@),
            Payload::Autotest(e) => PayloadView::Autotest(*e),
        }
    }
}

impl vstd::view::View for Message {
    type V = MessageView;

    open spec fn view(&self) -> MessageView {
        match self {
            Message::Event(e) => MessageView::Event(*e),
            Message::SaveConfig => MessageView::SaveConfig,
            Message::LoadConfig => MessageView::LoadConfig,
            Message::LoadConfigResult(r) => MessageView::LoadConfigResult(
                match r {
                    Ok(c) => Ok(c@),
                    Err(e) => Err(e@),
                },
            ),
            Message::SaveConfigResult(r) => MessageView::SaveConfigResult(
                match r {
                    Ok(c) => Ok(c@),
                    Err(e) => Err(e@),
                },
            ),
            Message::FontLoaded(ok) => MessageView::FontLoaded(*ok),
            Message::LogEvent(e) => MessageView::LogEvent(*e),
            Message::LoginEvent(e) => MessageView::LoginEvent(e@),
            Message::AutotestEvent(e) => MessageView::AutotestEvent(*e),
            Message::SettingEvent(e) => MessageView::SettingEvent(e@),
            Message::Login(view) => MessageView::Login(*view),
            Message::LogPressed => MessageView::LogPressed,
            Message::MainPressed => MessageView::MainPressed,
            Message::Ignore => MessageView::Ignore,
        }
    }
}

impl Clone for Payload {
    fn clone(&self) -> (r: Payload)
        ensures
            r@ == self@,
    {
        match self {
            Payload::Log(e) => Payload::Log(*e),
            Payload::Login(e) => Payload::Login(e.clone()),
            Payload::Setting(e) => Payload::Setting(e.clone()),
            Payload::Autotest(e) => Payload::Autotest(*e),
        }
    }
}

impl Clone for Message {
    fn clone(&self) -> (r: Message)
        ensures
            r@ == self@,
    {
        match self {
            Message::Event(e) => Message::Event(*e),
            Message::SaveConfig => Message::SaveConfig,
            Message::LoadConfig => Message::LoadConfig,
            Message::LoadConfigResult(res) => Message::LoadConfigResult(
                match res {
                    Ok(c) => Ok(c.clone()),
                    Err(e) => Err(e.clone()),
                },
            ),
            Message::SaveConfigResult(res) => Message::SaveConfigResult(
                match res {
                    Ok(c) => Ok(c.clone()),
                    Err(e) => Err(e.clone()),
                },
            ),
            Message::FontLoaded(ok) => Message::FontLoaded(*ok),
            Message::LogEvent(e) => Message::LogEvent(*e),
            Message::LoginEvent(e) => Message::LoginEvent(e.clone()),
            Message::AutotestEvent(e) => Message::AutotestEvent(*e),
            Message::SettingEvent(e) => Message::SettingEvent(e.clone()),
            Message::Login(view) => Message::Login(*view),
            Message::LogPressed => Message::LogPressed,
            Message::MainPressed => Message::MainPressed,
            Message::Ignore => Message::Ignore,
        }
    }
}

/// The application shell.
#[derive(Debug)]
pub struct App {
    /// The primary window.
    pub id: WindowId,
    /// The window that got the focus last.
    pub focused_id: WindowId,
    /// The view that the primary window shows.
    pub view: View,
    /// The configuration in force.
    pub flag: Config,
    pub log_app: log_app::App,
    pub login_app: login_app::App,
    pub setting_app: setting_app::App,
    pub autotest: autotest::App,
    /// The open windows and the view that each shows.
    pub window_flags: WindowRegistry,
    /// The source of window identifiers.
    pub ids: WindowIds,
    /// Whether a login went through.
    pub authenticated: bool,
}

impl vstd::view::View for App {
    type V = AppView;

    open spec fn view(&self) -> AppView {
        AppView {
            id: self.id,
            focused_id: self.focused_id,
            view: self.view,
            flag: self.flag@,
            log_app: self.log_app,
            login_app: self.login_app@,
            setting_app: self.setting_app@,
            autotest: self.autotest@,
            window_flags: self.window_flags@,
            next: self.ids.next,
            authenticated: self.authenticated,
        }
    }
}

/// What the application starts with.
#[derive(Debug)]
pub struct Settings {
    /// The size of text that widgets fall back on, in whole pixels.
    pub default_text_size: u32,
    pub antialiasing: bool,
    /// The name of the font that widgets fall back on.
    pub default_font: String,
    /// What the primary window is opened with.
    pub window: WindowSettings,
    /// The configuration that the shell starts with.
    pub flags: Config,
}

impl App {
    /// The shell is consistent. See `AppView::wf`.
    pub open spec fn wf(&self) -> bool {
        self@.wf()
    }

    /// What the primary window is opened with under the preferences
    /// `cfg`.
    pub open spec fn spec_window(cfg: UserCfg) -> WindowSettings {
        WindowSettings {
            width: cfg.width,
            height: cfg.height,
            min_width: cfg.width,
            min_height: cfg.height,
            position: Position::Centered,
            resizable: cfg.resizable,
            decorations: cfg.decorations,
            transparent: cfg.transparent,
            exit_on_close_request: true,
        }
    }

    /// What the application starts with under the configuration
    /// `config`: the primary window in the middle of the screen at the
    /// preferred size, which is also its smallest.
    pub fn setting_global(config: Config) -> (s: Settings)
        ensures
            s.default_text_size == config.user_cfg.default_text_size,
            !s.antialiasing,
            s.default_font@ == "阿里妈妈东方大楷"@,
            s.window == App::spec_window(config.user_cfg),
            s.flags == config,
    {
        let cfg = config.user_cfg;
        Settings {
            default_text_size: cfg.default_text_size,
            antialiasing: false,
            default_font: String::from_str("阿里妈妈东方大楷"),
            window: WindowSettings {
                width: cfg.width,
                height: cfg.height,
                min_width: cfg.width,
                min_height: cfg.height,
                position: Position::Centered,
                resizable: cfg.resizable,
                decorations: cfg.decorations,
                transparent: cfg.transparent,
                exit_on_close_request: true,
            },
            flags: config,
        }
    }

    /// The shell as it starts: only the primary window is open, it shows
    /// the main view, and no login went through yet. The fonts are asked
    /// for.
    pub fn new(flags: Config) -> (r: (App, Vec<Command>))
        ensures
            r.0.wf(),
            r.0@ == (AppView {
                id: WindowId::main(),
                focused_id: WindowId::main(),
                view: View::Main,
                flag: flags@,
                log_app: log_app::App {
                    flag: flags.user_cfg,
                    id: WindowId::main(),
                    state: false,
                },
                login_app: login_app::AppView {
                    view: View::Login,
                    flag: login_app::App::spec_default_flag(),
                    id: WindowId::main(),
                    passwd: Seq::empty(),
                    name: Seq::empty(),
                    focus: login_app::Focus::Unset,
                },
                setting_app: setting_app::AppView {
                    view: setting_app::View::Main,
                    flag: flags@,
                    id: WindowId::main(),
                },
                autotest: autotest::AppView {
                    flag: flags@,
                    id: WindowId::main(),
                    state: autotest::DataState::Success,
                },
                window_flags: Map::<WindowId, View>::empty().insert(WindowId::main(), View::Main),
                next: 1,
                authenticated: false,
            }),
            views(r.1@) == seq![CommandView::LoadFonts],
    {
        let mut window_flags = WindowRegistry::new();
        window_flags.register(WindowId::main(), View::Main);
        let app = App {
            id: WindowId::main(),
            focused_id: WindowId::main(),
            view: View::Main,
            log_app: log_app::App::new(flags.user_cfg),
            login_app: login_app::App::default(),
            setting_app: setting_app::App::new(flags.clone()),
            autotest: autotest::App::new(flags.clone()),
            window_flags,
            ids: WindowIds::new(),
            authenticated: false,
            flag: flags,
        };
        let mut cmds: Vec<Command> = Vec::new();
        cmds.push(Command::LoadFonts);
        assert(app@.wf()) by {
            reveal(AppView::wf);
        }
        (app, cmds)
    }

    /// Makes `flag` the configuration in force, for the shell and for
    /// every view.
    pub fn update_cfg(&mut self, flag: Config)
        ensures
            final(self)@ == old(self)@.config_applied(flag@),
            old(self).wf() ==> final(self).wf(),
    {
        reveal(AppView::config_applied);
        self.setting_app.flag = flag.clone();
        self.autotest.flag = flag.clone();
        self.log_app.flag = flag.user_cfg;
        self.login_app.flag = flag.user_cfg;
        self.flag = flag;
        proof {
            if old(self).wf() {
                laws::lemma_config_applied_wf(old(self)@, flag@);
            }
        }
    }

    /// Records window `id` for `kind`, unless `id` is recorded already.
    fn register_once(&mut self, id: WindowId, kind: View)
        ensures
            final(self)@ == old(self)@.registered(id, kind),
    {
        if self.window_flags.resolve(id).is_none() {
            self.window_flags.register(id, kind);
        }
    }

    /// The title of window `id`: the description and the version of the
    /// package for the primary window, the title of its view for the
    /// window of a view, and a fixed text for any other window.
    pub fn title(&self, id: WindowId) -> (t: String)
        ensures
            t@ == self@.title(id),
    {
        if id == self.id {
            let mut t = self.flag.cargo.package.description.clone();
            t.append(" v");
            t.append(self.flag.cargo.package.version.as_str());
            t
        } else if id == self.log_app.id {
            self.log_app.title()
        } else if id == self.setting_app.id {
            self.setting_app.title()
        } else if id == self.login_app.id {
            self.login_app.title()
        } else {
            String::from_str("Unknown Window Id")
        }
    }

    /// The theme in which every window is drawn: the one that the
    /// settings window holds.
    pub fn theme(&self, id: WindowId) -> (t: Themes)
        ensures
            t == self.setting_app.flag.user_cfg.theme,
    {
        self.setting_app.flag.user_cfg.theme
    }

    /// The events that the shell listens to: the keyboard and window
    /// events, and nothing for any view.
    pub fn subscription(&self) -> (subs: Vec<Subscription>)
        ensures
            subs@ == seq![Subscription::Events],
    {
        let mut subs: Vec<Subscription> = Vec::new();
        subs.push(crate::event::events());
        let mut more = self.log_app.subscription();
        subs.append(&mut more);
        let mut more = self.setting_app.subscription();
        subs.append(&mut more);
        subs
    }

    /// Brings the primary window to the front and records it.
    #[verifier::spinoff_prover]
    fn create_main(&mut self) -> (cmds: Vec<Command>)
        ensures
            final(self)@ == old(self)@.created(View::Main),
            views(cmds@) == old(self)@.create_commands(View::Main),
    {
        reveal(AppView::created);
        reveal(AppView::create_commands);
        let mut cmds: Vec<Command> = Vec::new();
        cmds.push(Command::Show(self.id));
        cmds.push(Command::Focus(self.id));
        self.register_once(self.id, View::Main);
        cmds
    }

    /// Opens the log viewer and records its window.
    #[verifier::spinoff_prover]
    fn create_log(&mut self) -> (cmds: Vec<Command>)
        requires
            old(self).ids.wf(),
        ensures
            final(self)@ == old(self)@.created(View::Log),
            views(cmds@) == old(self)@.create_commands(View::Log),
    {
        reveal(AppView::created);
        reveal(AppView::create_commands);
        let cmds = self.log_app.create(&mut self.ids);
        if self.log_app.exist() {
            self.register_once(self.log_app.id, View::Log);
        }
        cmds
    }

    /// Opens the settings and records their window.
    #[verifier::spinoff_prover]
    fn create_setting(&mut self) -> (cmds: Vec<Command>)
        requires
            old(self).ids.wf(),
        ensures
            final(self)@ == old(self)@.created(View::Setting),
            views(cmds@) == old(self)@.create_commands(View::Setting),
    {
        reveal(AppView::created);
        reveal(AppView::create_commands);
        let cmds = self.setting_app.create(&mut self.ids);
        if self.setting_app.exist() {
            self.register_once(self.setting_app.id, View::Setting);
        }
        cmds
    }

    /// Opens the login window and records it.
    #[verifier::spinoff_prover]
    fn create_login(&mut self) -> (cmds: Vec<Command>)
        requires
            old(self).ids.wf(),
        ensures
            final(self)@ == old(self)@.created(View::Login),
            views(cmds@) == old(self)@.create_commands(View::Login),
    {
        reveal(AppView::created);
        reveal(AppView::create_commands);
        let cmds = self.login_app.create(&mut self.ids);
        if self.login_app.exist() {
            self.register_once(self.login_app.id, View::Login);
        }
        cmds
    }

    /// Opens `view`, or brings its window to the front where it is open
    /// already, and records the window.
    ///
    /// Asking again changes nothing: a view never gets a second window.
    pub fn create(&mut self, view: View) -> (cmds: Vec<Command>)
        requires
            old(self).wf(),
        ensures
            final(self).wf(),
            final(self)@ == old(self)@.created(view),
            views(cmds@) == old(self)@.create_commands(view),
    {
        proof {
            laws::lemma_next_is_positive(old(self)@);
            laws::lemma_created_wf(old(self)@, view);
        }
        match view {
            View::Main => self.create_main(),
            View::Log => self.create_log(),
            View::Setting => self.create_setting(),
            View::Login => self.create_login(),
        }
    }

    /// Closes every recorded window, each once and in no fixed order,
    /// and leaves every view closed. This is what the closing of the
    /// primary window comes to.
    #[verifier::spinoff_prover]
    pub fn close_all(&mut self) -> (cmds: Vec<Command>)
        ensures
            final(self)@ == old(self)@.closed_all(),
            closes_all(views(cmds@), old(self)@.window_flags),
            old(self).wf() ==> final(self).wf(),
    {
        reveal(AppView::closed_all);
        let entries = self.window_flags.drain();
        let mut cmds: Vec<Command> = Vec::new();
        let mut i: usize = 0;
        while i < entries.len()
            invariant
                i <= entries.len(),
                cmds@.len() == i,
                forall|j: int| 0 <= j < i ==> (#[trigger] cmds@[j])@ == CommandView::Close(entries@[j].0),
            decreases entries.len() - i,
        {
            cmds.push(Command::Close(entries[i].0));
            i = i + 1;
        }
        let _ = self.log_app.close();
        let _ = self.setting_app.close();
        let _ = self.login_app.close();
        proof {
            let out = views(cmds@);
            let windows = old(self)@.window_flags;
            assert forall|k: int| 0 <= k < out.len() implies (match #[trigger] out[k] {
                CommandView::Close(id) => windows.contains_key(id),
                _ => false,
            }) by {
                assert(windows.contains_pair(entries@[k].0, entries@[k].1));
            }
            assert forall|id: WindowId| #[trigger] windows.contains_key(id) implies out.contains(
                CommandView::Close(id),
            ) by {
                let k = choose|k: int| 0 <= k < entries@.len() && (#[trigger] entries@[k]).0 == id;
                assert(out[k] == CommandView::Close(id));
            }
            assert forall|a: int, b: int|
                0 <= a < out.len() && 0 <= b < out.len() && a != b implies out[a] != out[b] by {}
            if old(self).wf() {
                laws::lemma_closed_all_wf(old(self)@);
            }
        }
        cmds
    }

    /// Closes window `id` and takes it off the record.
    ///
    /// A window that is not recorded is left alone: nothing changes and
    /// nothing is asked for, however often it is tried. The primary
    /// window takes every other window with it. For any other window
    /// its view is closed.
    #[verifier::spinoff_prover]
    pub fn close(&mut self, id: WindowId) -> (cmds: Vec<Command>)
        ensures
            final(self)@ == old(self)@.closed(id),
            !old(self)@.window_flags.contains_key(id) ==> final(self)@ == old(self)@ && cmds@.len()
                == 0,
            old(self)@.window_flags.contains_key(id) && id == old(self).id ==> closes_all(
                views(cmds@),
                old(self)@.window_flags,
            ),
            !(old(self)@.window_flags.contains_key(id) && id == old(self).id) ==> views(cmds@)
                == old(self)@.close_commands(id),
            old(self).wf() ==> final(self).wf(),
    {
        reveal(AppView::closed);
        reveal(AppView::close_commands);
        proof {
            if old(self).wf() {
                laws::lemma_closed_wf(old(self)@, id);
            }
        }
        match self.window_flags.resolve(id) {
            None => {
                let cmds: Vec<Command> = Vec::new();
                cmds
            },
            Some(kind) => {
                if id == self.id {
                    self.close_all()
                } else {
                    let _ = self.window_flags.unregister(id);
                    match kind {
                        View::Main => {
                            let mut cmds: Vec<Command> = Vec::new();
                            cmds.push(Command::Close(id));
                            cmds
                        },
                        View::Log => self.log_app.close(),
                        View::Setting => self.setting_app.close(),
                        View::Login => self.login_app.close(),
                    }
                }
            },
        }
    }

    /// Asks for the configuration to be stored as the settings window
    /// holds it.
    fn save_config(&self) -> (cmds: Vec<Command>)
        ensures
            views(cmds@) == self@.save_commands(),
    {
        let mut cmds: Vec<Command> = Vec::new();
        cmds.push(Command::Save(self.setting_app.flag.clone()));
        cmds
    }

    /// Asks for the configuration to be read.
    fn load_config(&self) -> (cmds: Vec<Command>)
        ensures
            views(cmds@) == AppView::load_commands(),
    {
        let mut cmds: Vec<Command> = Vec::new();
        cmds.push(Command::Load(0));
        cmds
    }

    /// Moves the cursor on in the login window, where that window is
    /// open and has the focus.
    fn focus_follow(&self) -> (cmds: Vec<Command>)
        ensures
            views(cmds@) == self@.focus_follow_commands(),
    {
        if self.login_app.exist() && self.focused_id == self.login_app.id {
            self.login_app.focus()
        } else {
            let cmds: Vec<Command> = Vec::new();
            cmds
        }
    }

    /// Hands an event of window `id` to the view that the window shows.
    ///
    /// An event of a window that is not recorded is dropped: nothing
    /// changes and nothing is asked for. So is an event that is not
    /// meant for the view of the window.
    #[verifier::spinoff_prover]
    pub fn route_event(&mut self, id: WindowId, payload: Payload) -> (cmds: Vec<Command>)
        requires
            old(self).wf(),
        ensures
            final(self).wf(),
            final(self)@ == old(self)@.routed(id, payload@),
            views(cmds@) == old(self)@.route_commands(id, payload@),
            !old(self)@.window_flags.contains_key(id) ==> final(self)@ == old(self)@ && cmds@.len()
                == 0,
    {
        reveal(AppView::routed);
        reveal(AppView::route_commands);
        reveal(AppView::logged_in);
        reveal(AppView::logged_in_commands);
        proof {
            laws::lemma_routed_wf(old(self)@, id, payload@);
            if old(self)@.window_flags.contains_key(id) {
                laws::lemma_recorded_window(old(self)@, id);
            }
        }
        let kind = match self.window_flags.resolve(id) {
            None => {
                let cmds: Vec<Command> = Vec::new();
                return cmds;
            },
            Some(kind) => kind,
        };
        match (kind, payload) {
            (View::Login, Payload::Login(e)) => match e {
                login_app::Message::Result(status) => {
                    if status {
                        let login = self.login_app.id;
                        let target = self.login_app.view;
                        let mut cmds = self.close(login);
                        let more = self.create(target);
                        append(&mut cmds, more);
                        self.authenticated = true;
                        cmds
                    } else {
                        let cmds: Vec<Command> = Vec::new();
                        cmds
                    }
                },
                e => self.login_app.update(e),
            },
            (View::Setting, Payload::Setting(e)) => match e {
                setting_app::Message::Save => self.save_config(),
                setting_app::Message::ReLoad => self.load_config(),
                e => {
                    let cmds = self.setting_app.update(e);
                    cmds
                },
            },
            (View::Log, Payload::Log(e)) => {
                let cmds = self.log_app.update(e);
                cmds
            },
            (View::Main, Payload::Autotest(e)) => {
                let cmds = self.autotest.update(e);
                cmds
            },
            _ => {
                let cmds: Vec<Command> = Vec::new();
                cmds
            },
        }
    }

    /// Takes a keyboard or window event.
    #[verifier::spinoff_prover]
    fn on_event(&mut self, event: Event) -> (cmds: Vec<Command>)
        requires
            old(self).wf(),
        ensures
            final(self)@ == old(self)@.updated(MessageView::Event(event)),
            event == Event::Closed(old(self).id) ==> closes_all(
                views(cmds@),
                old(self)@.window_flags,
            ),
            event != Event::Closed(old(self).id) ==> views(cmds@) == old(self)@.update_commands(
                MessageView::Event(event),
            ),
    {
        reveal(AppView::updated);
        reveal(AppView::update_commands);
        match event {
            Event::ChangeBit => self.focus_follow(),
            Event::Closed(id) => {
                if id == self.id {
                    self.close_all()
                } else {
                    self.close(id)
                }
            },
            Event::Save => self.save_config(),
            Event::Load => self.load_config(),
            Event::Focused(id) => {
                self.focused_id = id;
                self.focus_follow()
            },
            Event::Clear | Event::CloseRequested | Event::Delete => {
                let cmds: Vec<Command> = Vec::new();
                cmds
            },
        }
    }

    /// Takes the answer of the store to a read: a configuration comes
    /// into force, a failure changes nothing, and a dialog tells of
    /// either.
    #[verifier::spinoff_prover]
    fn on_load_result(&mut self, res: Result<Config, String>) -> (cmds: Vec<Command>)
        requires
            old(self).wf(),
        ensures
            final(self)@ == old(self)@.updated(Message::LoadConfigResult(res)@),
            views(cmds@) == old(self)@.update_commands(Message::LoadConfigResult(res)@),
    {
        reveal(AppView::updated);
        reveal(AppView::update_commands);
        let mut cmds: Vec<Command> = Vec::new();
        match res {
            Ok(cfg) => {
                self.update_cfg(cfg);
                let notice = Notice::new(Level::Info, "配置", "成功加载配置", "", Tag::DatabaseOffline);
                assert(notice@ == notice_loaded()) by {
                    reveal_strlit("");
                }
                cmds.push(Command::Notify(notice));
            },
            Err(e) => {
                let notice = Notice::new(
                    Level::Error,
                    "配置",
                    "加载配置失败: ",
                    e.as_str(),
                    Tag::DatabaseOffline,
                );
                cmds.push(Command::Notify(notice));
            },
        }
        cmds
    }

    /// Takes the answer of the store to a write: a stored configuration
    /// comes into force and closes the settings window, a failure
    /// changes nothing, and a dialog tells of either.
    #[verifier::spinoff_prover]
    fn on_save_result(&mut self, res: Result<Config, String>) -> (cmds: Vec<Command>)
        requires
            old(self).wf(),
        ensures
            final(self)@ == old(self)@.updated(Message::SaveConfigResult(res)@),
            views(cmds@) == old(self)@.update_commands(Message::SaveConfigResult(res)@),
    {
        reveal(AppView::saved);
        reveal(AppView::saved_commands);
        reveal(AppView::updated);
        reveal(AppView::update_commands);
        match res {
            Ok(conf) => {
                self.update_cfg(conf);
                proof {
                    laws::lemma_next_is_positive(self@);
                }
                let mut cmds = if self.setting_app.exist() {
                    self.close(self.setting_app.id)
                } else {
                    Vec::new()
                };
                let notice = Notice::new(
                    Level::Info,
                    "保存配置",
                    "成功保存配置",
                    "",
                    Tag::DatabaseOffline,
                );
                assert(notice@ == notice_saved()) by {
                    reveal_strlit("");
                }
                let mut done: Vec<Command> = Vec::new();
                done.push(Command::Notify(notice));
                append(&mut cmds, done);
                cmds
            },
            Err(e) => {
                let mut cmds: Vec<Command> = Vec::new();
                let notice = Notice::new(
                    Level::Error,
                    "配置",
                    "保存配置失败: ",
                    e.as_str(),
                    Tag::DatabaseOffline,
                );
                cmds.push(Command::Notify(notice));
                cmds
            },
        }
    }

    /// Takes a request for a view that stands behind the login: once a
    /// login went through the view is opened, and until then the view is
    /// remembered and the login window is opened in its place.
    #[verifier::spinoff_prover]
    pub fn request(&mut self, view: View) -> (cmds: Vec<Command>)
        requires
            old(self).wf(),
        ensures
            final(self).wf(),
            final(self)@ == old(self)@.requested(view),
            views(cmds@) == old(self)@.request_commands(view),
    {
        reveal(AppView::requested);
        reveal(AppView::request_commands);
        reveal(AppView::login_requested);
        reveal(AppView::login_request_commands);
        proof {
            laws::lemma_requested_wf(old(self)@, view);
        }
        if self.authenticated {
            self.create(view)
        } else {
            self.login_app.view = view;
            proof {
                laws::lemma_target_set_wf(old(self)@, view);
            }
            self.create(View::Login)
        }
    }

    /// Takes a request for a view behind the login, as a message asks
    /// for it.
    fn request_login(&mut self, view: View) -> (cmds: Vec<Command>)
        requires
            old(self).wf(),
        ensures
            final(self)@ == old(self)@.updated(MessageView::Login(view)),
            views(cmds@) == old(self)@.update_commands(MessageView::Login(view)),
    {
        reveal(AppView::updated);
        reveal(AppView::update_commands);
        self.request(view)
    }

    /// Takes a request for the log viewer, which stands behind the
    /// login.
    fn open_log(&mut self) -> (cmds: Vec<Command>)
        requires
            old(self).wf(),
        ensures
            final(self)@ == old(self)@.updated(MessageView::LogPressed),
            views(cmds@) == old(self)@.update_commands(MessageView::LogPressed),
    {
        reveal(AppView::updated);
        reveal(AppView::update_commands);
        self.request(View::Log)
    }

    /// Shows the test bench in the primary window.
    fn show_main(&mut self) -> (cmds: Vec<Command>)
        ensures
            final(self)@ == old(self)@.updated(MessageView::MainPressed),
            views(cmds@) == old(self)@.update_commands(MessageView::MainPressed),
    {
        reveal(AppView::updated);
        reveal(AppView::update_commands);
        self.view = View::Main;
        let cmds: Vec<Command> = Vec::new();
        cmds
    }

    /// Takes an event of a view and hands it on through the window that
    /// the view holds.
    #[verifier::spinoff_prover]
    fn on_view_event(&mut self, payload: Payload) -> (cmds: Vec<Command>)
        requires
            old(self).wf(),
        ensures
            final(self)@ == old(self)@.updated(AppView::message_of(payload@)),
            views(cmds@) == old(self)@.update_commands(AppView::message_of(payload@)),
    {
        reveal(AppView::updated);
        reveal(AppView::update_commands);
        let id = match payload {
            Payload::Log(_) => self.log_app.id,
            Payload::Login(_) => self.login_app.id,
            Payload::Setting(_) => self.setting_app.id,
            Payload::Autotest(_) => self.id,
        };
        self.route_event(id, payload)
    }

    /// Takes a message that changes nothing and asks for nothing.
    fn nothing(&self, message: &Message) -> (cmds: Vec<Command>)
        requires
            message@ == MessageView::Ignore || message@ is FontLoaded,
        ensures
            self@ == self@.updated(message@),
            views(cmds@) == self@.update_commands(message@),
    {
        reveal(AppView::updated);
        reveal(AppView::update_commands);
        let cmds: Vec<Command> = Vec::new();
        cmds
    }

    /// Asks for the configuration to be stored or read, as a message
    /// of its own asks for it.
    fn on_config_request(&self, save: bool) -> (cmds: Vec<Command>)
        ensures
            save ==> self@ == self@.updated(MessageView::SaveConfig) && views(cmds@)
                == self@.update_commands(MessageView::SaveConfig),
            !save ==> self@ == self@.updated(MessageView::LoadConfig) && views(cmds@)
                == self@.update_commands(MessageView::LoadConfig),
    {
        reveal(AppView::updated);
        reveal(AppView::update_commands);
        if save {
            self.save_config()
        } else {
            self.load_config()
        }
    }

    /// Takes a message and says what is to be done about it.
    ///
    /// Events of a view go to the view through the window that the view
    /// holds, so an event for a closed view is dropped. A view behind
    /// the login gets the login window first, until a login went
    /// through. The closing of the primary window closes every window,
    /// and its requests come in no fixed order.
    #[verifier::spinoff_prover]
    pub fn update(&mut self, message: Message) -> (cmds: Vec<Command>)
        requires
            old(self).wf(),
        ensures
            final(self).wf(),
            final(self)@ == old(self)@.updated(message@),
            old(self)@.closes_primary(message@) ==> closes_all(
                views(cmds@),
                old(self)@.window_flags,
            ),
            !old(self)@.closes_primary(message@) ==> views(cmds@) == old(self)@.update_commands(
                message@,
            ),
    {
        proof {
            laws::lemma_updated_wf(old(self)@, message@);
        }
        match message {
            Message::AutotestEvent(e) => self.on_view_event(Payload::Autotest(e)),
            Message::MainPressed => self.show_main(),
            Message::LogPressed => self.open_log(),
            Message::Login(view) => self.request_login(view),
            Message::LoginEvent(e) => self.on_view_event(Payload::Login(e)),
            Message::FontLoaded(_) => self.nothing(&message),
            Message::SaveConfig => self.on_config_request(true),
            Message::LoadConfig => self.on_config_request(false),
            Message::LoadConfigResult(res) => self.on_load_result(res),
            Message::SaveConfigResult(res) => self.on_save_result(res),
            Message::Event(event) => self.on_event(event),
            Message::LogEvent(e) => self.on_view_event(Payload::Log(e)),
            Message::SettingEvent(e) => self.on_view_event(Payload::Setting(e)),
            Message::Ignore => self.nothing(&message),
        }
    }
}

} // verus!
