//! The shell as a value: what it holds, and what every operation makes
//! of it and asks for.

use vstd::prelude::*;

use crate::config::logger::{Level, Tag};
use crate::config::ConfigView;
use crate::event::Event;
use crate::ui::command::{CommandView, NoticeView};
use crate::ui::main_app::autotest;
use crate::ui::main_app;
use crate::ui::window::WindowId;
use crate::ui::{log_app, login_app, setting_app};

verus! {

/// What a `Payload` holds.
pub enum PayloadView {
    Log(log_app::Message),
    Login(login_app::MessageView),
    Setting(setting_app::MessageView),
    Autotest(autotest::Message),
}

/// What a `Message` holds.
pub enum MessageView {
    Event(Event),
    SaveConfig,
    LoadConfig,
    LoadConfigResult(Result<ConfigView, Seq<char>>),
    SaveConfigResult(Result<ConfigView, Seq<char>>),
    FontLoaded(bool),
    LogEvent(log_app::Message),
    LoginEvent(login_app::MessageView),
    AutotestEvent(autotest::Message),
    SettingEvent(setting_app::MessageView),
    Login(main_app::View),
    LogPressed,
    MainPressed,
    Ignore,
}

/// What the shell holds.
pub struct AppView {
    pub id: WindowId,
    pub focused_id: WindowId,
    pub view: main_app::View,
    pub flag: ConfigView,
    pub log_app: log_app::App,
    pub login_app: login_app::AppView,
    pub setting_app: setting_app::AppView,
    pub autotest: autotest::AppView,
    pub window_flags: Map<WindowId, main_app::View>,
    /// The number of the next window identifier.
    pub next: u64,
    /// Whether a login went through.
    pub authenticated: bool,
}

/// The dialog that tells of a configuration that was read.
pub open spec fn notice_loaded() -> NoticeView {
    NoticeView {
        level: Level::Info,
        title: "配置"@,
        message: "成功加载配置"@,
        tag: Tag::DatabaseOffline,
    }
}

/// The dialog that tells of a configuration that could not be read.
pub open spec fn notice_load_failed(e: Seq<char>) -> NoticeView {
    NoticeView {
        level: Level::Error,
        title: "配置"@,
        message: "加载配置失败: "@ + e,
        tag: Tag::DatabaseOffline,
    }
}

/// The dialog that tells of a configuration that was stored.
pub open spec fn notice_saved() -> NoticeView {
    NoticeView {
        level: Level::Info,
        title: "保存配置"@,
        message: "成功保存配置"@,
        tag: Tag::DatabaseOffline,
    }
}

/// The dialog that tells of a configuration that could not be stored.
pub open spec fn notice_save_failed(e: Seq<char>) -> NoticeView {
    NoticeView {
        level: Level::Error,
        title: "配置"@,
        message: "保存配置失败: "@ + e,
        tag: Tag::DatabaseOffline,
    }
}

/// True where `cmds` closes every window of `windows` once and does
/// nothing else. The order is left open.
pub open spec fn closes_all(cmds: Seq<CommandView>, windows: Map<WindowId, main_app::View>) -> bool {
    &&& forall|i: int|
        0 <= i < cmds.len() ==> (match #[trigger] cmds[i] {
            CommandView::Close(id) => windows.contains_key(id),
            _ => false,
        })
    &&& forall|id: WindowId| #[trigger]
        windows.contains_key(id) ==> cmds.contains(CommandView::Close(id))
    &&& cmds.no_duplicates()
}

impl AppView {
    /// The identifier that the next new window gets, if one is left.
    pub open spec fn upcoming(self) -> Option<WindowId> {
        if self.next < u64::MAX {
            Some(WindowId { raw: self.next })
        } else {
            None
        }
    }

    /// The number of the next identifier after a request to open a view
    /// that was open (`was_open`) or closed.
    pub open spec fn next_after(self, was_open: bool) -> u64 {
        if !was_open && self.next < u64::MAX {
            (self.next + 1) as u64
        } else {
            self.next
        }
    }

    /// The window that belongs to a view: the primary window for the
    /// main view, and for the others what they hold, which is the primary
    /// window while they are closed.
    pub open spec fn window_of(self, kind: main_app::View) -> WindowId {
        match kind {
            main_app::View::Main => self.id,
            main_app::View::Log => self.log_app.id,
            main_app::View::Setting => self.setting_app.id,
            main_app::View::Login => self.login_app.id,
        }
    }

    /// True where the window of `kind` is recorded as open.
    pub open spec fn is_open(self, kind: main_app::View) -> bool {
        self.window_flags.contains_key(self.window_of(kind)) && self.window_flags[self.window_of(
            kind,
        )] == kind
    }

    /// The recorded windows that show `kind`.
    pub open spec fn windows_of(self, kind: main_app::View) -> Set<WindowId> {
        Set::new(|id: WindowId| self.window_flags.contains_key(id) && self.window_flags[id] == kind)
    }

    /// The shell is consistent: the record of open windows and the
    /// views agree on who is open under which identifier.
    ///
    /// Every recorded window is the window of the view that it is
    /// recorded for, and the primary window is recorded for the main
    /// view only. Every view that holds a window of its own is recorded
    /// under it. No identifier in use is one that is still to be handed
    /// out.
    #[verifier::opaque]
    pub open spec fn wf(self) -> bool {
        &&& self.id == WindowId::main()
        &&& self.next >= 1
        &&& self.log_app.id.raw < self.next
        &&& self.setting_app.id.raw < self.next
        &&& self.login_app.id.raw < self.next
        &&& forall|id: WindowId| #[trigger]
            self.window_flags.contains_key(id) ==> self.window_of(self.window_flags[id]) == id && (
            id == WindowId::main() ==> self.window_flags[id] == main_app::View::Main)
        &&& self.log_app.spec_exist() ==> self.is_open(main_app::View::Log)
        &&& self.setting_app.exist() ==> self.is_open(main_app::View::Setting)
        &&& self.login_app.exist() ==> self.is_open(main_app::View::Login)
    }

    /// The shell with window `id` recorded for `kind`, unless `id` is
    /// recorded already.
    pub open spec fn registered(self, id: WindowId, kind: main_app::View) -> AppView {
        if self.window_flags.contains_key(id) {
            self
        } else {
            AppView { window_flags: self.window_flags.insert(id, kind), ..self }
        }
    }

    /// The shell after a request to open `view`.
    ///
    /// The main view is the primary window, which is recorded. Any other
    /// view keeps the window it has, or gets the next identifier and is
    /// recorded under it; once the identifiers are used up it stays
    /// closed.
    #[verifier::opaque]
    pub open spec fn created(self, view: main_app::View) -> AppView {
        match view {
            main_app::View::Main => self.registered(self.id, main_app::View::Main),
            main_app::View::Log => {
                let app = self.log_app.spec_created(self.upcoming());
                let s = AppView {
                    log_app: app,
                    next: self.next_after(self.log_app.spec_exist()),
                    ..self
                };
                if app.spec_exist() {
                    s.registered(app.id, main_app::View::Log)
                } else {
                    s
                }
            },
            main_app::View::Setting => {
                let app = self.setting_app.created(self.upcoming());
                let s = AppView {
                    setting_app: app,
                    next: self.next_after(self.setting_app.exist()),
                    ..self
                };
                if app.exist() {
                    s.registered(app.id, main_app::View::Setting)
                } else {
                    s
                }
            },
            main_app::View::Login => {
                let app = self.login_app.created(self.upcoming());
                let s = AppView {
                    login_app: app,
                    next: self.next_after(self.login_app.exist()),
                    ..self
                };
                if app.exist() {
                    s.registered(app.id, main_app::View::Login)
                } else {
                    s
                }
            },
        }
    }

    /// What a request to open `view` asks for: the window is brought to
    /// the front where the view is open, and spawned where it is not.
    #[verifier::opaque]
    pub open spec fn create_commands(self, view: main_app::View) -> Seq<CommandView> {
        match view {
            main_app::View::Main => seq![CommandView::Show(self.id), CommandView::Focus(self.id)],
            main_app::View::Log => self.log_app.create_commands(self.upcoming()),
            main_app::View::Setting => self.setting_app.create_commands(self.upcoming()),
            main_app::View::Login => self.login_app.create_commands(self.upcoming()),
        }
    }

    /// The shell after every window was closed: nothing is recorded and
    /// every view is closed.
    #[verifier::opaque]
    pub open spec fn closed_all(self) -> AppView {
        AppView {
            window_flags: Map::empty(),
            log_app: self.log_app.spec_closed(),
            setting_app: self.setting_app.closed(),
            login_app: self.login_app.closed(),
            ..self
        }
    }

    /// The shell after window `id` was closed.
    ///
    /// A window that is not recorded changes nothing. The primary window
    /// takes every other window with it. Any other window leaves the
    /// record, and the view that it showed is closed.
    #[verifier::opaque]
    pub open spec fn closed(self, id: WindowId) -> AppView {
        if !self.window_flags.contains_key(id) {
            self
        } else if id == self.id {
            self.closed_all()
        } else {
            let s = AppView { window_flags: self.window_flags.remove(id), ..self };
            match self.window_flags[id] {
                main_app::View::Main => s,
                main_app::View::Log => AppView { log_app: self.log_app.spec_closed(), ..s },
                main_app::View::Setting => AppView { setting_app: self.setting_app.closed(), ..s },
                main_app::View::Login => AppView { login_app: self.login_app.closed(), ..s },
            }
        }
    }

    /// What closing window `id` asks for, where `id` is not the primary
    /// window.
    #[verifier::opaque]
    pub open spec fn close_commands(self, id: WindowId) -> Seq<CommandView> {
        if !self.window_flags.contains_key(id) {
            seq![]
        } else {
            match self.window_flags[id] {
                main_app::View::Main => seq![CommandView::Close(id)],
                main_app::View::Log => self.log_app.close_commands(),
                main_app::View::Setting => self.setting_app.close_commands(),
                main_app::View::Login => self.login_app.close_commands(),
            }
        }
    }

    /// The shell with `flag` as the configuration in force: the shell
    /// holds it, and so does every view, each the part that it shows.
    #[verifier::opaque]
    pub open spec fn config_applied(self, flag: ConfigView) -> AppView {
        AppView {
            flag,
            setting_app: setting_app::AppView { flag, ..self.setting_app },
            log_app: log_app::App { flag: flag.user_cfg, ..self.log_app },
            login_app: login_app::AppView { flag: flag.user_cfg, ..self.login_app },
            autotest: autotest::AppView { flag, ..self.autotest },
            ..self
        }
    }

    /// The shell after the login window was asked for on behalf of
    /// `view`: the view is remembered and the login window is opened.
    #[verifier::opaque]
    pub open spec fn login_requested(self, view: main_app::View) -> AppView {
        (AppView { login_app: login_app::AppView { view, ..self.login_app }, ..self }).created(
            main_app::View::Login,
        )
    }

    /// What asking for the login window on behalf of `view` asks for.
    #[verifier::opaque]
    pub open spec fn login_request_commands(self, view: main_app::View) -> Seq<CommandView> {
        (AppView {
            login_app: login_app::AppView { view, ..self.login_app },
            ..self
        }).create_commands(main_app::View::Login)
    }

    /// The shell after a request for a view that stands behind the
    /// login: once a login went through the view is opened, and until
    /// then the login window is opened in its place.
    #[verifier::opaque]
    pub open spec fn requested(self, view: main_app::View) -> AppView {
        if self.authenticated {
            self.created(view)
        } else {
            self.login_requested(view)
        }
    }

    /// What a request for a view that stands behind the login asks for.
    #[verifier::opaque]
    pub open spec fn request_commands(self, view: main_app::View) -> Seq<CommandView> {
        if self.authenticated {
            self.create_commands(view)
        } else {
            self.login_request_commands(view)
        }
    }

    /// The shell after a login that went through: the login window is
    /// closed, then the view that was asked for is opened, and the shell
    /// holds that the login went through.
    #[verifier::opaque]
    pub open spec fn logged_in(self) -> AppView {
        AppView {
            authenticated: true,
            ..self.closed(self.login_app.id).created(self.login_app.view)
        }
    }

    /// What a login that went through asks for: first what closes the
    /// login window, then what opens the view.
    #[verifier::opaque]
    pub open spec fn logged_in_commands(self) -> Seq<CommandView> {
        self.close_commands(self.login_app.id) + self.closed(self.login_app.id).create_commands(
            self.login_app.view,
        )
    }

    /// The shell after the configuration `conf` was stored: it is in
    /// force, and the settings window, where it was open, is closed.
    #[verifier::opaque]
    pub open spec fn saved(self, conf: ConfigView) -> AppView {
        let s = self.config_applied(conf);
        if s.setting_app.exist() {
            s.closed(s.setting_app.id)
        } else {
            s
        }
    }

    /// What a stored configuration asks for: the settings window is
    /// closed where it was open, and a dialog tells of the success.
    #[verifier::opaque]
    pub open spec fn saved_commands(self) -> Seq<CommandView> {
        if self.setting_app.exist() {
            self.close_commands(self.setting_app.id) + seq![CommandView::Notify(notice_saved())]
        } else {
            seq![CommandView::Notify(notice_saved())]
        }
    }

    /// The title of window `id`.
    pub open spec fn title(self, id: WindowId) -> Seq<char> {
        if id == self.id {
            self.flag.cargo.description + " v"@ + self.flag.cargo.version
        } else if id == self.log_app.id {
            log_app::App::spec_title()
        } else if id == self.setting_app.id {
            setting_app::App::spec_title()
        } else if id == self.login_app.id {
            login_app::App::spec_title()
        } else {
            "Unknown Window Id"@
        }
    }

    /// The shell after window `id` got the focus.
    pub open spec fn focused(self, id: WindowId) -> AppView {
        AppView { focused_id: id, ..self }
    }

    /// What the shell asks for when the cursor is to move on: the login
    /// window moves it where that window is open and has the focus.
    pub open spec fn focus_follow_commands(self) -> Seq<CommandView> {
        if self.login_app.exist() && self.focused_id == self.login_app.id {
            self.login_app.focus_commands()
        } else {
            seq![]
        }
    }

    /// The shell after an event of window `id`.
    ///
    /// An event of a window that is not recorded is dropped, and so is
    /// one that is not meant for the view that the window shows. The
    /// answer of the credential check is decided here: a yes closes the
    /// login window and opens the view that was asked for, a no changes
    /// nothing. Every other event goes to the view of the window.
    #[verifier::opaque]
    pub open spec fn routed(self, id: WindowId, payload: PayloadView) -> AppView {
        if !self.window_flags.contains_key(id) {
            self
        } else {
            match (self.window_flags[id], payload) {
                (main_app::View::Login, PayloadView::Login(e)) => match e {
                    login_app::MessageView::Result(status) => if status {
                        self.logged_in()
                    } else {
                        self
                    },
                    _ => AppView { login_app: self.login_app.updated(e), ..self },
                },
                (main_app::View::Setting, PayloadView::Setting(e)) => AppView {
                    setting_app: self.setting_app.updated(e),
                    ..self
                },
                _ => self,
            }
        }
    }

    /// What an event of window `id` asks for.
    ///
    /// A dropped event asks for nothing. A login that went through asks
    /// for the login window to be closed and the view to be opened. The
    /// settings window asks for the configuration to be stored or read.
    /// Every other event asks for what the view of the window asks for.
    #[verifier::opaque]
    pub open spec fn route_commands(self, id: WindowId, payload: PayloadView) -> Seq<
        CommandView,
    > {
        if !self.window_flags.contains_key(id) {
            seq![]
        } else {
            match (self.window_flags[id], payload) {
                (main_app::View::Login, PayloadView::Login(e)) => match e {
                    login_app::MessageView::Result(status) => if status {
                        self.logged_in_commands()
                    } else {
                        seq![]
                    },
                    _ => self.login_app.update_commands(e),
                },
                (main_app::View::Setting, PayloadView::Setting(e)) => match e {
                    setting_app::MessageView::Save => self.save_commands(),
                    setting_app::MessageView::ReLoad => AppView::load_commands(),
                    _ => seq![],
                },
                _ => seq![],
            }
        }
    }

    /// What storing the configuration asks for: the configuration as
    /// the settings window holds it goes to the store.
    pub open spec fn save_commands(self) -> Seq<CommandView> {
        seq![CommandView::Save(self.setting_app.flag)]
    }

    /// What reading the configuration asks for: the configuration of
    /// the one user there is comes from the store.
    pub open spec fn load_commands() -> Seq<CommandView> {
        seq![CommandView::Load(0)]
    }

    /// The shell after a message.
    #[verifier::opaque]
    pub open spec fn updated(self, message: MessageView) -> AppView {
        match message {
            MessageView::Event(e) => match e {
                Event::Closed(id) => if id == self.id {
                    self.closed_all()
                } else {
                    self.closed(id)
                },
                Event::Focused(id) => self.focused(id),
                _ => self,
            },
            MessageView::LoadConfigResult(r) => match r {
                Ok(cfg) => self.config_applied(cfg),
                Err(_) => self,
            },
            MessageView::SaveConfigResult(r) => match r {
                Ok(conf) => self.saved(conf),
                Err(_) => self,
            },
            MessageView::LogEvent(e) => self.routed(self.log_app.id, PayloadView::Log(e)),
            MessageView::LoginEvent(e) => self.routed(self.login_app.id, PayloadView::Login(e)),
            MessageView::AutotestEvent(e) => self.routed(self.id, PayloadView::Autotest(e)),
            MessageView::SettingEvent(e) => self.routed(
                self.setting_app.id,
                PayloadView::Setting(e),
            ),
            MessageView::Login(view) => self.requested(view),
            MessageView::LogPressed => self.requested(main_app::View::Log),
            MessageView::MainPressed => AppView { view: main_app::View::Main, ..self },
            _ => self,
        }
    }

    /// The message that carries an event of a view.
    pub open spec fn message_of(payload: PayloadView) -> MessageView {
        match payload {
            PayloadView::Log(e) => MessageView::LogEvent(e),
            PayloadView::Login(e) => MessageView::LoginEvent(e),
            PayloadView::Setting(e) => MessageView::SettingEvent(e),
            PayloadView::Autotest(e) => MessageView::AutotestEvent(e),
        }
    }

    /// True for the one message whose requests come in no fixed order:
    /// the closing of the primary window.
    pub open spec fn closes_primary(self, message: MessageView) -> bool {
        message == MessageView::Event(Event::Closed(self.id))
    }

    /// What a message asks for. For the closing of the primary window
    /// see `closes_all`.
    #[verifier::opaque]
    pub open spec fn update_commands(self, message: MessageView) -> Seq<CommandView> {
        match message {
            MessageView::Event(e) => match e {
                Event::ChangeBit => self.focus_follow_commands(),
                Event::Closed(id) => self.close_commands(id),
                Event::Focused(id) => self.focused(id).focus_follow_commands(),
                Event::Save => self.save_commands(),
                Event::Load => AppView::load_commands(),
                _ => seq![],
            },
            MessageView::SaveConfig => self.save_commands(),
            MessageView::LoadConfig => AppView::load_commands(),
            MessageView::LoadConfigResult(r) => match r {
                Ok(_) => seq![CommandView::Notify(notice_loaded())],
                Err(e) => seq![CommandView::Notify(notice_load_failed(e))],
            },
            MessageView::SaveConfigResult(r) => match r {
                Ok(conf) => self.config_applied(conf).saved_commands(),
                Err(e) => seq![CommandView::Notify(notice_save_failed(e))],
            },
            MessageView::LogEvent(e) => self.route_commands(self.log_app.id, PayloadView::Log(e)),
            MessageView::LoginEvent(e) => self.route_commands(
                self.login_app.id,
                PayloadView::Login(e),
            ),
            MessageView::AutotestEvent(e) => self.route_commands(
                self.id,
                PayloadView::Autotest(e),
            ),
            MessageView::SettingEvent(e) => self.route_commands(
                self.setting_app.id,
                PayloadView::Setting(e),
            ),
            MessageView::Login(view) => self.request_commands(view),
            MessageView::LogPressed => self.request_commands(main_app::View::Log),
            _ => seq![],
        }
    }
}

} // verus!
