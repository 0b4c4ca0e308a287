//! The login window.

use vstd::prelude::*;

use crate::config::logger::{Level, Tag};
use crate::config::theme::Themes;
use crate::db::types::user::UserCfg;
use crate::res::Error;
use crate::ui::command::{views, Command, CommandView, Notice, NoticeView, Subscription};
use crate::ui::main_app;
use crate::ui::main_app::AppWindow;
use crate::ui::window::{InputField, Position, WindowId, WindowIds, WindowSettings};

verus! {

/// What happens in the login window.
#[derive(Debug)]
pub enum Message {
    /// The user name was edited.
    SetUserName(String),
    /// The password was edited.
    SetUserPasswd(String),
    /// The user asked to log in.
    Submit,
    /// The credential check answered.
    Result(bool),
}

/// What a login `Message` holds.
pub enum MessageView {
    SetUserName(Seq<char>),
    SetUserPasswd(Seq<char>),
    Submit,
    Result(bool),
}

impl View for Message {
    type V = MessageView;

    open spec fn view(&self) -> MessageView {
        match self {
            Message::SetUserName(word) => MessageView::SetUserName(word@),
            Message::SetUserPasswd(word) => MessageView::SetUserPasswd(word@),
            Message::Submit => MessageView::Submit,
            Message::Result(status) => MessageView::Result(*status),
        }
    }
}

impl Clone for Message {
    fn clone(&self) -> (r: Message)
        ensures
            r@ == self@,
    {
        match self {
            Message::SetUserName(word) => Message::SetUserName(word.clone()),
            Message::SetUserPasswd(word) => Message::SetUserPasswd(word.clone()),
            Message::Submit => Message::Submit,
            Message::Result(status) => Message::Result(*status),
        }
    }
}

/// A text input and what was typed into it.
#[derive(Debug)]
pub struct InputState {
    pub id: InputField,
    pub value: String,
}

/// The text input that was edited last.
#[derive(Debug, Clone, Copy, PartialEq, Eq, Structural)]
pub enum Focus {
    Name,
    Passwd,
    /// No input was edited yet.
    Unset,
}

/// The login window: closed while `id` is the primary window, open under
/// `id` otherwise. `view` is what a successful login opens.
#[derive(Debug)]
pub struct App {
    pub view: main_app::View,
    pub flag: UserCfg,
    pub id: WindowId,
    pub passwd: InputState,
    pub name: InputState,
    pub focus: Focus,
}

/// What a login `App` holds.
pub struct AppView {
    pub view: main_app::View,
    pub flag: UserCfg,
    pub id: WindowId,
    pub passwd: Seq<char>,
    pub name: Seq<char>,
    pub focus: Focus,
}

impl View for App {
    type V = AppView;

    open spec fn view(&self) -> AppView {
        AppView {
            view: self.view,
            flag: self.flag,
            id: self.id,
            passwd: self.passwd.value@,
            name: self.name.value@,
            focus: self.focus,
        }
    }
}

impl App {
    /// The preferences of a login window that is given none.
    pub open spec fn spec_default_flag() -> UserCfg {
        UserCfg { height: 300, width: 500, decorations: true, ..UserCfg::spec_default() }
    }

    /// The inputs are tied to their fields. Every login window that this
    /// module makes is well formed, and none of its functions changes
    /// that.
    pub open spec fn wf(&self) -> bool {
        self.name.id == InputField::Name && self.passwd.id == InputField::Passwd
    }

    /// What a login window is opened with.
    pub open spec fn spec_settings(cfg: UserCfg) -> WindowSettings {
        WindowSettings {
            width: cfg.width,
            height: cfg.height,
            min_width: cfg.width,
            min_height: cfg.height,
            position: Position::Centered,
            resizable: cfg.resizable,
            decorations: cfg.decorations,
            transparent: cfg.transparent,
            exit_on_close_request: true,
        }
    }

    /// The title of the login window.
    pub open spec fn spec_title() -> Seq<char> {
        "登录窗口"@
    }

    /// True while the login window is open.
    pub open spec fn spec_exist(&self) -> bool {
        self.id != WindowId::main()
    }
}

impl AppView {
    /// True while the login window is open.
    pub open spec fn exist(self) -> bool {
        self.id != WindowId::main()
    }

    /// The input that gets the cursor when the window gets the focus:
    /// the next one that is still empty, the user name before the
    /// password, and none once both hold something.
    pub open spec fn next_input(self) -> Option<InputField> {
        if self.name.len() == 0 {
            Some(InputField::Name)
        } else if self.passwd.len() == 0 {
            Some(InputField::Passwd)
        } else {
            None
        }
    }

    /// What focusing the login window asks for: the focus for the window,
    /// then the cursor for the next input. Nothing while it is closed.
    pub open spec fn focus_commands(self) -> Seq<CommandView> {
        if self.exist() {
            match self.next_input() {
                Some(field) => seq![CommandView::Focus(self.id), CommandView::FocusInput(field)],
                None => seq![CommandView::Focus(self.id)],
            }
        } else {
            seq![]
        }
    }

    /// What showing the login window asks for.
    pub open spec fn show_commands(self) -> Seq<CommandView> {
        if self.exist() {
            seq![CommandView::Show(self.id)]
        } else {
            seq![]
        }
    }

    /// The login window after a request to open it, where `fresh` is
    /// the identifier that a new window would get.
    pub open spec fn created(self, fresh: Option<WindowId>) -> AppView {
        if self.exist() {
            self
        } else {
            match fresh {
                Some(id) => AppView { id, ..self },
                None => self,
            }
        }
    }

    /// What a request to open the login window asks for: an open window
    /// is shown and focused, a closed one is spawned.
    pub open spec fn create_commands(self, fresh: Option<WindowId>) -> Seq<CommandView> {
        if self.exist() {
            self.show_commands() + self.focus_commands()
        } else {
            match fresh {
                Some(id) => seq![CommandView::Spawn(id, App::spec_settings(self.flag))],
                None => seq![],
            }
        }
    }

    /// The login window after an event: typing is recorded, together
    /// with the input it went to. A submit and the answer of a
    /// credential check change nothing.
    pub open spec fn updated(self, event: MessageView) -> AppView {
        match event {
            MessageView::SetUserName(word) => AppView { focus: Focus::Name, name: word, ..self },
            MessageView::SetUserPasswd(word) => AppView {
                focus: Focus::Passwd,
                passwd: word,
                ..self
            },
            MessageView::Submit => self,
            MessageView::Result(_) => self,
        }
    }

    /// What an event of the login window asks for: a submit asks for
    /// the credentials to be checked, every other event for nothing.
    pub open spec fn update_commands(self, event: MessageView) -> Seq<CommandView> {
        match event {
            MessageView::Submit => seq![CommandView::Verify(self.name, self.passwd)],
            _ => seq![],
        }
    }

    /// The login window after its window was closed.
    pub open spec fn closed(self) -> AppView {
        AppView { id: WindowId::main(), ..self }
    }

    /// What closing the login window asks for.
    pub open spec fn close_commands(self) -> Seq<CommandView> {
        if self.exist() {
            seq![CommandView::Close(self.id)]
        } else {
            seq![]
        }
    }
}

impl Default for App {
    /// A closed login window with the preferences of its own: five
    /// hundred by three hundred pixels, with decorations.
    fn default() -> (app: App)
        ensures
            app.wf(),
            app@ == (AppView {
                view: main_app::View::Login,
                flag: App::spec_default_flag(),
                id: WindowId::main(),
                passwd: Seq::empty(),
                name: Seq::empty(),
                focus: Focus::Unset,
            }),
    {
        let flag = UserCfg {
            user_id: 0,
            height: 300,
            width: 500,
            default_text_size: 0,
            theme: Themes::Dark,
            highline_theme: 0,
            resizable: false,
            decorations: true,
            transparent: false,
            updated_at: 0,
        };
        App::new(flag)
    }
}

impl AppWindow for App {
    type Flag = UserCfg;

    type Setting = UserCfg;

    type Event = Message;

    open spec fn window(&self) -> WindowId {
        self.id
    }

    open spec fn spawn_settings(&self) -> WindowSettings {
        App::spec_settings(self.flag)
    }

    /// A closed login window with the preferences `flag`.
    fn new(flag: UserCfg) -> (app: App)
        ensures
            app.wf(),
            app@ == (AppView {
                view: main_app::View::Login,
                flag,
                id: WindowId::main(),
                passwd: Seq::empty(),
                name: Seq::empty(),
                focus: Focus::Unset,
            }),
    {
        App {
            view: main_app::View::Login,
            id: WindowId::main(),
            flag,
            passwd: InputState { id: InputField::Passwd, value: String::new() },
            name: InputState { id: InputField::Name, value: String::new() },
            focus: Focus::Unset,
        }
    }

    /// What a login window is opened with.
    fn settings(cfg: UserCfg) -> (s: WindowSettings)
        ensures
            s == App::spec_settings(cfg),
    {
        WindowSettings {
            width: cfg.width,
            height: cfg.height,
            min_width: cfg.width,
            min_height: cfg.height,
            position: Position::Centered,
            resizable: cfg.resizable,
            decorations: cfg.decorations,
            transparent: cfg.transparent,
            exit_on_close_request: true,
        }
    }

    /// The title of the login window.
    fn title(&self) -> (t: String)
        ensures
            t@ == App::spec_title(),
    {
        String::from_str("登录窗口")
    }

    /// Opens the login window, or brings it to the front where it is
    /// open already. Nothing happens once the identifiers are used up.
    fn create(&mut self, ids: &mut WindowIds) -> (cmds: Vec<Command>)
        ensures
            final(self).wf() == old(self).wf(),
            final(self)@ == old(self)@.created(old(ids).upcoming()),
            views(cmds@) == old(self)@.create_commands(old(ids).upcoming()),
    {
        if self.exist() {
            let mut cmds = self.show();
            let more = self.focus();
            crate::ui::command::append(&mut cmds, more);
            proof {
                let asked = views(cmds@);
                assert(asked.len() == cmds@.len());
                assert(asked[0] == cmds@[0]@);
                assert(asked[1] == cmds@[1]@);
            }
            cmds
        } else {
            let mut cmds: Vec<Command> = Vec::new();
            match ids.fresh() {
                Some(id) => {
                    self.id = id;
                    cmds.push(Command::Spawn(id, App::settings(self.flag)));
                },
                None => {},
            }
            cmds
        }
    }

    /// Closes the login window. Nothing happens where it is closed
    /// already.
    fn close(&mut self) -> (cmds: Vec<Command>)
        ensures
            final(self).wf() == old(self).wf(),
            final(self)@ == old(self)@.closed(),
            views(cmds@) == old(self)@.close_commands(),
    {
        let mut cmds: Vec<Command> = Vec::new();
        if self.exist() {
            cmds.push(Command::Close(self.id));
            self.id = WindowId::main();
        }
        cmds
    }

    /// Makes the login window visible. Nothing happens while it is
    /// closed.
    fn show(&self) -> (cmds: Vec<Command>)
        ensures
            views(cmds@) == self@.show_commands(),
    {
        let mut cmds: Vec<Command> = Vec::new();
        if self.exist() {
            cmds.push(Command::Show(self.id));
        }
        cmds
    }

    /// Gives the login window the focus and moves the cursor on to the
    /// next input that is still empty: to the user name, then to the
    /// password, then nowhere. Nothing happens while the window is
    /// closed.
    fn focus(&self) -> (cmds: Vec<Command>)
        ensures
            views(cmds@) == self@.focus_commands(),
    {
        let mut cmds: Vec<Command> = Vec::new();
        if self.exist() {
            cmds.push(Command::Focus(self.id));
            if self.name.value.as_str().is_empty() {
                cmds.push(Command::FocusInput(InputField::Name));
            } else if self.passwd.value.as_str().is_empty() {
                cmds.push(Command::FocusInput(InputField::Passwd));
            }
        }
        cmds
    }

    /// True while the login window is open.
    fn exist(&self) -> (r: bool) {
        !self.id.is_main()
    }

    /// Takes an event of the login window. Typing is recorded, together
    /// with the input it went to; a submit asks for the credentials to
    /// be checked; the answer of the check changes nothing here.
    fn update(&mut self, event: Message) -> (cmds: Vec<Command>)
        ensures
            final(self).wf() == old(self).wf(),
            final(self)@ == old(self)@.updated(event@),
            views(cmds@) == old(self)@.update_commands(event@),
    {
        let mut cmds: Vec<Command> = Vec::new();
        match event {
            Message::SetUserName(word) => {
                self.focus = Focus::Name;
                self.name.value = word;
            },
            Message::SetUserPasswd(word) => {
                self.focus = Focus::Passwd;
                self.passwd.value = word;
            },
            Message::Submit => {
                let uname = self.name.value.clone();
                let passwd = self.passwd.value.clone();
                cmds.push(Command::Verify(uname, passwd));
            },
            Message::Result(_) => {},
        }
        cmds
    }

    /// The events that the login window listens to: none.
    fn subscription(&self) -> (subs: Vec<Subscription>)
        ensures
            subs@.len() == 0,
    {
        Vec::new()
    }
}

/// True where a login with these credentials is worth a look into the
/// store: where the name or the password holds anything.
pub open spec fn spec_login_asks(name: Seq<char>, passwd: Seq<char>) -> bool {
    name.len() != 0 || passwd.len() != 0
}

/// True where a login with these credentials is worth a look into the
/// store.
pub fn login_asks(name: &str, passwd: &str) -> (r: bool)
    ensures
        r == spec_login_asks(name@, passwd@),
{
    !name.is_empty() || !passwd.is_empty()
}

/// The dialog that a login attempt ends in, if it ends in one: none for
/// empty credentials and none for a login that went through, an error
/// for a wrong password, a warning where the check itself failed.
pub open spec fn login_notice(name: Seq<char>, passwd: Seq<char>, checked: Result<bool, Error>)
    -> Option<NoticeView> {
    if !spec_login_asks(name, passwd) {
        None
    } else {
        match checked {
            Ok(true) => None,
            Ok(false) => Some(
                NoticeView {
                    level: Level::Error,
                    title: "登录"@,
                    message: "用户："@ + name + " 密码错误"@,
                    tag: Tag::Login,
                },
            ),
            Err(_) => Some(
                NoticeView {
                    level: Level::Warn,
                    title: "登录"@,
                    message: "查询账号不存在: "@ + name,
                    tag: Tag::Login,
                },
            ),
        }
    }
}

/// Decides a login attempt from what the check of the credentials
/// answered. The login goes through only where the credentials hold
/// anything and the check said yes.
pub fn login(name: &str, passwd: &str, checked: Result<bool, Error>) -> (r: (bool, Option<Notice>))
    ensures
        r.0 == (spec_login_asks(name@, passwd@) && checked == Ok::<bool, Error>(true)),
        match r.1 {
            Some(notice) => login_notice(name@, passwd@, checked) == Some(notice@),
            None => login_notice(name@, passwd@, checked) is None,
        },
{
    if login_asks(name, passwd) {
        match checked {
            Ok(status) => {
                if status {
                    (true, None)
                } else {
                    let mut message = String::from_str("用户：");
                    message.append(name);
                    message.append(" 密码错误");
                    let notice = Notice {
                        level: Level::Error,
                        title: String::from_str("登录"),
                        message,
                        tag: Tag::Login,
                    };
                    (false, Some(notice))
                }
            },
            Err(_e) => {
                let notice = Notice::new(Level::Warn, "登录", "查询账号不存在: ", name, Tag::Login);
                (false, Some(notice))
            },
        }
    } else {
        (false, None)
    }
}

} // verus!
