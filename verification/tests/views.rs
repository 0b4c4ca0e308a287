use window_coordinator::config::Config;
use window_coordinator::db::types::user::UserCfg;
use window_coordinator::ui::command::{Command, Notice};
use window_coordinator::ui::main_app::autotest;
use window_coordinator::ui::main_app::AppWindow;
use window_coordinator::ui::main_app::autotest::DataState;
use window_coordinator::ui::main_app::autotest::table::{Column, ColumnKind};
use window_coordinator::ui::window::{InputField, Position, WindowId, WindowIds};
use window_coordinator::ui::{log_app, login_app, setting_app};
use window_coordinator::config::logger::{Level, Tag};
use window_coordinator::config::theme::Themes;
use window_coordinator::res::Error;

fn prefs() -> UserCfg {
    let mut c = UserCfg::default();
    c.width = 640;
    c.height = 480;
    c.decorations = true;
    c
}

#[test]
fn window_ids_start_after_the_primary_window() {
    let mut ids = WindowIds::new();
    assert_eq!(ids.fresh(), Some(WindowId { raw: 1 }));
    assert_eq!(ids.fresh(), Some(WindowId { raw: 2 }));
    assert_eq!(ids.next, 3);
    assert!(WindowId::main().is_main());
    assert!(!WindowId { raw: 1 }.is_main());
}

#[test]
fn window_ids_run_out_without_wrapping() {
    let mut ids = WindowIds { next: u64::MAX - 1 };
    assert_eq!(ids.fresh(), Some(WindowId { raw: u64::MAX - 1 }));
    assert_eq!(ids.fresh(), None);
    assert_eq!(ids.fresh(), None);
    assert_eq!(ids.next, u64::MAX);
}

#[test]
fn log_viewer_opens_once_and_closes_to_the_sentinel() {
    let mut ids = WindowIds::new();
    let mut app = log_app::App::new(prefs());
    assert!(!app.exist());
    assert!(app.show().is_empty());
    assert!(app.focus().is_empty());
    assert!(app.close().is_empty());
    let cmds = app.create(&mut ids);
    assert!(app.exist());
    assert!(app.state);
    assert_eq!(app.id, WindowId { raw: 1 });
    assert_eq!(cmds.len(), 1);
    match &cmds[0] {
        Command::Spawn(w, s) => {
            assert_eq!(w.raw, 1);
            assert_eq!(*s, log_app::App::settings(prefs()));
            assert_eq!(s.position, Position::Default);
            assert_eq!(s.width, 640);
            assert_eq!(s.min_height, 480);
        },
        other => panic!("not a spawn: {:?}", other),
    }
    let cmds = app.create(&mut ids);
    assert_eq!(ids.next, 2);
    assert_eq!(cmds.len(), 2);
    assert!(matches!(cmds[0], Command::Show(w) if w.raw == 1));
    assert!(matches!(cmds[1], Command::Focus(w) if w.raw == 1));
    assert!(matches!(app.show()[0], Command::Show(w) if w.raw == 1));
    assert!(matches!(app.focus()[0], Command::Focus(w) if w.raw == 1));
    let cmds = app.close();
    assert_eq!(cmds.len(), 1);
    assert!(matches!(cmds[0], Command::Close(w) if w.raw == 1));
    assert!(!app.exist());
    assert!(!app.state);
    assert_eq!(app.id, WindowId::main());
    assert!(app.close().is_empty());
    assert_eq!(app.title(), "日志窗口");
    assert!(app.update(log_app::Message::Ignore).is_empty());
    assert!(app.subscription().is_empty());
}

#[test]
fn login_window_records_typing_and_the_input_it_went_to() {
    let mut app = login_app::App::new(prefs());
    assert_eq!(app.focus, login_app::Focus::Unset);
    assert!(app.update(login_app::Message::SetUserName(String::from("ann"))).is_empty());
    assert_eq!(app.name.value, "ann");
    assert_eq!(app.focus, login_app::Focus::Name);
    assert!(app.update(login_app::Message::SetUserPasswd(String::from("pw"))).is_empty());
    assert_eq!(app.passwd.value, "pw");
    assert_eq!(app.focus, login_app::Focus::Passwd);
    let cmds = app.update(login_app::Message::Submit);
    assert_eq!(cmds.len(), 1);
    assert!(matches!(&cmds[0], Command::Verify(n, p) if n == "ann" && p == "pw"));
    assert!(app.update(login_app::Message::Result(true)).is_empty());
    assert_eq!(app.name.value, "ann");
    assert_eq!(app.name.id, InputField::Name);
    assert_eq!(app.passwd.id, InputField::Passwd);
    assert_eq!(app.title(), "登录窗口");
}

#[test]
fn login_window_is_centered_and_reopens_with_show_and_focus() {
    let mut ids = WindowIds::new();
    let mut app = login_app::App::new(prefs());
    assert!(app.focus().is_empty());
    let cmds = app.create(&mut ids);
    assert!(matches!(&cmds[0], Command::Spawn(w, s) if w.raw == 1 && s.position == Position::Centered && s.exit_on_close_request));
    let cmds = app.create(&mut ids);
    assert_eq!(cmds.len(), 3);
    assert!(matches!(cmds[0], Command::Show(w) if w.raw == 1));
    assert!(matches!(cmds[1], Command::Focus(w) if w.raw == 1));
    assert!(matches!(cmds[2], Command::FocusInput(InputField::Name)));
    let cmds = app.close();
    assert!(matches!(cmds[0], Command::Close(w) if w.raw == 1));
    assert!(!app.exist());
}

#[test]
fn login_decision_follows_the_check() {
    assert!(!login_app::login_asks("", ""));
    assert!(login_app::login_asks("u", ""));
    assert!(login_app::login_asks("", "p"));

    let (ok, notice) = login_app::login("u", "p", Ok(true));
    assert!(ok);
    assert!(notice.is_none());

    let (ok, notice) = login_app::login("u", "p", Ok(false));
    assert!(!ok);
    let n: Notice = notice.unwrap();
    assert_eq!(n.level, Level::Error);
    assert_eq!(n.title, "登录");
    assert_eq!(n.message, "用户：u 密码错误");
    assert_eq!(n.tag, Tag::Login);

    let (ok, notice) = login_app::login("u", "p", Err(Error::Empty));
    assert!(!ok);
    let n: Notice = notice.unwrap();
    assert_eq!(n.level, Level::Warn);
    assert_eq!(n.title, "登录");
    assert_eq!(n.message, "查询账号不存在: u");

    let (ok, notice) = login_app::login("", "", Ok(true));
    assert!(!ok);
    assert!(notice.is_none());
}

#[test]
fn settings_window_edits_its_own_copy() {
    let mut app = setting_app::App::new(Config::default());
    assert_eq!(app.view, setting_app::View::Main);
    assert!(app.update(setting_app::Message::UserPressed).is_empty());
    assert_eq!(app.view, setting_app::View::User);
    app.update(setting_app::Message::MainViewPressed);
    assert_eq!(app.view, setting_app::View::Main);
    app.update(setting_app::Message::SetUserName(String::from("ann")));
    app.update(setting_app::Message::SetUserPasswd(String::from("pw")));
    app.update(setting_app::Message::SetTheme(Themes::Nord));
    assert_eq!(app.flag.user.name, "ann");
    assert_eq!(app.flag.user.password, "pw");
    assert_eq!(app.flag.user_cfg.theme, Themes::Nord);
    assert!(setting_app::update(&mut app, setting_app::Message::Save).is_empty());
    assert!(setting_app::update(&mut app, setting_app::Message::ReLoad).is_empty());
    assert_eq!(app.flag.user.name, "ann");
    assert_eq!(app.title(), "配置");
}

#[test]
fn settings_window_opens_with_the_stored_preferences() {
    let mut ids = WindowIds { next: 7 };
    let mut cfg = Config::default();
    cfg.user_cfg = prefs();
    let mut app = setting_app::App::new(cfg);
    let cmds = app.create(&mut ids);
    assert!(matches!(&cmds[0], Command::Spawn(w, s) if w.raw == 7 && s.width == 640 && s.position == Position::Default));
    assert_eq!(ids.next, 8);
    assert!(matches!(app.show()[0], Command::Show(w) if w.raw == 7));
    assert!(matches!(app.focus()[0], Command::Focus(w) if w.raw == 7));
    assert!(matches!(app.close()[0], Command::Close(w) if w.raw == 7));
    assert!(app.close().is_empty());
}

#[test]
fn test_bench_takes_events_without_effect() {
    let mut ids = WindowIds::new();
    let mut app = autotest::App::new(Config::default());
    assert_eq!(app.state, autotest::DataState::Success);
    assert!(app.update(autotest::Message::Submit).is_empty());
    assert!(app.update(autotest::Message::TableWindow).is_empty());
    assert!(!app.exist());
    assert_eq!(app.title(), "主窗口");
    let cmds = app.create(&mut ids);
    assert!(matches!(cmds[0], Command::Spawn(w, _) if w.raw == 1));
    assert!(app.exist());
    assert!(matches!(app.close()[0], Command::Close(w) if w.raw == 1));
}

#[test]
fn sample_rows_alternate_after_the_first() {
    assert_eq!(DataState::generate(0), DataState::Ready);
    assert_eq!(DataState::generate(1), DataState::Fail);
    assert_eq!(DataState::generate(2), DataState::Success);
    assert_eq!(DataState::generate(149), DataState::Fail);
    assert_eq!(DataState::generate(-1), DataState::Success);
    assert_eq!(DataState::generate(-2), DataState::Success);
    assert_eq!(DataState::Ready.label(), "Ready");
    assert_eq!(DataState::Success.label(), "Pass");
    assert_eq!(DataState::Fail.label(), "Fail");
}

#[test]
fn columns_start_at_their_width() {
    let c = Column::new(ColumnKind::Index);
    assert_eq!(c.width, 50);
    assert_eq!(c.resize_offset, None);
    assert_eq!(Column::new(ColumnKind::Label).width, 140);
    assert_eq!(Column::new(ColumnKind::State).width, 140);
    assert_eq!(Column::new(ColumnKind::Type).width, 60);
    assert_eq!(Column::new(ColumnKind::Value).width, 150);
    assert_eq!(Column::new(ColumnKind::ResValue).width, 150);
    assert_eq!(Column::new(ColumnKind::Priority).width, 70);
    assert_eq!(Column::new(ColumnKind::IsCheck).width, 50);
    assert_eq!(Column::new(ColumnKind::Timeout).width, 60);
    assert_eq!(Column::new(ColumnKind::Count).width, 80);
    assert_eq!(ColumnKind::Index.title(), "序号");
    assert_eq!(ColumnKind::Count.title(), "次数");
}
