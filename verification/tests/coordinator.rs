use window_coordinator::config::logger::{Level, Tag};
use window_coordinator::config::theme::Button;
use window_coordinator::config::Config;
use window_coordinator::event::Event;
use window_coordinator::ui::command::{Command, Subscription};
use window_coordinator::ui::login_app;
use window_coordinator::ui::main_app::{App, AppWindow, Message, Payload, View};
use window_coordinator::ui::setting_app;
use window_coordinator::ui::window::{InputField, Position, WindowId};

fn id(raw: u64) -> WindowId {
    WindowId { raw }
}

fn config() -> Config {
    let mut c = Config::default();
    c.user_cfg.width = 800;
    c.user_cfg.height = 600;
    c.user_cfg.resizable = true;
    c.cargo.package.description = String::from("Bench");
    c.cargo.package.version = String::from("1.2.3");
    c
}

fn shell() -> App {
    App::new(config()).0
}

fn closed_ids(cmds: &[Command]) -> Vec<u64> {
    let mut ids: Vec<u64> = Vec::new();
    for c in cmds {
        match c {
            Command::Close(w) => ids.push(w.raw),
            other => panic!("not a close: {:?}", other),
        }
    }
    ids.sort();
    ids
}

#[test]
fn new_shell_records_only_the_primary_window() {
    let (app, cmds) = App::new(config());
    assert_eq!(app.window_flags.len(), 1);
    assert_eq!(app.window_flags.resolve(WindowId::main()), Some(View::Main));
    assert_eq!(app.id, WindowId::main());
    assert_eq!(app.focused_id, WindowId::main());
    assert_eq!(app.view, View::Main);
    assert!(!app.log_app.exist());
    assert!(!app.login_app.exist());
    assert!(!app.setting_app.exist());
    assert!(!app.authenticated);
    assert_eq!(app.login_app.flag.width, 500);
    assert_eq!(app.login_app.flag.height, 300);
    assert!(app.login_app.flag.decorations);
    assert_eq!(app.log_app.flag.width, 800);
    assert_eq!(cmds.len(), 1);
    assert!(matches!(cmds[0], Command::LoadFonts));
}

#[test]
fn opening_the_log_viewer_records_one_new_window() {
    let mut app = shell();
    let cmds = app.create(View::Log);
    assert_eq!(app.window_flags.len(), 2);
    assert_eq!(app.window_flags.resolve(id(1)), Some(View::Log));
    assert_eq!(app.window_flags.resolve(WindowId::main()), Some(View::Main));
    assert!(app.log_app.exist());
    assert!(app.log_app.state);
    assert_eq!(app.log_app.id, id(1));
    assert_eq!(app.title(id(1)), "日志窗口");
    assert_eq!(cmds.len(), 1);
    match &cmds[0] {
        Command::Spawn(w, s) => {
            assert_eq!(*w, id(1));
            assert_eq!(s.width, 800);
            assert_eq!(s.height, 600);
            assert_eq!(s.min_width, 800);
            assert_eq!(s.min_height, 600);
            assert_eq!(s.position, Position::Default);
            assert!(s.resizable);
            assert!(!s.decorations);
            assert!(!s.transparent);
            assert!(s.exit_on_close_request);
        },
        other => panic!("not a spawn: {:?}", other),
    }
}

#[test]
fn opening_a_view_again_never_gives_it_a_second_window() {
    let mut app = shell();
    app.create(View::Log);
    let again = app.create(View::Log);
    let third = app.create(View::Log);
    assert_eq!(app.window_flags.len(), 2);
    assert_eq!(app.log_app.id, id(1));
    assert_eq!(app.ids.next, 2);
    assert_eq!(again.len(), 2);
    assert!(matches!(again[0], Command::Show(w) if w == id(1)));
    assert!(matches!(again[1], Command::Focus(w) if w == id(1)));
    assert_eq!(third.len(), 2);
}

#[test]
fn a_run_of_open_requests_keeps_one_window_per_view() {
    let mut app = shell();
    let kinds = [
        View::Log,
        View::Setting,
        View::Main,
        View::Login,
        View::Log,
        View::Login,
        View::Setting,
        View::Main,
    ];
    for k in kinds {
        app.create(k);
    }
    assert_eq!(app.window_flags.len(), 4);
    assert_eq!(app.window_flags.resolve(WindowId::main()), Some(View::Main));
    assert_eq!(app.window_flags.resolve(id(1)), Some(View::Log));
    assert_eq!(app.window_flags.resolve(id(2)), Some(View::Setting));
    assert_eq!(app.window_flags.resolve(id(3)), Some(View::Login));
    assert_eq!(app.window_flags.resolve(id(4)), None);
}

#[test]
fn opening_the_main_view_brings_the_primary_window_to_the_front() {
    let mut app = shell();
    let cmds = app.create(View::Main);
    assert_eq!(app.window_flags.len(), 1);
    assert_eq!(cmds.len(), 2);
    assert!(matches!(cmds[0], Command::Show(w) if w == WindowId::main()));
    assert!(matches!(cmds[1], Command::Focus(w) if w == WindowId::main()));
}

#[test]
fn no_window_is_opened_once_the_identifiers_are_used_up() {
    let mut app = shell();
    app.ids.next = u64::MAX;
    let cmds = app.create(View::Log);
    assert!(cmds.is_empty());
    assert!(!app.log_app.exist());
    assert!(!app.log_app.state);
    assert_eq!(app.window_flags.len(), 1);
    assert_eq!(app.ids.next, u64::MAX);
}

#[test]
fn closing_an_unknown_window_changes_nothing() {
    let mut app = shell();
    app.create(View::Log);
    let cmds = app.close(id(77));
    assert!(cmds.is_empty());
    assert_eq!(app.window_flags.len(), 2);
    assert!(app.log_app.exist());
    assert_eq!(app.log_app.id, id(1));
}

#[test]
fn an_event_for_an_unknown_window_is_dropped() {
    let mut app = shell();
    app.create(View::Login);
    let cmds = app.route_event(id(9), Payload::Login(login_app::Message::SetUserName(String::from("u"))));
    assert!(cmds.is_empty());
    assert_eq!(app.login_app.name.value, "");
    assert_eq!(app.login_app.focus, login_app::Focus::Unset);
    let cmds = app.route_event(id(9), Payload::Login(login_app::Message::Result(true)));
    assert!(cmds.is_empty());
    assert!(app.login_app.exist());
    assert_eq!(app.window_flags.len(), 2);
}

#[test]
fn an_event_goes_to_the_view_of_its_window() {
    let mut app = shell();
    app.create(View::Login);
    let login = app.login_app.id;
    let cmds = app.route_event(login, Payload::Login(login_app::Message::SetUserName(String::from("u"))));
    assert!(cmds.is_empty());
    assert_eq!(app.login_app.name.value, "u");
    assert_eq!(app.login_app.focus, login_app::Focus::Name);
}

#[test]
fn an_event_for_another_view_than_that_of_its_window_is_dropped() {
    let mut app = shell();
    app.create(View::Login);
    let cmds = app.route_event(
        WindowId::main(),
        Payload::Login(login_app::Message::SetUserName(String::from("u"))),
    );
    assert!(cmds.is_empty());
    assert_eq!(app.login_app.name.value, "");
}

#[test]
fn closing_the_same_window_twice_closes_it_once() {
    let mut app = shell();
    app.create(View::Log);
    let first = app.close(id(1));
    assert_eq!(first.len(), 1);
    assert!(matches!(first[0], Command::Close(w) if w == id(1)));
    assert_eq!(app.window_flags.len(), 1);
    assert_eq!(app.window_flags.resolve(id(1)), None);
    assert!(!app.log_app.exist());
    assert!(!app.log_app.state);
    assert_eq!(app.log_app.id, WindowId::main());
    let second = app.close(id(1));
    assert!(second.is_empty());
    assert_eq!(app.window_flags.len(), 1);
    assert_eq!(app.window_flags.resolve(WindowId::main()), Some(View::Main));
    assert!(!app.log_app.exist());
}

#[test]
fn closing_the_primary_window_closes_every_window() {
    let mut app = shell();
    app.create(View::Login);
    app.create(View::Setting);
    assert_eq!(app.window_flags.len(), 3);
    let cmds = app.update(Message::Event(Event::Closed(WindowId::main())));
    assert_eq!(app.window_flags.len(), 0);
    assert_eq!(closed_ids(&cmds), vec![0, 1, 2]);
    assert!(!app.login_app.exist());
    assert!(!app.setting_app.exist());
    assert!(!app.log_app.exist());
}

#[test]
fn closing_the_primary_window_without_its_record_still_closes_the_others() {
    let mut app = shell();
    app.create(View::Login);
    app.create(View::Setting);
    app.window_flags.unregister(WindowId::main());
    assert_eq!(app.window_flags.len(), 2);
    let cmds = app.update(Message::Event(Event::Closed(WindowId::main())));
    assert_eq!(app.window_flags.len(), 0);
    assert_eq!(closed_ids(&cmds), vec![1, 2]);
}

#[test]
fn closing_the_primary_window_by_its_identifier_closes_every_window() {
    let mut app = shell();
    app.create(View::Log);
    let cmds = app.close(WindowId::main());
    assert_eq!(app.window_flags.len(), 0);
    assert_eq!(closed_ids(&cmds), vec![0, 1]);
    assert!(!app.log_app.exist());
}

#[test]
fn close_all_on_an_empty_record_asks_for_nothing() {
    let mut app = shell();
    app.close_all();
    let cmds = app.close_all();
    assert!(cmds.is_empty());
    assert_eq!(app.window_flags.len(), 0);
}

#[test]
fn a_closed_window_event_closes_the_view_of_the_window() {
    let mut app = shell();
    app.create(View::Setting);
    let cmds = app.update(Message::Event(Event::Closed(id(1))));
    assert_eq!(cmds.len(), 1);
    assert!(matches!(cmds[0], Command::Close(w) if w == id(1)));
    assert!(!app.setting_app.exist());
    assert_eq!(app.window_flags.len(), 1);
}

#[test]
fn settings_behind_the_login_open_only_after_the_login() {
    let mut app = shell();
    let cmds = app.update(Message::Login(View::Setting));
    assert_eq!(cmds.len(), 1);
    match &cmds[0] {
        Command::Spawn(w, s) => {
            assert_eq!(*w, id(1));
            assert_eq!(s.width, 500);
            assert_eq!(s.height, 300);
            assert_eq!(s.position, Position::Centered);
            assert!(s.decorations);
        },
        other => panic!("not a spawn: {:?}", other),
    }
    assert_eq!(app.login_app.view, View::Setting);
    assert!(app.login_app.exist());
    assert!(!app.setting_app.exist());
    assert_eq!(app.window_flags.len(), 2);
    assert_eq!(app.window_flags.resolve(id(1)), Some(View::Login));

    app.update(Message::LoginEvent(login_app::Message::SetUserName(String::from("u"))));
    app.update(Message::LoginEvent(login_app::Message::SetUserPasswd(String::from("p"))));
    let cmds = app.update(Message::LoginEvent(login_app::Message::Submit));
    assert_eq!(cmds.len(), 1);
    match &cmds[0] {
        Command::Verify(name, passwd) => {
            assert_eq!(name, "u");
            assert_eq!(passwd, "p");
        },
        other => panic!("not a check: {:?}", other),
    }
    assert!(app.login_app.exist());
    assert!(!app.setting_app.exist());

    let cmds = app.update(Message::LoginEvent(login_app::Message::Result(true)));
    assert_eq!(cmds.len(), 2);
    assert!(matches!(cmds[0], Command::Close(w) if w == id(1)));
    match &cmds[1] {
        Command::Spawn(w, s) => {
            assert_eq!(*w, id(2));
            assert_eq!(s.width, 800);
            assert_eq!(s.height, 600);
            assert_eq!(s.position, Position::Default);
        },
        other => panic!("not a spawn: {:?}", other),
    }
    assert!(!app.login_app.exist());
    assert!(app.setting_app.exist());
    assert_eq!(app.setting_app.id, id(2));
    assert_eq!(app.window_flags.len(), 2);
    assert_eq!(app.window_flags.resolve(id(1)), None);
    assert_eq!(app.window_flags.resolve(id(2)), Some(View::Setting));
}

#[test]
fn a_failed_login_leaves_the_login_window_open() {
    let mut app = shell();
    app.update(Message::Login(View::Setting));
    let cmds = app.update(Message::LoginEvent(login_app::Message::Result(false)));
    assert!(cmds.is_empty());
    assert!(app.login_app.exist());
    assert!(!app.setting_app.exist());
    assert_eq!(app.window_flags.len(), 2);
}

#[test]
fn a_login_result_after_the_login_window_was_closed_is_dropped() {
    let mut app = shell();
    app.update(Message::Login(View::Setting));
    app.update(Message::Event(Event::Closed(id(1))));
    let cmds = app.update(Message::LoginEvent(login_app::Message::Result(true)));
    assert!(cmds.is_empty());
    assert!(!app.setting_app.exist());
    assert_eq!(app.window_flags.len(), 1);
}

#[test]
fn the_log_button_opens_the_login_before_a_login_went_through() {
    let mut app = shell();
    let cmds = app.update(Message::LogPressed);
    assert_eq!(cmds.len(), 1);
    match &cmds[0] {
        Command::Spawn(w, s) => {
            assert_eq!(*w, id(1));
            assert_eq!(s.width, 500);
            assert_eq!(s.height, 300);
            assert_eq!(s.position, Position::Centered);
        },
        other => panic!("not a spawn: {:?}", other),
    }
    assert!(app.login_app.exist());
    assert_eq!(app.login_app.view, View::Log);
    assert!(!app.log_app.exist());
    assert!(!app.authenticated);
    assert_eq!(app.window_flags.len(), 2);
    assert_eq!(app.window_flags.resolve(id(1)), Some(View::Login));

    let cmds = app.update(Message::LoginEvent(login_app::Message::Result(true)));
    assert_eq!(cmds.len(), 2);
    assert!(matches!(cmds[0], Command::Close(w) if w == id(1)));
    assert!(matches!(cmds[1], Command::Spawn(w, _) if w == id(2)));
    assert!(app.authenticated);
    assert!(!app.login_app.exist());
    assert!(app.log_app.exist());
    assert_eq!(app.window_flags.len(), 2);
    assert_eq!(app.window_flags.resolve(id(2)), Some(View::Log));
}

#[test]
fn views_behind_the_login_open_at_once_after_a_login_went_through() {
    let mut app = shell();
    app.update(Message::Login(View::Setting));
    app.update(Message::LoginEvent(login_app::Message::Result(true)));
    assert!(app.authenticated);
    assert_eq!(app.setting_app.id, id(2));

    let cmds = app.update(Message::LogPressed);
    assert_eq!(cmds.len(), 1);
    assert!(matches!(&cmds[0], Command::Spawn(w, s) if *w == id(3) && s.width == 800));
    assert!(app.log_app.exist());
    assert!(!app.login_app.exist());
    assert_eq!(app.window_flags.resolve(id(3)), Some(View::Log));

    app.update(Message::Event(Event::Closed(id(2))));
    assert!(!app.setting_app.exist());
    let cmds = app.update(Message::Login(View::Setting));
    assert_eq!(cmds.len(), 1);
    assert!(matches!(cmds[0], Command::Spawn(w, _) if w == id(4)));
    assert!(app.setting_app.exist());
    assert!(!app.login_app.exist());
    assert_eq!(app.window_flags.len(), 3);

    let cmds = app.update(Message::LogPressed);
    assert_eq!(cmds.len(), 2);
    assert!(matches!(cmds[0], Command::Show(w) if w == id(3)));
    assert!(matches!(cmds[1], Command::Focus(w) if w == id(3)));
}

#[test]
fn a_request_behind_the_login_is_the_same_by_message_and_by_call() {
    let mut app = shell();
    let cmds = app.request(View::Setting);
    assert!(matches!(cmds[0], Command::Spawn(w, _) if w == id(1)));
    assert!(app.login_app.exist());
    assert_eq!(app.login_app.view, View::Setting);
    assert!(!app.setting_app.exist());
    app.authenticated = true;
    let cmds = app.request(View::Setting);
    assert!(matches!(cmds[0], Command::Spawn(w, _) if w == id(2)));
    assert!(app.setting_app.exist());
}

#[test]
fn a_failed_login_does_not_count_as_a_login() {
    let mut app = shell();
    app.update(Message::LogPressed);
    app.update(Message::LoginEvent(login_app::Message::Result(false)));
    assert!(!app.authenticated);
    let cmds = app.update(Message::LogPressed);
    assert_eq!(cmds.len(), 3);
    assert!(matches!(cmds[0], Command::Show(w) if w == id(1)));
    assert!(!app.log_app.exist());
}

#[test]
fn main_pressed_shows_the_main_view() {
    let mut app = shell();
    app.view = View::Log;
    let cmds = app.update(Message::MainPressed);
    assert!(cmds.is_empty());
    assert_eq!(app.view, View::Main);
}

#[test]
fn saving_sends_the_edited_configuration_to_the_store() {
    let mut app = shell();
    app.create(View::Setting);
    app.update(Message::SettingEvent(setting_app::Message::SetUserName(String::from("eve"))));
    assert_eq!(app.setting_app.flag.user.name, "eve");
    assert_eq!(app.flag.user.name, "");
    let cmds = app.update(Message::SettingEvent(setting_app::Message::Save));
    assert_eq!(cmds.len(), 1);
    match &cmds[0] {
        Command::Save(c) => {
            assert_eq!(c.user.name, "eve");
            assert_eq!(c.user_cfg.width, 800);
        },
        other => panic!("not a save: {:?}", other),
    }
    let cmds = app.update(Message::SaveConfig);
    assert!(matches!(&cmds[0], Command::Save(c) if c.user.name == "eve"));
    let cmds = app.update(Message::Event(Event::Save));
    assert!(matches!(&cmds[0], Command::Save(c) if c.user.name == "eve"));
}

#[test]
fn an_event_of_the_closed_settings_window_is_dropped() {
    let mut app = shell();
    let cmds = app.update(Message::SettingEvent(setting_app::Message::SetUserName(String::from("eve"))));
    assert!(cmds.is_empty());
    assert_eq!(app.setting_app.flag.user.name, "");
    let cmds = app.update(Message::SettingEvent(setting_app::Message::Save));
    assert!(cmds.is_empty());
}

#[test]
fn loading_asks_the_store_for_the_one_user() {
    let mut app = shell();
    let cmds = app.update(Message::LoadConfig);
    assert_eq!(cmds.len(), 1);
    assert!(matches!(cmds[0], Command::Load(0)));
    let cmds = app.update(Message::Event(Event::Load));
    assert!(matches!(cmds[0], Command::Load(0)));
    app.create(View::Setting);
    let cmds = app.update(Message::SettingEvent(setting_app::Message::ReLoad));
    assert!(matches!(cmds[0], Command::Load(0)));
}

#[test]
fn a_loaded_configuration_reaches_every_view() {
    let mut app = shell();
    let mut cfg = config();
    cfg.user.name = String::from("mallory");
    cfg.user_cfg.width = 1024;
    let cmds = app.update(Message::LoadConfigResult(Ok(cfg)));
    assert_eq!(app.flag.user.name, "mallory");
    assert_eq!(app.setting_app.flag.user.name, "mallory");
    assert_eq!(app.autotest.flag.user.name, "mallory");
    assert_eq!(app.log_app.flag.width, 1024);
    assert_eq!(app.login_app.flag.width, 1024);
    assert_eq!(cmds.len(), 1);
    match &cmds[0] {
        Command::Notify(n) => {
            assert_eq!(n.level, Level::Info);
            assert_eq!(n.title, "配置");
            assert_eq!(n.message, "成功加载配置");
            assert_eq!(n.tag, Tag::DatabaseOffline);
        },
        other => panic!("not a notice: {:?}", other),
    }
}

#[test]
fn a_failed_load_changes_nothing_and_tells_the_user() {
    let mut app = shell();
    let cmds = app.update(Message::LoadConfigResult(Err(String::from("no rows"))));
    assert_eq!(app.flag.cargo.package.description, "Bench");
    assert_eq!(app.flag.user_cfg.width, 800);
    assert_eq!(cmds.len(), 1);
    match &cmds[0] {
        Command::Notify(n) => {
            assert_eq!(n.level, Level::Error);
            assert_eq!(n.title, "配置");
            assert_eq!(n.message, "加载配置失败: no rows");
        },
        other => panic!("not a notice: {:?}", other),
    }
}

#[test]
fn a_stored_configuration_comes_into_force_and_closes_the_settings() {
    let mut app = shell();
    app.create(View::Setting);
    let mut cfg = config();
    cfg.user.name = String::from("eve");
    let cmds = app.update(Message::SaveConfigResult(Ok(cfg)));
    assert_eq!(app.flag.user.name, "eve");
    assert!(!app.setting_app.exist());
    assert_eq!(app.window_flags.len(), 1);
    assert_eq!(cmds.len(), 2);
    assert!(matches!(cmds[0], Command::Close(w) if w == id(1)));
    match &cmds[1] {
        Command::Notify(n) => {
            assert_eq!(n.level, Level::Info);
            assert_eq!(n.title, "保存配置");
            assert_eq!(n.message, "成功保存配置");
        },
        other => panic!("not a notice: {:?}", other),
    }
}

#[test]
fn a_stored_configuration_with_the_settings_closed_keeps_the_primary_window() {
    let mut app = shell();
    let cmds = app.update(Message::SaveConfigResult(Ok(config())));
    assert_eq!(cmds.len(), 1);
    assert!(matches!(cmds[0], Command::Notify(_)));
    assert_eq!(app.window_flags.len(), 1);
    assert_eq!(app.window_flags.resolve(WindowId::main()), Some(View::Main));
}

#[test]
fn a_failed_save_keeps_the_configuration_and_the_settings_window() {
    let mut app = shell();
    app.create(View::Setting);
    app.update(Message::SettingEvent(setting_app::Message::SetUserName(String::from("eve"))));
    let cmds = app.update(Message::SaveConfigResult(Err(String::from("disk full"))));
    assert_eq!(app.flag.user.name, "");
    assert_eq!(app.setting_app.flag.user.name, "eve");
    assert!(app.setting_app.exist());
    assert_eq!(cmds.len(), 1);
    match &cmds[0] {
        Command::Notify(n) => {
            assert_eq!(n.level, Level::Error);
            assert_eq!(n.title, "配置");
            assert_eq!(n.message, "保存配置失败: disk full");
        },
        other => panic!("not a notice: {:?}", other),
    }
}

#[test]
fn focus_on_the_login_window_moves_the_cursor_on() {
    let mut app = shell();
    app.create(View::Login);
    let cmds = app.update(Message::Event(Event::Focused(id(1))));
    assert_eq!(app.focused_id, id(1));
    assert_eq!(cmds.len(), 2);
    assert!(matches!(cmds[0], Command::Focus(w) if w == id(1)));
    assert!(matches!(cmds[1], Command::FocusInput(InputField::Name)));
    app.update(Message::LoginEvent(login_app::Message::SetUserName(String::from("u"))));
    let cmds = app.update(Message::Event(Event::ChangeBit));
    assert_eq!(cmds.len(), 2);
    assert!(matches!(cmds[1], Command::FocusInput(InputField::Passwd)));
    app.update(Message::LoginEvent(login_app::Message::SetUserPasswd(String::from("p"))));
    let cmds = app.update(Message::Event(Event::ChangeBit));
    assert_eq!(cmds.len(), 1);
    assert!(matches!(cmds[0], Command::Focus(w) if w == id(1)));
}

#[test]
fn the_cursor_goes_to_the_first_input_that_is_still_empty() {
    let mut app = shell();
    app.create(View::Login);
    app.update(Message::Event(Event::Focused(id(1))));
    app.update(Message::LoginEvent(login_app::Message::SetUserPasswd(String::from("p"))));
    let cmds = app.update(Message::Event(Event::ChangeBit));
    assert_eq!(cmds.len(), 2);
    assert!(matches!(cmds[1], Command::FocusInput(InputField::Name)));
    app.update(Message::LoginEvent(login_app::Message::SetUserName(String::from("u"))));
    app.update(Message::LoginEvent(login_app::Message::SetUserPasswd(String::new())));
    let cmds = app.update(Message::Event(Event::ChangeBit));
    assert_eq!(cmds.len(), 2);
    assert!(matches!(cmds[1], Command::FocusInput(InputField::Passwd)));
    app.update(Message::LoginEvent(login_app::Message::SetUserName(String::new())));
    let cmds = app.update(Message::Event(Event::ChangeBit));
    assert!(matches!(cmds[1], Command::FocusInput(InputField::Name)));
}

#[test]
fn focus_on_another_window_is_only_recorded() {
    let mut app = shell();
    app.create(View::Login);
    app.create(View::Log);
    let cmds = app.update(Message::Event(Event::Focused(id(2))));
    assert!(cmds.is_empty());
    assert_eq!(app.focused_id, id(2));
    let cmds = app.update(Message::Event(Event::ChangeBit));
    assert!(cmds.is_empty());
}

#[test]
fn focus_follow_does_nothing_while_the_login_window_is_closed() {
    let mut app = shell();
    let cmds = app.update(Message::Event(Event::Focused(WindowId::main())));
    assert!(cmds.is_empty());
    let cmds = app.update(Message::Event(Event::ChangeBit));
    assert!(cmds.is_empty());
}

#[test]
fn messages_without_effect_change_nothing() {
    let mut app = shell();
    assert!(app.update(Message::Ignore).is_empty());
    assert!(app.update(Message::FontLoaded(true)).is_empty());
    assert!(app.update(Message::FontLoaded(false)).is_empty());
    assert!(app.update(Message::Event(Event::Clear)).is_empty());
    assert!(app.update(Message::Event(Event::Delete)).is_empty());
    assert!(app.update(Message::Event(Event::CloseRequested)).is_empty());
    assert_eq!(app.window_flags.len(), 1);
}

#[test]
fn titles_follow_the_window() {
    let mut app = shell();
    app.create(View::Log);
    app.create(View::Setting);
    app.create(View::Login);
    assert_eq!(app.title(WindowId::main()), "Bench v1.2.3");
    assert_eq!(app.title(id(1)), "日志窗口");
    assert_eq!(app.title(id(2)), "配置");
    assert_eq!(app.title(id(3)), "登录窗口");
    assert_eq!(app.title(id(4)), "Unknown Window Id");
}

#[test]
fn the_shell_listens_to_the_events_only() {
    let app = shell();
    assert_eq!(app.subscription(), vec![Subscription::Events]);
}

#[test]
fn update_cfg_applies_the_configuration() {
    let mut app = shell();
    let mut cfg = config();
    cfg.user_cfg.height = 33;
    cfg.log.fname = String::from("app.log");
    app.update_cfg(cfg);
    assert_eq!(app.flag.log.fname, "app.log");
    assert_eq!(app.setting_app.flag.log.fname, "app.log");
    assert_eq!(app.autotest.flag.log.fname, "app.log");
    assert_eq!(app.log_app.flag.height, 33);
    assert_eq!(app.login_app.flag.height, 33);
}

#[test]
fn the_start_settings_follow_the_configuration() {
    let mut cfg = config();
    cfg.user_cfg.default_text_size = 18;
    cfg.user_cfg.transparent = true;
    let s = App::setting_global(cfg);
    assert_eq!(s.default_text_size, 18);
    assert!(!s.antialiasing);
    assert_eq!(s.default_font, "阿里妈妈东方大楷");
    assert_eq!(s.window.width, 800);
    assert_eq!(s.window.height, 600);
    assert_eq!(s.window.min_width, 800);
    assert_eq!(s.window.position, Position::Centered);
    assert!(s.window.transparent);
    assert_eq!(s.flags.cargo.package.version, "1.2.3");
}

#[test]
fn view_buttons_are_pressed_for_their_own_view() {
    assert_eq!(View::Main.get_theme(&View::Main), Button::Pressed);
    assert_eq!(View::Main.get_theme(&View::Log), Button::Ready);
    assert_eq!(View::Setting.get_theme(&View::Setting), Button::Pressed);
    assert_eq!(setting_app::View::User.get_theme(&setting_app::View::User), Button::Pressed);
    assert_eq!(setting_app::View::User.get_theme(&setting_app::View::Main), Button::Ready);
}
