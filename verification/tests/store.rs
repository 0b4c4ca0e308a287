use window_coordinator::db::apis::user::{
    create_password_hash, salt, user_update, user_update_from, verify_password, UserUpdate,
    HASH_LANES, HASH_LENGTH, HASH_MEM_COST, HASH_TIME_COST,
};
use window_coordinator::db::sqlite::{
    needs_migration, SQLITE_IDLE_TIMEOUT_SECS, SQLITE_MAX_CONNECTIONS, SQLITE_MAX_LIFETIME_SECS,
};
use window_coordinator::db::types::app::{ExtendApp, ExtendAppQ};
use window_coordinator::db::types::json::{text_array, texts};
use window_coordinator::db::types::user::User;
use window_coordinator::db::DatabaseTableType;
use window_coordinator::res::Error;

#[test]
fn migration_kinds_have_names_and_positions() {
    assert_eq!(DatabaseTableType::All.to_string(), "all");
    assert_eq!(DatabaseTableType::Last.to_string(), "last");
    assert_eq!(DatabaseTableType::Num(7).to_string(), "num");
    assert_eq!(DatabaseTableType::Unknown.to_string(), "");
    assert_eq!(DatabaseTableType::All.index(), 0);
    assert_eq!(DatabaseTableType::Last.index(), 0);
    assert_eq!(DatabaseTableType::Num(-7).index(), -7);
    assert_eq!(DatabaseTableType::Unknown.index(), 99999);
}

#[test]
fn migration_kinds_are_matched_whatever_the_case() {
    assert_eq!(DatabaseTableType::match_table("all"), DatabaseTableType::All);
    assert_eq!(DatabaseTableType::match_table("ALL"), DatabaseTableType::All);
    assert_eq!(DatabaseTableType::match_table("Last"), DatabaseTableType::Last);
    assert_eq!(DatabaseTableType::match_table("12"), DatabaseTableType::Num(12));
    assert_eq!(DatabaseTableType::match_table("-3"), DatabaseTableType::Num(-3));
    assert_eq!(DatabaseTableType::match_table("+3"), DatabaseTableType::Num(3));
    assert_eq!(
        DatabaseTableType::match_table("9223372036854775807"),
        DatabaseTableType::Num(i64::MAX)
    );
    assert_eq!(DatabaseTableType::match_table("9223372036854775808"), DatabaseTableType::Unknown);
    assert_eq!(DatabaseTableType::match_table(""), DatabaseTableType::Unknown);
    assert_eq!(DatabaseTableType::match_table(" 1"), DatabaseTableType::Unknown);
    assert_eq!(DatabaseTableType::match_table("num"), DatabaseTableType::Unknown);
    assert_eq!(DatabaseTableType::match_table("alle"), DatabaseTableType::Unknown);
}

#[test]
fn classification_goes_by_the_key_first() {
    assert_eq!(DatabaseTableType::classify("all", Some(4)), DatabaseTableType::All);
    assert_eq!(DatabaseTableType::classify("last", None), DatabaseTableType::Last);
    assert_eq!(DatabaseTableType::classify("x", Some(4)), DatabaseTableType::Num(4));
    assert_eq!(DatabaseTableType::classify("ALL", None), DatabaseTableType::Unknown);
}

#[test]
fn a_revert_knows_its_target() {
    assert_eq!(DatabaseTableType::Last.undo_target(5), Some(4));
    assert_eq!(DatabaseTableType::Last.undo_target(0), Some(-1));
    assert_eq!(DatabaseTableType::All.undo_target(5), Some(0));
    assert_eq!(DatabaseTableType::Num(3).undo_target(5), Some(3));
    assert_eq!(DatabaseTableType::Unknown.undo_target(5), None);
    assert_eq!(DatabaseTableType::All.undo_target(i64::MIN), Some(0));
    assert_eq!(DatabaseTableType::Num(8).undo_target(i64::MIN), Some(8));
    assert_eq!(DatabaseTableType::Unknown.undo_target(i64::MIN), None);
    assert_eq!(DatabaseTableType::Last.undo_target(i64::MIN + 1), Some(i64::MIN));
}

#[test]
fn migrations_run_on_a_fresh_store() {
    assert!(needs_migration(None));
    assert!(needs_migration(Some(0)));
    assert!(needs_migration(Some(1)));
    assert!(!needs_migration(Some(2)));
    assert!(!needs_migration(Some(40)));
    assert_eq!(SQLITE_MAX_CONNECTIONS, 30);
    assert_eq!(SQLITE_MAX_LIFETIME_SECS, 1800);
    assert_eq!(SQLITE_IDLE_TIMEOUT_SECS, 600);
}

#[test]
fn passwords_are_hashed_with_the_fixed_salt() {
    assert_eq!(salt(), b"eternalnight".to_vec());
    assert_eq!(HASH_MEM_COST, 1024);
    assert_eq!(HASH_TIME_COST, 2);
    assert_eq!(HASH_LANES, 16);
    assert_eq!(HASH_LENGTH, 16);
    let hash = create_password_hash(b"admin").unwrap();
    assert!(hash.starts_with("$argon2i$v=19$m=1024,t=2,p=16$ZXRlcm5hbG5pZ2h0$"));
    assert_eq!(hash.len(), "$argon2i$v=19$m=1024,t=2,p=16$ZXRlcm5hbG5pZ2h0$".len() + 22);
    assert_eq!(create_password_hash(b"admin").unwrap(), hash);
    assert_ne!(create_password_hash(b"admin2").unwrap(), hash);
    assert_ne!(hash, "admin");
}

#[test]
fn passwords_are_checked_against_their_hash() {
    let hash = create_password_hash(b"admin").unwrap();
    assert!(matches!(verify_password(&hash, "admin"), Ok(true)));
    assert!(matches!(verify_password(&hash, "Admin"), Ok(false)));
    assert!(matches!(verify_password(&hash, ""), Ok(false)));
    let known = "$argon2i$v=19$m=4096,t=3,p=1$c29tZXNhbHQ$iWh06vD8Fy27wf9npn6FXWiCX4K6pW6Ue1Bnzz07Z8A";
    assert!(matches!(verify_password(known, "password"), Ok(true)));
    assert!(matches!(verify_password(known, "passwore"), Ok(false)));
    match verify_password("not a hash", "admin") {
        Err(Error::Argon2(m)) => assert_eq!(m, "Decoding failed"),
        other => panic!("not a decoding error: {:?}", other),
    }
}

fn account(password: &str) -> User {
    let mut u = User::default();
    u.id = 1;
    u.name = String::from("ann");
    u.mobile = Some(String::from("555"));
    u.password = String::from(password);
    u
}

#[test]
fn an_account_without_a_new_password_keeps_the_stored_one() {
    match user_update(account("")) {
        Ok(UserUpdate::Profile(u)) => {
            assert_eq!(u.name, "ann");
            assert_eq!(u.password, "");
            assert_eq!(u.mobile.as_deref(), Some("555"));
        },
        other => panic!("not a profile update: {:?}", other),
    }
    assert!(matches!(
        user_update_from(account(""), Err(Error::Empty)),
        Ok(UserUpdate::Profile(_))
    ));
}

#[test]
fn an_account_with_a_new_password_goes_in_hashed() {
    match user_update(account("admin")) {
        Ok(UserUpdate::WithPassword(u)) => {
            assert_eq!(u.name, "ann");
            assert_eq!(u.id, 1);
            assert_eq!(u.password, create_password_hash(b"admin").unwrap());
            assert!(matches!(verify_password(&u.password, "admin"), Ok(true)));
        },
        other => panic!("not a password update: {:?}", other),
    }
    match user_update_from(account("admin"), Ok(String::from("HASH"))) {
        Ok(UserUpdate::WithPassword(u)) => assert_eq!(u.password, "HASH"),
        other => panic!("not a password update: {:?}", other),
    }
    assert!(matches!(
        user_update_from(account("admin"), Err(Error::Argon2(String::from("bad")))),
        Err(Error::Argon2(m)) if m == "bad"
    ));
}

#[test]
fn only_the_strings_of_a_json_array_are_read() {
    let v = serde_json::Value::Array(vec![
        serde_json::Value::String(String::from("run")),
        serde_json::Value::Null,
        serde_json::Value::Bool(true),
        serde_json::Value::String(String::from("--fast")),
        serde_json::Value::Array(vec![serde_json::Value::String(String::from("inner"))]),
    ]);
    assert_eq!(texts(&v), vec![String::from("run"), String::from("--fast")]);
    assert!(texts(&serde_json::Value::Null).is_empty());
    assert!(texts(&serde_json::Value::String(String::from("run"))).is_empty());
    assert!(texts(&serde_json::Value::Array(Vec::new())).is_empty());
}

#[test]
fn texts_are_written_as_a_json_array_of_strings() {
    let v = text_array(vec![String::from("a"), String::from("b")]);
    assert_eq!(
        v,
        serde_json::Value::Array(vec![
            serde_json::Value::String(String::from("a")),
            serde_json::Value::String(String::from("b")),
        ])
    );
    assert_eq!(text_array(Vec::new()), serde_json::Value::Array(Vec::new()));
    assert_eq!(texts(&v), vec![String::from("a"), String::from("b")]);
}

fn sample_app() -> ExtendApp {
    ExtendApp {
        id: 9,
        tag: String::from("t"),
        label: String::from("l"),
        enable: true,
        kind: 2,
        priority: 5,
        is_check: true,
        is_repeat: false,
        is_wait: true,
        timeout: 30,
        count: 3,
        cmd: vec![String::from("run"), String::from("--fast")],
        cwd: Some(String::from("/tmp")),
        res_url: None,
        filter: vec![String::from("ok")],
        created_at: 11,
        updated_at: 12,
    }
}

#[test]
fn an_external_application_goes_to_its_row_and_back() {
    let q = ExtendAppQ::from(sample_app());
    assert_eq!(q.id, 9);
    assert_eq!(q.tag, "t");
    assert_eq!(q.kind, 2);
    assert_eq!(
        q.cmd,
        serde_json::Value::Array(vec![
            serde_json::Value::String(String::from("run")),
            serde_json::Value::String(String::from("--fast")),
        ])
    );
    assert_eq!(q.filter, serde_json::Value::Array(vec![serde_json::Value::String(String::from("ok"))]));
    let back = ExtendApp::from(q);
    let want = sample_app();
    assert_eq!(back.id, want.id);
    assert_eq!(back.tag, want.tag);
    assert_eq!(back.label, want.label);
    assert_eq!(back.enable, want.enable);
    assert_eq!(back.kind, want.kind);
    assert_eq!(back.priority, want.priority);
    assert_eq!(back.is_check, want.is_check);
    assert_eq!(back.is_repeat, want.is_repeat);
    assert_eq!(back.is_wait, want.is_wait);
    assert_eq!(back.timeout, want.timeout);
    assert_eq!(back.count, want.count);
    assert_eq!(back.cmd, want.cmd);
    assert_eq!(back.cwd, want.cwd);
    assert_eq!(back.res_url, want.res_url);
    assert_eq!(back.filter, want.filter);
    assert_eq!(back.created_at, 11);
    assert_eq!(back.updated_at, 12);
}

#[test]
fn a_row_with_other_json_reads_what_it_can() {
    let mut q = ExtendAppQ::from(sample_app());
    q.cmd = serde_json::Value::Null;
    q.filter = serde_json::Value::Array(vec![
        serde_json::Value::Bool(false),
        serde_json::Value::String(String::from("x")),
    ]);
    let app = ExtendApp::from(q);
    assert!(app.cmd.is_empty());
    assert_eq!(app.filter, vec![String::from("x")]);
}
