//! What holds of the shell in every state and over every run of messages.

use vstd::prelude::*;

use crate::config::ConfigView;
use crate::event::Event;
use crate::ui::command::CommandView;
use crate::ui::login_app;
use crate::ui::main_app::model::{AppView, MessageView, PayloadView};
use crate::ui::main_app::View;
use crate::ui::window::WindowId;

verus! {

/// In a consistent shell the identifiers start at one, so that the
/// primary window is never handed out.
pub proof fn lemma_next_is_positive(s: AppView)
    requires
        s.wf(),
    ensures
        s.next >= 1,
        s.id == WindowId::main(),
{
    reveal(AppView::wf);
}

/// In a consistent shell a recorded window is the window of the view
/// that it is recorded for, and the primary window is recorded for the
/// main view only.
pub proof fn lemma_recorded_window(s: AppView, id: WindowId)
    requires
        s.wf(),
        s.window_flags.contains_key(id),
    ensures
        s.window_of(s.window_flags[id]) == id,
        id == s.id ==> s.window_flags[id] == View::Main,
{
    reveal(AppView::wf);
}

/// In a consistent shell a view that holds a window of its own is
/// recorded under it.
pub proof fn lemma_open_view_is_recorded(s: AppView, kind: View)
    requires
        s.wf(),
        s.window_of(kind) != s.id,
    ensures
        s.is_open(kind),
{
    reveal(AppView::wf);
}

/// A request to open a view leaves the shell consistent.
pub proof fn lemma_created_wf(s: AppView, view: View)
    requires
        s.wf(),
    ensures
        s.created(view).wf(),
{
    reveal(AppView::created);
    reveal(AppView::wf);
}

/// Closing every window leaves the shell consistent.
pub proof fn lemma_closed_all_wf(s: AppView)
    requires
        s.wf(),
    ensures
        s.closed_all().wf(),
{
    reveal(AppView::closed_all);
    reveal(AppView::wf);
}

/// Closing a window leaves the shell consistent.
pub proof fn lemma_closed_wf(s: AppView, id: WindowId)
    requires
        s.wf(),
    ensures
        s.closed(id).wf(),
{
    reveal(AppView::closed);
    reveal(AppView::closed_all);
    reveal(AppView::wf);
}

/// A new configuration leaves the shell consistent.
pub proof fn lemma_config_applied_wf(s: AppView, flag: ConfigView)
    requires
        s.wf(),
    ensures
        s.config_applied(flag).wf(),
{
    reveal(AppView::config_applied);
    reveal(AppView::wf);
}

/// Remembering the view that a login is for leaves the shell
/// consistent.
pub proof fn lemma_target_set_wf(s: AppView, view: View)
    requires
        s.wf(),
    ensures
        (AppView { login_app: login_app::AppView { view, ..s.login_app }, ..s }).wf(),
{
    reveal(AppView::wf);
}

/// A window that gets the focus leaves the shell consistent.
pub proof fn lemma_focused_wf(s: AppView, id: WindowId)
    requires
        s.wf(),
    ensures
        s.focused(id).wf(),
{
    reveal(AppView::wf);
}

/// An event of a view other than the answer of the credential check
/// leaves the shell consistent.
pub proof fn lemma_view_updated_wf(s: AppView, t: AppView)
    requires
        s.wf(),
        t == (AppView { login_app: t.login_app, setting_app: t.setting_app, view: t.view, ..s }),
        t.login_app.id == s.login_app.id,
        t.setting_app.id == s.setting_app.id,
    ensures
        t.wf(),
{
    reveal(AppView::wf);
}

/// What the shell holds of a login plays no part in its consistency.
pub proof fn lemma_authenticated_wf(s: AppView, authenticated: bool)
    requires
        s.wf(),
    ensures
        (AppView { authenticated, ..s }).wf(),
{
    reveal(AppView::wf);
}

/// A login that went through leaves the shell consistent.
pub proof fn lemma_logged_in_wf(s: AppView)
    requires
        s.wf(),
    ensures
        s.logged_in().wf(),
{
    reveal(AppView::logged_in);
    lemma_closed_wf(s, s.login_app.id);
    lemma_login_survives_close(s, s.login_app.id);
    lemma_created_wf(s.closed(s.login_app.id), s.login_app.view);
    lemma_authenticated_wf(s.closed(s.login_app.id).created(s.login_app.view), true);
}

/// Closing a window leaves alone which view a login is for.
pub proof fn lemma_login_survives_close(s: AppView, id: WindowId)
    ensures
        s.closed(id).login_app.view == s.login_app.view,
{
    reveal(AppView::closed);
    reveal(AppView::closed_all);
}

/// An event of a window leaves the shell consistent.
pub proof fn lemma_routed_wf(s: AppView, id: WindowId, payload: PayloadView)
    requires
        s.wf(),
    ensures
        s.routed(id, payload).wf(),
{
    reveal(AppView::routed);
    let t = s.routed(id, payload);
    if t == s.logged_in() {
        lemma_logged_in_wf(s);
    } else {
        lemma_view_updated_wf(s, t);
    }
}

/// A stored configuration leaves the shell consistent.
pub proof fn lemma_saved_wf(s: AppView, conf: ConfigView)
    requires
        s.wf(),
    ensures
        s.saved(conf).wf(),
{
    reveal(AppView::saved);
    let t = s.config_applied(conf);
    lemma_config_applied_wf(s, conf);
    lemma_closed_wf(t, t.setting_app.id);
}

/// Asking for the login window leaves the shell consistent.
pub proof fn lemma_login_requested_wf(s: AppView, view: View)
    requires
        s.wf(),
    ensures
        s.login_requested(view).wf(),
{
    reveal(AppView::login_requested);
    let t = AppView { login_app: login_app::AppView { view, ..s.login_app }, ..s };
    lemma_target_set_wf(s, view);
    lemma_created_wf(t, View::Login);
}

/// A request for a view behind the login leaves the shell consistent,
/// whether or not a login went through.
pub proof fn lemma_requested_wf(s: AppView, view: View)
    requires
        s.wf(),
    ensures
        s.requested(view).wf(),
{
    reveal(AppView::requested);
    lemma_created_wf(s, view);
    lemma_login_requested_wf(s, view);
}

/// The closing of a window, as the toolkit reports it, leaves the shell
/// consistent.
pub proof fn lemma_window_closed_wf(s: AppView, id: WindowId)
    requires
        s.wf(),
    ensures
        s.updated(MessageView::Event(Event::Closed(id))).wf(),
{
    reveal(AppView::updated);
    lemma_closed_all_wf(s);
    lemma_closed_wf(s, id);
}

/// Every message leaves the shell consistent.
pub proof fn lemma_updated_wf(s: AppView, message: MessageView)
    requires
        s.wf(),
    ensures
        s.updated(message).wf(),
{
    reveal(AppView::updated);
    match message {
        MessageView::Event(e) => match e {
            Event::Closed(id) => {
                lemma_window_closed_wf(s, id);
            },
            Event::Focused(id) => {
                lemma_focused_wf(s, id);
            },
            _ => {},
        },
        MessageView::LoadConfigResult(r) => match r {
            Ok(cfg) => {
                lemma_config_applied_wf(s, cfg);
            },
            Err(_) => {},
        },
        MessageView::SaveConfigResult(r) => match r {
            Ok(conf) => {
                lemma_saved_wf(s, conf);
            },
            Err(_) => {},
        },
        MessageView::LogEvent(e) => {
            lemma_routed_wf(s, s.log_app.id, PayloadView::Log(e));
        },
        MessageView::LoginEvent(e) => {
            lemma_routed_wf(s, s.login_app.id, PayloadView::Login(e));
        },
        MessageView::AutotestEvent(e) => {
            lemma_routed_wf(s, s.id, PayloadView::Autotest(e));
        },
        MessageView::SettingEvent(e) => {
            lemma_routed_wf(s, s.setting_app.id, PayloadView::Setting(e));
        },
        MessageView::Login(view) => {
            lemma_requested_wf(s, view);
        },
        MessageView::LogPressed => {
            lemma_requested_wf(s, View::Log);
        },
        MessageView::MainPressed => {
            lemma_view_updated_wf(s, s.updated(message));
        },
        _ => {},
    }
}

/// In a consistent shell no view has two windows: two recorded windows
/// that show the same view are one window.
pub proof fn lemma_one_window_per_view(s: AppView, a: WindowId, b: WindowId)
    requires
        s.wf(),
        s.window_flags.contains_key(a),
        s.window_flags.contains_key(b),
        s.window_flags[a] == s.window_flags[b],
    ensures
        a == b,
{
    lemma_recorded_window(s, a);
    lemma_recorded_window(s, b);
}

/// The shell after one request to open a view for each entry of `kinds`,
/// in their order.
pub open spec fn created_all(s: AppView, kinds: Seq<View>) -> AppView
    decreases kinds.len(),
{
    if kinds.len() == 0 {
        s
    } else {
        created_all(s.created(kinds[0]), kinds.drop_first())
    }
}

/// However many requests to open views come in, and for whichever views,
/// the shell stays consistent and no view gets a second window.
pub proof fn lemma_open_requests_keep_one_window_per_view(
    s: AppView,
    kinds: Seq<View>,
    a: WindowId,
    b: WindowId,
)
    requires
        s.wf(),
        created_all(s, kinds).window_flags.contains_key(a),
        created_all(s, kinds).window_flags.contains_key(b),
        created_all(s, kinds).window_flags[a] == created_all(s, kinds).window_flags[b],
    ensures
        created_all(s, kinds).wf(),
        a == b,
{
    lemma_created_all_wf(s, kinds);
    lemma_one_window_per_view(created_all(s, kinds), a, b);
}

/// Requests to open views leave the shell consistent.
pub proof fn lemma_created_all_wf(s: AppView, kinds: Seq<View>)
    requires
        s.wf(),
    ensures
        created_all(s, kinds).wf(),
    decreases kinds.len(),
{
    if kinds.len() > 0 {
        lemma_created_wf(s, kinds[0]);
        lemma_created_all_wf(s.created(kinds[0]), kinds.drop_first());
    }
}

/// Asking twice for a view is asking once: the second request changes
/// nothing.
pub proof fn lemma_open_is_idempotent(s: AppView, view: View)
    requires
        s.wf(),
    ensures
        s.created(view).created(view) == s.created(view),
{
    reveal(AppView::created);
    reveal(AppView::wf);
}

/// A window that is not recorded is left alone. Closing it changes
/// nothing and asks for nothing, and so does an event that comes in for
/// it, whatever the event is.
pub proof fn lemma_unknown_window_is_ignored(s: AppView, id: WindowId, payload: PayloadView)
    requires
        !s.window_flags.contains_key(id),
    ensures
        s.closed(id) == s,
        s.close_commands(id) == Seq::<CommandView>::empty(),
        s.routed(id, payload) == s,
        s.route_commands(id, payload) == Seq::<CommandView>::empty(),
{
    reveal(AppView::closed);
    reveal(AppView::close_commands);
    reveal(AppView::routed);
    reveal(AppView::route_commands);
}

/// Closing a window twice is closing it once: after the first time the
/// window is not recorded, so the second time changes nothing and asks
/// for nothing.
pub proof fn lemma_close_is_idempotent(s: AppView, id: WindowId)
    ensures
        !s.closed(id).window_flags.contains_key(id),
        s.closed(id).closed(id) == s.closed(id),
        s.closed(id).close_commands(id) == Seq::<CommandView>::empty(),
{
    reveal(AppView::closed);
    reveal(AppView::closed_all);
    reveal(AppView::close_commands);
}

/// The closing of the primary window leaves no window recorded and no
/// view open, whatever was recorded before. Closing the primary window
/// by its identifier comes to the same wherever the primary window is
/// recorded.
pub proof fn lemma_primary_closes_all(s: AppView)
    ensures
        s.updated(MessageView::Event(Event::Closed(s.id))) == s.closed_all(),
        s.closed_all().window_flags == Map::<WindowId, View>::empty(),
        !s.closed_all().log_app.spec_exist(),
        !s.closed_all().setting_app.exist(),
        !s.closed_all().login_app.exist(),
        s.window_flags.contains_key(s.id) ==> s.closed(s.id) == s.closed_all(),
{
    reveal(AppView::updated);
    reveal(AppView::closed);
    reveal(AppView::closed_all);
}

/// After a request to open a view the record holds one window for it,
/// the window of the view, wherever the view was open already, is the
/// main view, or an identifier is left. With none left a closed view
/// stays closed, and the record holds no window for it.
pub proof fn lemma_opened_view_has_one_window(s: AppView, view: View)
    requires
        s.wf(),
    ensures
        view == View::Main || s.window_of(view) != s.id || s.next < u64::MAX ==> s.created(
            view,
        ).windows_of(view) == set![s.created(view).window_of(view)],
        view != View::Main && s.window_of(view) == s.id && s.next == u64::MAX ==> s.created(view)
            == s && s.windows_of(view) == Set::<WindowId>::empty(),
{
    reveal(AppView::created);
    reveal(AppView::wf);
    let t = s.created(view);
    if view == View::Main || s.window_of(view) != s.id || s.next < u64::MAX {
        assert(t.windows_of(view) =~= set![t.window_of(view)]);
    } else {
        assert(s.windows_of(view) =~= Set::<WindowId>::empty());
    }
}

/// The log button asks for what a request for the log viewer behind the
/// login asks for.
pub proof fn lemma_log_button_is_gated(s: AppView)
    ensures
        s.updated(MessageView::LogPressed) == s.updated(MessageView::Login(View::Log)),
        s.update_commands(MessageView::LogPressed) == s.update_commands(
            MessageView::Login(View::Log),
        ),
        s.updated(MessageView::LogPressed) == s.requested(View::Log),
{
    reveal(AppView::updated);
    reveal(AppView::update_commands);
}

/// Once a login went through, a view behind the login opens at once, and
/// the login window is not asked for again.
pub proof fn lemma_request_after_login(s: AppView, view: View)
    requires
        s.authenticated,
    ensures
        s.updated(MessageView::Login(view)) == s.created(view),
        s.update_commands(MessageView::Login(view)) == s.create_commands(view),
{
    reveal(AppView::updated);
    reveal(AppView::update_commands);
    reveal(AppView::requested);
    reveal(AppView::request_commands);
}

/// A view behind the login opens only after the login.
///
/// Take a consistent shell in which no login went through, in which the
/// login window and the window of `target`, the settings or the log
/// viewer, are closed, and in which two identifiers are left. A request
/// for `target` opens the login window and nothing else: there is one
/// login window and no window of `target`. A login that fails changes
/// nothing. A login that goes through closes the login window and then
/// opens `target`: there is no login window and one window of `target`,
/// every other window is recorded as it was, and the shell holds that
/// the login went through.
pub proof fn lemma_login_gate(s: AppView, target: View)
    requires
        s.wf(),
        !s.authenticated,
        target == View::Setting || target == View::Log,
        !s.login_app.exist(),
        s.window_of(target) == s.id,
        s.next + 1 < u64::MAX,
    ensures
        ({
            let login = WindowId { raw: s.next };
            let window = WindowId { raw: (s.next + 1) as u64 };
            let yes = MessageView::LoginEvent(login_app::MessageView::Result(true));
            let no = MessageView::LoginEvent(login_app::MessageView::Result(false));
            let s1 = s.updated(MessageView::Login(target));
            let s2 = s1.updated(yes);
            &&& s1.windows_of(View::Login) == set![login]
            &&& s1.windows_of(target) == Set::<WindowId>::empty()
            &&& s1.window_flags == s.window_flags.insert(login, View::Login)
            &&& !s1.authenticated
            &&& s.update_commands(MessageView::Login(target)) == seq![
                CommandView::Spawn(login, login_app::App::spec_settings(s.login_app.flag)),
            ]
            &&& s1.updated(no) == s1
            &&& s1.update_commands(no) == Seq::<CommandView>::empty()
            &&& s2.windows_of(View::Login) == Set::<WindowId>::empty()
            &&& s2.windows_of(target) == set![window]
            &&& s2.window_flags == s.window_flags.insert(window, target)
            &&& s2.authenticated
            &&& s1.update_commands(yes).len() == 2
            &&& s1.update_commands(yes)[0] == CommandView::Close(login)
            &&& s1.update_commands(yes)[1] is Spawn
            &&& s1.update_commands(yes)[1]->Spawn_0 == window
        }),
{
    reveal(AppView::updated);
    reveal(AppView::update_commands);
    reveal(AppView::requested);
    reveal(AppView::request_commands);
    reveal(AppView::login_requested);
    reveal(AppView::login_request_commands);
    reveal(AppView::created);
    reveal(AppView::create_commands);
    reveal(AppView::wf);
    let login = WindowId { raw: s.next };
    let window = WindowId { raw: (s.next + 1) as u64 };
    let no = MessageView::LoginEvent(login_app::MessageView::Result(false));
    let s1 = s.updated(MessageView::Login(target));
    lemma_requested_wf(s, target);
    lemma_login_gate_second_half(s1, target);
    assert(s1.updated(no) == s1 && s1.update_commands(no) == Seq::<CommandView>::empty()) by {
        reveal(AppView::routed);
        reveal(AppView::route_commands);
    }
    assert(s1.window_flags.remove(login).insert(window, target) =~= s.window_flags.insert(
        window,
        target,
    ));
}

/// The second half of the login gate: in a consistent shell where the
/// login window is open for `target`, whose window is closed, a login
/// that goes through first closes the login window, which leaves
/// neither window recorded, and then opens `target`. Every other window
/// is recorded as it was.
pub proof fn lemma_login_gate_second_half(s1: AppView, target: View)
    requires
        s1.wf(),
        target == View::Setting || target == View::Log,
        s1.login_app.exist(),
        s1.login_app.view == target,
        s1.window_of(target) == s1.id,
        s1.next < u64::MAX,
    ensures
        ({
            let login = s1.login_app.id;
            let window = WindowId { raw: s1.next };
            let yes = MessageView::LoginEvent(login_app::MessageView::Result(true));
            let mid = s1.closed(login);
            let s2 = s1.updated(yes);
            &&& mid.window_flags == s1.window_flags.remove(login)
            &&& mid.windows_of(View::Login) == Set::<WindowId>::empty()
            &&& mid.windows_of(target) == Set::<WindowId>::empty()
            &&& s2 == (AppView { authenticated: true, ..mid.created(target) })
            &&& s2.window_flags == s1.window_flags.remove(login).insert(window, target)
            &&& s2.windows_of(View::Login) == Set::<WindowId>::empty()
            &&& s2.windows_of(target) == set![window]
            &&& !s2.login_app.exist()
            &&& s2.window_of(target) == window
            &&& s2.authenticated
            &&& s1.update_commands(yes).len() == 2
            &&& s1.update_commands(yes)[0] == CommandView::Close(login)
            &&& s1.update_commands(yes)[1] is Spawn
            &&& s1.update_commands(yes)[1]->Spawn_0 == window
        }),
{
    reveal(AppView::updated);
    reveal(AppView::update_commands);
    reveal(AppView::routed);
    reveal(AppView::route_commands);
    reveal(AppView::logged_in);
    reveal(AppView::logged_in_commands);
    reveal(AppView::closed);
    reveal(AppView::close_commands);
    reveal(AppView::created);
    reveal(AppView::create_commands);
    reveal(AppView::wf);
    let login = s1.login_app.id;
    let window = WindowId { raw: s1.next };
    let yes = MessageView::LoginEvent(login_app::MessageView::Result(true));
    let mid = s1.closed(login);
    let s2 = s1.updated(yes);
    assert(mid.windows_of(View::Login) =~= Set::<WindowId>::empty());
    assert(mid.windows_of(target) =~= Set::<WindowId>::empty());
    assert(s2.windows_of(View::Login) =~= Set::<WindowId>::empty());
    assert(s2.windows_of(target) =~= set![window]);
}

} // verus!
