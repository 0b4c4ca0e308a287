//! The stored rows of a user: account, profile and window preferences.

use vstd::prelude::*;

use crate::config::theme::Themes;

verus! {

/// An account. Times are milliseconds since the Unix epoch.
#[derive(Debug)]
pub struct User {
    pub id: i32,
    pub name: String,
    pub email: Option<String>,
    pub prefix_mobile: Option<String>,
    pub mobile: Option<String>,
    pub password: String,
    pub created_at: i64,
    pub updated_at: i64,
}

/// What a `User` holds.
pub struct UserView {
    pub id: i32,
    pub name: Seq<char>,
    pub email: Option<Seq<char>>,
    pub prefix_mobile: Option<Seq<char>>,
    pub mobile: Option<Seq<char>>,
    pub password: Seq<char>,
    pub created_at: i64,
    pub updated_at: i64,
}

impl View for User {
    type V = UserView;

    open spec fn view(&self) -> UserView {
        UserView {
            id: self.id,
            name: self.name@,
            email: self.email.deep_view(),
            prefix_mobile: self.prefix_mobile.deep_view(),
            mobile: self.mobile.deep_view(),
            password: self.password@,
            created_at: self.created_at,
            updated_at: self.updated_at,
        }
    }
}

impl UserView {
    /// The account with its password blanked.
    pub open spec fn redacted(self) -> UserView {
        UserView { password: Seq::empty(), ..self }
    }

    /// True for an account that brings no new password: one whose
    /// password is empty.
    pub open spec fn keeps_password(self) -> bool {
        self.password.len() == 0
    }

    /// The account with no name, no password and nothing else set.
    pub open spec fn empty() -> UserView {
        UserView {
            id: 0,
            name: Seq::empty(),
            email: None,
            prefix_mobile: None,
            mobile: None,
            password: Seq::empty(),
            created_at: 0,
            updated_at: 0,
        }
    }
}

impl Clone for User {
    fn clone(&self) -> (r: User)
        ensures
            r@ == self@,
    {
        User {
            id: self.id,
            name: self.name.clone(),
            email: self.email.clone(),
            prefix_mobile: self.prefix_mobile.clone(),
            mobile: self.mobile.clone(),
            password: self.password.clone(),
            created_at: self.created_at,
            updated_at: self.updated_at,
        }
    }
}

impl Default for User {
    fn default() -> (r: User)
        ensures
            r@ == UserView::empty(),
    {
        User {
            id: 0,
            name: String::new(),
            email: None,
            prefix_mobile: None,
            mobile: None,
            password: String::new(),
            created_at: 0,
            updated_at: 0,
        }
    }
}

impl User {
    /// The account as it leaves the store: with the password blanked, so
    /// that the stored hash never reaches a window.
    pub fn redacted(self) -> (r: User)
        ensures
            r@ == self@.redacted(),
    {
        let mut r = self;
        r.password = String::new();
        r
    }
}

/// The profile of a user. `identity` is a JSON text.
#[derive(Debug)]
pub struct UserInfo {
    pub user_id: i32,
    pub nickname: Option<String>,
    pub avatar_url: Option<String>,
    pub description: Option<String>,
    pub identity: String,
    pub status: bool,
    pub updated_at: i64,
}

/// What a `UserInfo` holds.
pub struct UserInfoView {
    pub user_id: i32,
    pub nickname: Option<Seq<char>>,
    pub avatar_url: Option<Seq<char>>,
    pub description: Option<Seq<char>>,
    pub identity: Seq<char>,
    pub status: bool,
    pub updated_at: i64,
}

impl View for UserInfo {
    type V = UserInfoView;

    open spec fn view(&self) -> UserInfoView {
        UserInfoView {
            user_id: self.user_id,
            nickname: self.nickname.deep_view(),
            avatar_url: self.avatar_url.deep_view(),
            description: self.description.deep_view(),
            identity: self.identity@,
            status: self.status,
            updated_at: self.updated_at,
        }
    }
}

impl UserInfoView {
    /// The profile with nothing set; its `identity` is the JSON `null`.
    pub open spec fn empty() -> UserInfoView {
        UserInfoView {
            user_id: 0,
            nickname: None,
            avatar_url: None,
            description: None,
            identity: "null"@,
            status: false,
            updated_at: 0,
        }
    }
}

impl Clone for UserInfo {
    fn clone(&self) -> (r: UserInfo)
        ensures
            r@ == self@,
    {
        UserInfo {
            user_id: self.user_id,
            nickname: self.nickname.clone(),
            avatar_url: self.avatar_url.clone(),
            description: self.description.clone(),
            identity: self.identity.clone(),
            status: self.status,
            updated_at: self.updated_at,
        }
    }
}

impl Default for UserInfo {
    fn default() -> (r: UserInfo)
        ensures
            r@ == UserInfoView::empty(),
    {
        UserInfo {
            user_id: 0,
            nickname: None,
            avatar_url: None,
            description: None,
            identity: String::from_str("null"),
            status: false,
            updated_at: 0,
        }
    }
}

/// The window preferences of a user. Sizes are whole logical pixels.
#[derive(Debug, Clone, Copy, PartialEq, Eq, Structural)]
pub struct UserCfg {
    pub user_id: i32,
    pub height: u32,
    pub width: u32,
    pub default_text_size: u32,
    pub theme: Themes,
    pub highline_theme: i32,
    pub resizable: bool,
    /// Whether the window has a border, a title bar and the like.
    pub decorations: bool,
    /// Whether the window is transparent.
    pub transparent: bool,
    pub updated_at: i64,
}

impl UserCfg {
    /// The preferences with nothing set.
    pub open spec fn spec_default() -> UserCfg {
        UserCfg {
            user_id: 0,
            height: 0,
            width: 0,
            default_text_size: 0,
            theme: Themes::Dark,
            highline_theme: 0,
            resizable: false,
            decorations: false,
            transparent: false,
            updated_at: 0,
        }
    }

    /// Reads the preferences from their stored row.
    pub fn from(q: UserCfgQ) -> (c: UserCfg)
        requires
            Themes::is_index(q.theme),
        ensures
            c == UserCfg::spec_from(q),
    {
        UserCfg {
            user_id: q.user_id,
            height: q.height,
            width: q.width,
            default_text_size: q.default_text_size,
            theme: Themes::from(q.theme),
            highline_theme: q.highline_theme,
            resizable: q.resizable,
            decorations: q.decorations,
            transparent: q.transparent,
            updated_at: q.updated_at,
        }
    }
}

impl Default for UserCfg {
    fn default() -> (c: UserCfg)
        ensures
            c == UserCfg::spec_default(),
    {
        UserCfg {
            user_id: 0,
            height: 0,
            width: 0,
            default_text_size: 0,
            theme: Themes::Dark,
            highline_theme: 0,
            resizable: false,
            decorations: false,
            transparent: false,
            updated_at: 0,
        }
    }
}

/// The window preferences as the store holds them: the theme by its
/// number.
#[derive(Debug, Clone, Copy, PartialEq, Eq, Structural)]
pub struct UserCfgQ {
    pub user_id: i32,
    pub height: u32,
    pub width: u32,
    pub default_text_size: u32,
    pub theme: i32,
    pub highline_theme: i32,
    pub resizable: bool,
    pub decorations: bool,
    pub transparent: bool,
    pub updated_at: i64,
}

impl UserCfgQ {
    /// The row that stores the preferences `c`.
    pub fn from(c: UserCfg) -> (q: UserCfgQ)
        ensures
            q == UserCfgQ::spec_from(c),
            Themes::is_index(q.theme),
    {
        UserCfgQ {
            user_id: c.user_id,
            height: c.height,
            width: c.width,
            default_text_size: c.default_text_size,
            theme: c.theme.code(),
            highline_theme: c.highline_theme,
            resizable: c.resizable,
            decorations: c.decorations,
            transparent: c.transparent,
            updated_at: c.updated_at,
        }
    }
}

impl Default for UserCfgQ {
    fn default() -> (q: UserCfgQ)
        ensures
            q == (UserCfgQ {
                user_id: 0,
                height: 0,
                width: 0,
                default_text_size: 0,
                theme: 0,
                highline_theme: 0,
                resizable: false,
                decorations: false,
                transparent: false,
                updated_at: 0,
            }),
    {
        UserCfgQ {
            user_id: 0,
            height: 0,
            width: 0,
            default_text_size: 0,
            theme: 0,
            highline_theme: 0,
            resizable: false,
            decorations: false,
            transparent: false,
            updated_at: 0,
        }
    }
}

/// An account as it leaves the store brings no new password, so that
/// storing what was read never touches the stored password.
pub proof fn lemma_read_account_keeps_password(user: UserView)
    ensures
        user.redacted().keeps_password(),
        user.redacted().redacted() == user.redacted(),
{
}

impl UserCfg {
    /// The preferences that a row reads as.
    pub open spec fn spec_from(q: UserCfgQ) -> UserCfg {
        UserCfg {
            user_id: q.user_id,
            height: q.height,
            width: q.width,
            default_text_size: q.default_text_size,
            theme: Themes::spec_from(q.theme),
            highline_theme: q.highline_theme,
            resizable: q.resizable,
            decorations: q.decorations,
            transparent: q.transparent,
            updated_at: q.updated_at,
        }
    }
}

impl UserCfgQ {
    /// The row that stores the preferences `c`.
    pub open spec fn spec_from(c: UserCfg) -> UserCfgQ {
        UserCfgQ {
            user_id: c.user_id,
            height: c.height,
            width: c.width,
            default_text_size: c.default_text_size,
            theme: c.theme.spec_code(),
            highline_theme: c.highline_theme,
            resizable: c.resizable,
            decorations: c.decorations,
            transparent: c.transparent,
            updated_at: c.updated_at,
        }
    }
}

/// Preferences that are stored and read back are the same preferences,
/// in every field, and a row whose theme number stands for a theme is
/// the row of what it reads as.
pub proof fn lemma_user_cfg_round_trip(c: UserCfg, q: UserCfgQ)
    ensures
        Themes::spec_is_index(UserCfgQ::spec_from(c).theme),
        UserCfg::spec_from(UserCfgQ::spec_from(c)) == c,
        Themes::spec_is_index(q.theme) ==> UserCfgQ::spec_from(UserCfg::spec_from(q)) == q,
{
    Themes::lemma_code_round_trip(c.theme, q.theme);
}

} // verus!
