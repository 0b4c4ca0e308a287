//! The configuration of the application.

pub mod cargo;
pub mod general;
pub mod logger;
pub mod theme;

use vstd::prelude::*;

use crate::config::cargo::PackageView;
use crate::config::logger::{LogCfg, LogCfgView};
use crate::db::types::user::{User, UserCfg, UserInfo, UserInfoView, UserView};
use crate::res::Error;

verus! {

/// Everything that is configured: what the store holds of the user and of
/// logging, and the package manifest.
#[derive(Debug)]
pub struct Config {
    pub log: LogCfg,
    pub user: User,
    pub user_info: UserInfo,
    pub user_cfg: UserCfg,
    pub cargo: cargo::Config,
}

/// What a `Config` holds.
pub struct ConfigView {
    pub log: LogCfgView,
    pub user: UserView,
    pub user_info: UserInfoView,
    pub user_cfg: UserCfg,
    pub cargo: PackageView,
}

impl View for Config {
    type V = ConfigView;

    open spec fn view(&self) -> ConfigView {
        ConfigView {
            log: self.log@,
            user: self.user@,
            user_info: self.user_info@,
            user_cfg: self.user_cfg,
            cargo: self.cargo@,
        }
    }
}

impl ConfigView {
    /// The configuration with nothing set.
    pub open spec fn empty() -> ConfigView {
        ConfigView {
            log: LogCfgView::empty(),
            user: UserView::empty(),
            user_info: UserInfoView::empty(),
            user_cfg: UserCfg::spec_default(),
            cargo: PackageView::empty(),
        }
    }
}

impl Clone for Config {
    fn clone(&self) -> (r: Config)
        ensures
            r@ == self@,
    {
        Config {
            log: self.log.clone(),
            user: self.user.clone(),
            user_info: self.user_info.clone(),
            user_cfg: self.user_cfg,
            cargo: self.cargo.clone(),
        }
    }
}

impl Default for Config {
    fn default() -> (r: Config)
        ensures
            r@ == ConfigView::empty(),
    {
        Config {
            log: LogCfg::default(),
            user: User::default(),
            user_info: UserInfo::default(),
            user_cfg: UserCfg::default(),
            cargo: cargo::Config::default(),
        }
    }
}

/// What a text is after every key between `start` and `end` was
/// replaced: a key is a run of letters, digits and `_`, and it is
/// replaced, taken in lower case, by the title, the version, the name
/// or the origin where it names one of them, and by nothing where it
/// does not. This is what `parse_replace` of the helper crate gives, or
/// the message of its error.
pub uninterp spec fn keys_replaced(
    text: Seq<char>,
    start: char,
    end: char,
    title: Seq<char>,
    version: Seq<char>,
    name: Seq<char>,
    origin: Seq<char>,
) -> Result<Seq<char>, Seq<char>>;

/// `parse_format` of the helper crate: the text with the keys in braces
/// replaced by the date, the time and the like of now. Nothing is
/// claimed of the result: it depends on the clock and on the working
/// directory. An error comes back as its message.
#[verifier::external_body]
pub(crate) fn expand_clock_keys(value: &str) -> (r: Result<String, String>) {
    match e_utils::parse::MyParseFormat::parse_format(&value) {
        Ok(text) => Ok(text),
        Err(e) => Err(e.to_string()),
    }
}

/// `parse_replace` of the helper crate between `start` and `end`, with
/// the keys answered by `Config::rkey_value`. The result is the named
/// replacement; an error comes back as its message.
#[verifier::external_body]
fn replace_keys(text: &str, start: char, end: char, config: &Config, origin: &str) -> (r: Result<
    String,
    String,
>)
    ensures
        match r {
            Ok(out) => keys_replaced(
                text@,
                start,
                end,
                config@.cargo.description,
                config@.cargo.version,
                config@.cargo.name,
                origin@,
            ) == Ok::<Seq<char>, Seq<char>>(out@),
            Err(e) => keys_replaced(
                text@,
                start,
                end,
                config@.cargo.description,
                config@.cargo.version,
                config@.cargo.name,
                origin@,
            ) == Err::<Seq<char>, Seq<char>>(e@),
        },
{
    let found = e_utils::parse::MyParseFormat::parse_replace(
        &text,
        start,
        end,
        |key: String| config.rkey_value(key.as_str(), origin),
    );
    match found {
        Ok(out) => Ok(out),
        Err(e) => Err(e.to_string()),
    }
}

impl ConfigView {
    /// What a text is after every key between `start` and `end` was
    /// replaced by what it stands for under this configuration.
    pub open spec fn replaced(
        self,
        text: Seq<char>,
        start: char,
        end: char,
        origin: Seq<char>,
    ) -> Result<Seq<char>, Seq<char>> {
        keys_replaced(
            text,
            start,
            end,
            self.cargo.description,
            self.cargo.version,
            self.cargo.name,
            origin,
        )
    }

    /// What a key stands for: the description of the package for
    /// `title`, its version for `version`, its name for `name`, the
    /// working directory of the application for `origin`, and nothing
    /// for any other key.
    pub open spec fn rkey_value(self, key: Seq<char>, origin: Seq<char>) -> Seq<char> {
        if key == "title"@ {
            self.cargo.description
        } else if key == "version"@ {
            self.cargo.version
        } else if key == "name"@ {
            self.cargo.name
        } else if key == "origin"@ {
            origin
        } else {
            Seq::empty()
        }
    }
}

impl Config {
    /// What a key stands for, where `origin` is the working directory
    /// of the application.
    pub fn rkey_value(&self, key: &str, origin: &str) -> (value: String)
        ensures
            value@ == self@.rkey_value(key@, origin@),
    {
        let key = String::from_str(key);
        if key == String::from_str("title") {
            self.cargo.package.description.clone()
        } else if key == String::from_str("version") {
            self.cargo.package.version.clone()
        } else if key == String::from_str("name") {
            self.cargo.package.name.clone()
        } else if key == String::from_str("origin") {
            String::from_str(origin)
        } else {
            String::new()
        }
    }

    /// Replaces the keys between two `#` in a text whose keys in braces
    /// were replaced already.
    pub fn rkey_expanded(&self, expanded: &str, origin: &str) -> (r: Result<String, Error>)
        ensures
            match r {
                Ok(out) => self@.replaced(expanded@, '#', '#', origin@) == Ok::<
                    Seq<char>,
                    Seq<char>,
                >(out@),
                Err(Error::EUtils(e)) => self@.replaced(expanded@, '#', '#', origin@)
                    == Err::<Seq<char>, Seq<char>>(e@),
                Err(_) => false,
            },
    {
        match replace_keys(expanded, '#', '#', self, origin) {
            Ok(out) => Ok(out),
            Err(e) => Err(Error::EUtils(e)),
        }
    }

    /// Replaces the keys of a text: first those in braces, by the date,
    /// the time and the like of now, then those between two `#`, by what
    /// they stand for. `origin` is the working directory of the
    /// application. A failure of either step is an error of the helper
    /// crate.
    pub fn rkey(&self, value: &str, origin: &str) -> (r: Result<String, Error>)
        ensures
            match r {
                Ok(out) => exists|expanded: Seq<char>|
                    self@.replaced(expanded, '#', '#', origin@) == Ok::<
                        Seq<char>,
                        Seq<char>,
                    >(out@),
                Err(e) => e is EUtils,
            },
    {
        match expand_clock_keys(value) {
            Ok(expanded) => self.rkey_expanded(expanded.as_str(), origin),
            Err(e) => Err(Error::EUtils(e)),
        }
    }
}

} // verus!
