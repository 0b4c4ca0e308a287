//! The store of the configuration: its rows and the rules around them.

pub mod apis;
pub mod sqlite;
pub mod types;

use vstd::prelude::*;

verus! {

/// Which migrations a revert is about.
#[derive(Debug, Clone, Copy, PartialEq, Eq, Structural)]
pub enum DatabaseTableType {
    /// All of them.
    All,
    /// The last one.
    Last,
    /// The one with this number.
    Num(i64),
    /// None that is known.
    Unknown,
}

/// The lower-case form of a text, as `str::to_lowercase` gives it.
pub uninterp spec fn lowercase(s: Seq<char>) -> Seq<char>;

/// The number that a text reads as, as `str::parse::<i64>` gives it, or
/// `None` where the text is no number.
pub uninterp spec fn parsed_i64(s: Seq<char>) -> Option<i64>;

/// `str::to_lowercase`: the result is the lower-case form of `s`. Nothing
/// is claimed of what that form is.
#[verifier::external_body]
fn to_lowercase(s: &str) -> (r: String)
    ensures
        r@ == lowercase(s@),
{
    s.to_lowercase()
}

/// `str::parse::<i64>`: the result is the number that `s` reads as, or
/// `None` where parsing fails. Nothing is claimed of which texts read as
/// which number.
#[verifier::external_body]
fn parse_i64(s: &str) -> (r: Option<i64>)
    ensures
        r == parsed_i64(s@),
{
    s.parse::<i64>().ok()
}

impl DatabaseTableType {
    /// The name of a kind.
    pub open spec fn spec_name(&self) -> Seq<char> {
        match self {
            DatabaseTableType::All => "all"@,
            DatabaseTableType::Last => "last"@,
            DatabaseTableType::Num(_) => "num"@,
            DatabaseTableType::Unknown => ""@,
        }
    }

    /// The name of a kind.
    pub fn to_string(&self) -> (s: String)
        ensures
            s@ == self.spec_name(),
    {
        String::from_str(
            match self {
                DatabaseTableType::All => "all",
                DatabaseTableType::Last => "last",
                DatabaseTableType::Num(_) => "num",
                DatabaseTableType::Unknown => "",
            },
        )
    }

    /// The position that a kind stands for.
    pub open spec fn spec_index(&self) -> i64 {
        match self {
            DatabaseTableType::All => 0,
            DatabaseTableType::Last => 0,
            DatabaseTableType::Num(i) => *i,
            DatabaseTableType::Unknown => 99999,
        }
    }

    /// The position that a kind stands for.
    #[verifier::when_used_as_spec(spec_index)]
    pub fn index(&self) -> (i: i64)
        ensures
            i == self.spec_index(),
    {
        match self {
            DatabaseTableType::All => 0,
            DatabaseTableType::Last => 0,
            DatabaseTableType::Num(i) => *i,
            DatabaseTableType::Unknown => 99999,
        }
    }

    /// The kind that a key in lower case names, where `parsed` is the
    /// number that the key reads as: `all`, `last`, a number, or nothing
    /// that is known.
    pub open spec fn spec_classify(key: Seq<char>, parsed: Option<i64>) -> DatabaseTableType {
        if key == "all"@ {
            DatabaseTableType::All
        } else if key == "last"@ {
            DatabaseTableType::Last
        } else {
            match parsed {
                Some(i) => DatabaseTableType::Num(i),
                None => DatabaseTableType::Unknown,
            }
        }
    }

    /// The kind that a key in lower case names, where `parsed` is the
    /// number that the key reads as.
    pub fn classify(key: &str, parsed: Option<i64>) -> (t: DatabaseTableType)
        ensures
            t == DatabaseTableType::spec_classify(key@, parsed),
    {
        let key = String::from_str(key);
        if key == DatabaseTableType::All.to_string() {
            DatabaseTableType::All
        } else if key == DatabaseTableType::Last.to_string() {
            DatabaseTableType::Last
        } else {
            match parsed {
                Some(i) => DatabaseTableType::Num(i),
                None => DatabaseTableType::Unknown,
            }
        }
    }

    /// The kind that `key` names, whatever its case.
    pub fn match_table(key: &str) -> (t: DatabaseTableType)
        ensures
            t == DatabaseTableType::spec_classify(lowercase(key@), parsed_i64(lowercase(key@))),
    {
        let key = to_lowercase(key);
        let parsed = parse_i64(key.as_str());
        DatabaseTableType::classify(key.as_str(), parsed)
    }

    /// How many migrations a revert undoes down to, where `count` is the
    /// number of migrations that were run: down to the one before the
    /// last for `Last`, down to its position for `All` and `Num`. A kind
    /// that is not known is refused.
    pub fn undo_target(&self, count: i64) -> (r: Option<i64>)
        requires
            *self == DatabaseTableType::Last ==> count > i64::MIN,
        ensures
            r == (match self {
                DatabaseTableType::Last => Some((count - 1) as i64),
                DatabaseTableType::Unknown => None,
                _ => Some(self.spec_index()),
            }),
    {
        match self {
            DatabaseTableType::Last => Some(count - 1),
            DatabaseTableType::Unknown => None,
            _ => Some(self.index()),
        }
    }
}

} // verus!
