//! The stored row of the log settings.

use vstd::prelude::*;

use crate::config::logger::{Level, LogCfg, LogOutDirType, LogTarget};
use crate::db::types::json::{json_text_list, json_to_text_list};

verus! {

/// The log settings as the store holds them: the level by its number,
/// the outputs as JSON. Times are milliseconds since the Unix epoch.
#[derive(Debug)]
pub struct LogQ {
    pub id: i32,
    pub level: i32,
    pub folder: String,
    pub fname: String,
    pub format: Option<String>,
    pub output_list: serde_json::Value,
    pub tracing: bool,
    pub created_at: i64,
    pub updated_at: i64,
}

/// The output that a name stands for, if it stands for one.
pub open spec fn spec_parse_target(name: Seq<char>) -> Option<LogTarget> {
    if name == "Stdout"@ {
        Some(LogTarget::Stdout)
    } else if name == "Stderr"@ {
        Some(LogTarget::Stderr)
    } else if name == "Folder"@ {
        Some(LogTarget::Folder)
    } else if name == "OutDirJson"@ {
        Some(LogTarget::OutDir(LogOutDirType::Json))
    } else if name == "OutDirText"@ {
        Some(LogTarget::OutDir(LogOutDirType::Text))
    } else if name == "Web"@ {
        Some(LogTarget::Web)
    } else {
        None
    }
}

/// `LogTarget::from_str` of the logging crate: the output that a name
/// stands for, with an empty path for a folder, or `None` for a name
/// that stands for none.
#[verifier::external_body]
fn parse_target(name: &str) -> (r: Option<LogTarget>)
    ensures
        r == spec_parse_target(name@),
{
    match e_log::LogTarget::from_str(name) {
        Ok(e_log::LogTarget::Stdout) => Some(LogTarget::Stdout),
        Ok(e_log::LogTarget::Stderr) => Some(LogTarget::Stderr),
        Ok(e_log::LogTarget::Folder(_)) => Some(LogTarget::Folder),
        Ok(e_log::LogTarget::OutDir(e_log::LogOutDirType::Json)) => Some(
            LogTarget::OutDir(LogOutDirType::Json),
        ),
        Ok(e_log::LogTarget::OutDir(e_log::LogOutDirType::Text)) => Some(
            LogTarget::OutDir(LogOutDirType::Text),
        ),
        Ok(e_log::LogTarget::Web) => Some(LogTarget::Web),
        Err(_) => None,
    }
}

/// The JSON that a list of outputs is stored as: what
/// `serde_json::to_value` gives for the outputs of the logging crate,
/// and the JSON `null` where it fails.
pub uninterp spec fn targets_json(list: Seq<LogTarget>) -> serde_json::Value;

/// `serde_json::to_value` on the outputs as the logging crate has them,
/// a folder with an empty path. The result is the named JSON.
#[verifier::external_body]
fn targets_to_json(list: &Vec<LogTarget>) -> (r: serde_json::Value)
    ensures
        r == targets_json(list@),
{
    let outside: Vec<e_log::LogTarget> = list.iter().map(
        |t| match t {
            LogTarget::Stdout => e_log::LogTarget::Stdout,
            LogTarget::Stderr => e_log::LogTarget::Stderr,
            LogTarget::Folder => e_log::LogTarget::Folder(std::path::PathBuf::new()),
            LogTarget::OutDir(LogOutDirType::Json) => e_log::LogTarget::OutDir(e_log::LogOutDirType::Json),
            LogTarget::OutDir(LogOutDirType::Text) => e_log::LogTarget::OutDir(e_log::LogOutDirType::Text),
            LogTarget::Web => e_log::LogTarget::Web,
        },
    ).collect();
    match serde_json::to_value(&outside) {
        Ok(v) => v,
        Err(_) => serde_json::Value::Null,
    }
}

/// The outputs that a list of names stands for: every name that stands
/// for an output gives it, in the order of the names, and every other
/// name gives nothing.
pub open spec fn targets_of(names: Seq<Seq<char>>) -> Seq<LogTarget>
    decreases names.len(),
{
    if names.len() == 0 {
        Seq::empty()
    } else {
        match spec_parse_target(names.last()) {
            Some(target) => targets_of(names.drop_last()).push(target),
            None => targets_of(names.drop_last()),
        }
    }
}

/// The outputs that a JSON value stands for: those of its names where it
/// reads as a list of texts, and none where it does not.
pub open spec fn targets_in(v: serde_json::Value) -> Seq<LogTarget> {
    match json_text_list(v) {
        Some(names) => targets_of(names),
        None => Seq::empty(),
    }
}

/// Reads the outputs that a list of names stands for.
pub fn targets(names: &Vec<String>) -> (out: Vec<LogTarget>)
    ensures
        out@ == targets_of(names.deep_view()),
{
    let mut out: Vec<LogTarget> = Vec::new();
    let mut i: usize = 0;
    while i < names.len()
        invariant
            i <= names.len(),
            out@ == targets_of(names.deep_view().take(i as int)),
        decreases names.len() - i,
    {
        assert(names.deep_view().take(i + 1).drop_last() =~= names.deep_view().take(i as int));
        match parse_target(names[i].as_str()) {
            Some(target) => {
                out.push(target);
            },
            None => {},
        }
        i = i + 1;
    }
    assert(names.deep_view().take(names.len() as int) =~= names.deep_view());
    out
}

impl LogCfg {
    /// Reads the log settings from their stored row. A level number that
    /// stands for no level reads as `Off`, a missing format as the empty
    /// one, and outputs that do not read as a list of names as none.
    pub fn from(value: LogQ) -> (cfg: LogCfg)
        ensures
            cfg.id == value.id,
            cfg.level == Level::spec_from_code(value.level),
            cfg.folder@ == value.folder@,
            cfg.fname@ == value.fname@,
            cfg.format@ == (match value.format {
                Some(format) => format@,
                None => Seq::empty(),
            }),
            cfg.output_list@ == targets_in(value.output_list),
            cfg.tracing == value.tracing,
            cfg.created_at == value.created_at,
            cfg.updated_at == value.updated_at,
    {
        let level = Level::from_code(value.level);
        let output_list = match json_to_text_list(value.output_list) {
            Some(names) => targets(&names),
            None => Vec::new(),
        };
        let format = match value.format {
            Some(format) => format,
            None => String::new(),
        };
        LogCfg {
            id: value.id,
            level,
            folder: value.folder,
            fname: value.fname,
            format,
            output_list,
            tracing: value.tracing,
            created_at: value.created_at,
            updated_at: value.updated_at,
        }
    }

    /// The row that stores the log settings. The row carries no times of
    /// its own: the store sets them.
    pub fn into(self) -> (q: LogQ)
        ensures
            q.id == self.id,
            q.level == self.level.spec_code(),
            q.folder@ == self.folder@,
            q.fname@ == self.fname@,
            q.format matches Some(format) && format@ == self.format@,
            q.output_list == targets_json(self.output_list@),
            q.tracing == self.tracing,
            q.created_at == 0,
            q.updated_at == 0,
    {
        let output_list = targets_to_json(&self.output_list);
        LogQ {
            id: self.id,
            level: self.level.code(),
            folder: self.folder,
            fname: self.fname,
            format: Some(self.format),
            output_list,
            tracing: self.tracing,
            created_at: 0,
            updated_at: 0,
        }
    }
}

} // verus!
