//! The stored row of an external application that the test bench runs.

use vstd::prelude::*;

use crate::db::types::json::{is_text_array, text_array, texts, texts_in};

verus! {

/// An external application as the store holds it: the command and the
/// filter as JSON. Times are milliseconds since the Unix epoch.
#[derive(Debug)]
pub struct ExtendAppQ {
    pub id: i32,
    pub tag: String,
    pub label: String,
    pub enable: bool,
    pub kind: i32,
    pub priority: i32,
    pub is_check: bool,
    pub is_repeat: bool,
    pub is_wait: bool,
    pub timeout: i32,
    pub count: i32,
    pub cmd: serde_json::Value,
    pub cwd: Option<String>,
    pub res_url: Option<String>,
    pub filter: serde_json::Value,
    pub created_at: i64,
    pub updated_at: i64,
}

/// An external application. Times are milliseconds since the Unix epoch.
#[derive(Debug)]
pub struct ExtendApp {
    pub id: i32,
    pub tag: String,
    pub label: String,
    pub enable: bool,
    pub kind: i32,
    pub priority: i32,
    pub is_check: bool,
    pub is_repeat: bool,
    pub is_wait: bool,
    pub timeout: i32,
    pub count: i32,
    pub cmd: Vec<String>,
    pub cwd: Option<String>,
    pub res_url: Option<String>,
    pub filter: Vec<String>,
    pub created_at: i64,
    pub updated_at: i64,
}

/// What an `ExtendApp` holds.
pub struct ExtendAppView {
    pub id: i32,
    pub tag: Seq<char>,
    pub label: Seq<char>,
    pub enable: bool,
    pub kind: i32,
    pub priority: i32,
    pub is_check: bool,
    pub is_repeat: bool,
    pub is_wait: bool,
    pub timeout: i32,
    pub count: i32,
    pub cmd: Seq<Seq<char>>,
    pub cwd: Option<Seq<char>>,
    pub res_url: Option<Seq<char>>,
    pub filter: Seq<Seq<char>>,
    pub created_at: i64,
    pub updated_at: i64,
}

impl View for ExtendApp {
    type V = ExtendAppView;

    open spec fn view(&self) -> ExtendAppView {
        ExtendAppView {
            id: self.id,
            tag: self.tag@,
            label: self.label@,
            enable: self.enable,
            kind: self.kind,
            priority: self.priority,
            is_check: self.is_check,
            is_repeat: self.is_repeat,
            is_wait: self.is_wait,
            timeout: self.timeout,
            count: self.count,
            cmd: self.cmd.deep_view(),
            cwd: self.cwd.deep_view(),
            res_url: self.res_url.deep_view(),
            filter: self.filter.deep_view(),
            created_at: self.created_at,
            updated_at: self.updated_at,
        }
    }
}

impl ExtendAppQ {
    /// The application that a row reads as.
    pub open spec fn read(self) -> ExtendAppView {
        ExtendAppView {
            id: self.id,
            tag: self.tag@,
            label: self.label@,
            enable: self.enable,
            kind: self.kind,
            priority: self.priority,
            is_check: self.is_check,
            is_repeat: self.is_repeat,
            is_wait: self.is_wait,
            timeout: self.timeout,
            count: self.count,
            cmd: texts_in(self.cmd),
            cwd: self.cwd.deep_view(),
            res_url: self.res_url.deep_view(),
            filter: texts_in(self.filter),
            created_at: self.created_at,
            updated_at: self.updated_at,
        }
    }

    /// True where the row stores `app`: the command and the filter as
    /// JSON arrays of JSON strings, everything else as it is.
    pub open spec fn stores(self, app: ExtendAppView) -> bool {
        &&& self.id == app.id
        &&& self.tag@ == app.tag
        &&& self.label@ == app.label
        &&& self.enable == app.enable
        &&& self.kind == app.kind
        &&& self.priority == app.priority
        &&& self.is_check == app.is_check
        &&& self.is_repeat == app.is_repeat
        &&& self.is_wait == app.is_wait
        &&& self.timeout == app.timeout
        &&& self.count == app.count
        &&& is_text_array(self.cmd, app.cmd)
        &&& self.cwd.deep_view() == app.cwd
        &&& self.res_url.deep_view() == app.res_url
        &&& is_text_array(self.filter, app.filter)
        &&& self.created_at == app.created_at
        &&& self.updated_at == app.updated_at
    }

    /// The row that stores an application.
    pub fn from(value: ExtendApp) -> (q: ExtendAppQ)
        ensures
            q.stores(value@),
    {
        ExtendAppQ {
            id: value.id,
            tag: value.tag,
            label: value.label,
            enable: value.enable,
            kind: value.kind,
            priority: value.priority,
            is_check: value.is_check,
            is_repeat: value.is_repeat,
            is_wait: value.is_wait,
            timeout: value.timeout,
            count: value.count,
            cmd: text_array(value.cmd),
            cwd: value.cwd,
            res_url: value.res_url,
            filter: text_array(value.filter),
            created_at: value.created_at,
            updated_at: value.updated_at,
        }
    }
}

impl ExtendApp {
    /// Reads an application from its stored row. Of the command and of
    /// the filter only the strings of a JSON array are read; anything
    /// else in them is passed over.
    pub fn from(value: ExtendAppQ) -> (app: ExtendApp)
        ensures
            app@ == value.read(),
    {
        let cmd = texts(&value.cmd);
        let filter = texts(&value.filter);
        ExtendApp {
            id: value.id,
            tag: value.tag,
            label: value.label,
            enable: value.enable,
            kind: value.kind,
            priority: value.priority,
            is_check: value.is_check,
            is_repeat: value.is_repeat,
            is_wait: value.is_wait,
            timeout: value.timeout,
            count: value.count,
            cmd,
            cwd: value.cwd,
            res_url: value.res_url,
            filter,
            created_at: value.created_at,
            updated_at: value.updated_at,
        }
    }
}

/// An application that is stored and read back is the same application.
pub proof fn lemma_extend_app_round_trip(app: ExtendAppView, q: ExtendAppQ)
    requires
        q.stores(app),
    ensures
        q.read() == app,
{
    crate::db::types::json::lemma_text_array_round_trip(q.cmd, app.cmd);
    crate::db::types::json::lemma_text_array_round_trip(q.filter, app.filter);
}

} // verus!
