//! Log settings, the tags of log lines and the history of what was logged.

pub mod log;

use vstd::prelude::*;

verus! {

/// How severe a log line is.
#[derive(Clone, Copy, Debug, PartialEq, Eq, Structural)]
pub enum Level {
    Off,
    Error,
    Warn,
    Info,
    Debug,
    Trace,
}

impl Level {
    /// The level that is stored under `code`. Every number that stands
    /// for no level reads as `Off`.
    pub open spec fn spec_from_code(code: i32) -> Level {
        if code == 1 {
            Level::Error
        } else if code == 2 {
            Level::Warn
        } else if code == 3 {
            Level::Info
        } else if code == 4 {
            Level::Debug
        } else if code == 5 {
            Level::Trace
        } else {
            Level::Off
        }
    }

    /// The level that is stored under `code`.
    #[verifier::when_used_as_spec(spec_from_code)]
    pub fn from_code(code: i32) -> (level: Level)
        ensures
            level == Level::spec_from_code(code),
    {
        if code == 1 {
            Level::Error
        } else if code == 2 {
            Level::Warn
        } else if code == 3 {
            Level::Info
        } else if code == 4 {
            Level::Debug
        } else if code == 5 {
            Level::Trace
        } else {
            Level::Off
        }
    }

    /// The number under which a level is stored.
    pub open spec fn spec_code(&self) -> i32 {
        match self {
            Level::Off => 0,
            Level::Error => 1,
            Level::Warn => 2,
            Level::Info => 3,
            Level::Debug => 4,
            Level::Trace => 5,
        }
    }

    /// The number under which a level is stored.
    #[verifier::when_used_as_spec(spec_code)]
    pub fn code(&self) -> (code: i32)
        ensures
            code == self.spec_code(),
    {
        match self {
            Level::Off => 0,
            Level::Error => 1,
            Level::Warn => 2,
            Level::Info => 3,
            Level::Debug => 4,
            Level::Trace => 5,
        }
    }

    /// A level that is stored and read back is the same level.
    pub proof fn lemma_code_round_trip(level: Level)
        ensures
            Level::spec_from_code(level.spec_code()) == level,
    {
    }
}

impl Default for Level {
    fn default() -> (level: Level)
        ensures
            level == Level::Info,
    {
        Level::Info
    }
}

/// The form of the files in an output directory.
#[derive(Clone, Copy, Debug, PartialEq, Eq, Structural)]
pub enum LogOutDirType {
    Text,
    Json,
}

/// Where log lines go.
#[derive(Clone, Copy, Debug, PartialEq, Eq, Structural)]
pub enum LogTarget {
    Stdout,
    Stderr,
    Folder,
    OutDir(LogOutDirType),
    Web,
}

/// The log settings. Times are milliseconds since the Unix epoch.
#[derive(Debug)]
pub struct LogCfg {
    pub id: i32,
    pub level: Level,
    pub folder: String,
    pub fname: String,
    pub format: String,
    pub output_list: Vec<LogTarget>,
    pub tracing: bool,
    pub created_at: i64,
    pub updated_at: i64,
}

/// What a `LogCfg` holds.
pub struct LogCfgView {
    pub id: i32,
    pub level: Level,
    pub folder: Seq<char>,
    pub fname: Seq<char>,
    pub format: Seq<char>,
    pub output_list: Seq<LogTarget>,
    pub tracing: bool,
    pub created_at: i64,
    pub updated_at: i64,
}

impl View for LogCfg {
    type V = LogCfgView;

    open spec fn view(&self) -> LogCfgView {
        LogCfgView {
            id: self.id,
            level: self.level,
            folder: self.folder@,
            fname: self.fname@,
            format: self.format@,
            output_list: self.output_list@,
            tracing: self.tracing,
            created_at: self.created_at,
            updated_at: self.updated_at,
        }
    }
}

impl LogCfgView {
    /// The settings with nothing set.
    pub open spec fn empty() -> LogCfgView {
        LogCfgView {
            id: 0,
            level: Level::Info,
            folder: Seq::empty(),
            fname: Seq::empty(),
            format: Seq::empty(),
            output_list: Seq::empty(),
            tracing: false,
            created_at: 0,
            updated_at: 0,
        }
    }
}

impl Clone for LogCfg {
    fn clone(&self) -> (r: LogCfg)
        ensures
            r@ == self@,
    {
        let mut output_list: Vec<LogTarget> = Vec::new();
        let mut i: usize = 0;
        while i < self.output_list.len()
            invariant
                i <= self.output_list.len(),
                output_list@ == self.output_list@.take(i as int),
            decreases self.output_list.len() - i,
        {
            output_list.push(self.output_list[i]);
            i = i + 1;
        }
        assert(output_list@ =~= self.output_list@);
        LogCfg {
            id: self.id,
            level: self.level,
            folder: self.folder.clone(),
            fname: self.fname.clone(),
            format: self.format.clone(),
            output_list,
            tracing: self.tracing,
            created_at: self.created_at,
            updated_at: self.updated_at,
        }
    }
}

impl Default for LogCfg {
    fn default() -> (r: LogCfg)
        ensures
            r@ == LogCfgView::empty(),
    {
        LogCfg {
            id: 0,
            level: Level::Info,
            folder: String::new(),
            fname: String::new(),
            format: String::new(),
            output_list: Vec::new(),
            tracing: false,
            created_at: 0,
            updated_at: 0,
        }
    }
}

impl LogCfg {
    /// The name of the log file that `flag` marks: `flag` in front of
    /// the configured file name.
    pub fn file_name(&self, flag: &str) -> (name: String)
        ensures
            name@ == flag@ + self.fname@,
    {
        let mut name = String::from_str(flag);
        name.append(self.fname.as_str());
        name
    }
}

/// What a log line is about.
#[derive(Copy, Clone, Debug, PartialEq, Eq, Structural)]
pub enum Tag {
    Dev,
    Login,
    AutoHandle,
    DataAnalysis,
    DataPrint,
    Window,
    LoadSetting,
    SaveSetting,
    DatabaseOffline,
    Unknow,
}

impl Default for Tag {
    fn default() -> (tag: Tag)
        ensures
            tag == Tag::Unknow,
    {
        Tag::Unknow
    }
}

impl Tag {
    /// The word that stands for a tag in a log line.
    pub open spec fn spec_label(&self) -> Seq<char> {
        match self {
            Tag::Login => "登录"@,
            Tag::Window => "窗口"@,
            Tag::LoadSetting => "加载配置"@,
            Tag::SaveSetting => "保存配置"@,
            Tag::AutoHandle => "自动监听"@,
            Tag::DatabaseOffline => "离线数据库"@,
            Tag::DataAnalysis => "数据分析"@,
            Tag::DataPrint => "数据打印"@,
            Tag::Unknow => "未知"@,
            Tag::Dev => "BUG"@,
        }
    }

    /// The word that stands for a tag in a log line.
    pub fn label(&self) -> (s: &'static str)
        ensures
            s@ == self.spec_label(),
    {
        match self {
            Tag::Login => "登录",
            Tag::Window => "窗口",
            Tag::LoadSetting => "加载配置",
            Tag::SaveSetting => "保存配置",
            Tag::AutoHandle => "自动监听",
            Tag::DatabaseOffline => "离线数据库",
            Tag::DataAnalysis => "数据分析",
            Tag::DataPrint => "数据打印",
            Tag::Unknow => "未知",
            Tag::Dev => "BUG",
        }
    }

    /// The word that stands for a tag in a log line.
    pub fn to_string(&self) -> (s: String)
        ensures
            s@ == self.spec_label(),
    {
        String::from_str(self.label())
    }
}

} // verus!
