//! The columns of the test table.

use vstd::prelude::*;

verus! {

/// What a column of the test table shows.
#[derive(Debug, Clone, Copy, PartialEq, Eq, Structural)]
pub enum ColumnKind {
    Index,
    Label,
    State,
    Value,
    ResValue,
    Type,
    Priority,
    IsCheck,
    IsRepeat,
    IsWait,
    Timeout,
    Count,
}

impl ColumnKind {
    /// The width that a column of this kind starts with, in whole
    /// logical pixels.
    pub open spec fn spec_width(&self) -> u32 {
        match self {
            ColumnKind::Index => 50,
            ColumnKind::Label => 140,
            ColumnKind::State => 140,
            ColumnKind::Type => 60,
            ColumnKind::Value => 150,
            ColumnKind::ResValue => 150,
            ColumnKind::Priority => 70,
            ColumnKind::IsCheck => 50,
            ColumnKind::IsRepeat => 50,
            ColumnKind::IsWait => 50,
            ColumnKind::Timeout => 60,
            ColumnKind::Count => 80,
        }
    }

    /// The heading of a column of this kind.
    pub open spec fn spec_title(&self) -> Seq<char> {
        match self {
            ColumnKind::Index => "序号"@,
            ColumnKind::Label => "标签"@,
            ColumnKind::State => "状态"@,
            ColumnKind::Value => "标准值"@,
            ColumnKind::ResValue => "结果值"@,
            ColumnKind::Type => "类型"@,
            ColumnKind::Priority => "优先级"@,
            ColumnKind::IsCheck => "是否检查"@,
            ColumnKind::IsRepeat => "是否重复"@,
            ColumnKind::IsWait => "是否等待"@,
            ColumnKind::Timeout => "延迟"@,
            ColumnKind::Count => "次数"@,
        }
    }

    /// The heading of a column of this kind.
    pub fn title(&self) -> (s: &'static str)
        ensures
            s@ == self.spec_title(),
    {
        match self {
            ColumnKind::Index => "序号",
            ColumnKind::Label => "标签",
            ColumnKind::State => "状态",
            ColumnKind::Value => "标准值",
            ColumnKind::ResValue => "结果值",
            ColumnKind::Type => "类型",
            ColumnKind::Priority => "优先级",
            ColumnKind::IsCheck => "是否检查",
            ColumnKind::IsRepeat => "是否重复",
            ColumnKind::IsWait => "是否等待",
            ColumnKind::Timeout => "延迟",
            ColumnKind::Count => "次数",
        }
    }
}

/// A column of the test table. Widths are whole logical pixels.
#[derive(Debug, Clone, Copy, PartialEq, Eq, Structural)]
pub struct Column {
    pub kind: ColumnKind,
    pub width: u32,
    pub resize_offset: Option<i32>,
}

impl Column {
    /// A column of `kind` at its starting width, not being resized.
    pub fn new(kind: ColumnKind) -> (c: Column)
        ensures
            c == (Column { kind, width: kind.spec_width(), resize_offset: None }),
    {
        let width: u32 = match kind {
            ColumnKind::Index => 50,
            ColumnKind::Label => 140,
            ColumnKind::State => 140,
            ColumnKind::Type => 60,
            ColumnKind::Value => 150,
            ColumnKind::ResValue => 150,
            ColumnKind::Priority => 70,
            ColumnKind::IsCheck => 50,
            ColumnKind::IsRepeat => 50,
            ColumnKind::IsWait => 50,
            ColumnKind::Timeout => 60,
            ColumnKind::Count => 80,
        };
        Column { kind, width, resize_offset: None }
    }
}

} // verus!
