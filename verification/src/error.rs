//! The error of the core.

use vstd::prelude::*;

use crate::text::concat2;

verus! {

/// What can go wrong in the core.
#[derive(Debug)]
pub enum CoreError {
    /// The configuration lacks something that the operation needs.
    ConfigIncomplete(String),
    /// An operation on the network failed.
    Network(String),
    /// The state could not be read or written.
    Persistence(String),
    /// There is an active handle already.
    AlreadyEnabled,
    /// The bypass is not enabled.
    NotEnabled,
    /// Anything else.
    Other(String),
}

/// An error with its text as characters.
pub enum ErrorView {
    ConfigIncomplete(Seq<char>),
    Network(Seq<char>),
    Persistence(Seq<char>),
    AlreadyEnabled,
    NotEnabled,
    Other(Seq<char>),
}

impl View for CoreError {
    type V = ErrorView;

    open spec fn view(&self) -> ErrorView {
        match *self {
            CoreError::ConfigIncomplete(s) => ErrorView::ConfigIncomplete(s@),
            CoreError::Network(s) => ErrorView::Network(s@),
            CoreError::Persistence(s) => ErrorView::Persistence(s@),
            CoreError::AlreadyEnabled => ErrorView::AlreadyEnabled,
            CoreError::NotEnabled => ErrorView::NotEnabled,
            CoreError::Other(s) => ErrorView::Other(s@),
        }
    }
}

impl ErrorView {
    /// The message that a user reads.
    pub open spec fn message(self) -> Seq<char> {
        match self {
            ErrorView::ConfigIncomplete(s) => "配置未完成："@ + s,
            ErrorView::Network(s) => "网络操作失败："@ + s,
            ErrorView::Persistence(s) => "状态持久化失败："@ + s,
            ErrorView::AlreadyEnabled => "任务冲突：当前已有活动句柄"@,
            ErrorView::NotEnabled => "当前未启用旁路由"@,
            ErrorView::Other(s) => s,
        }
    }
}

impl CoreError {
    /// The code under which the error is reported to a client.
    pub fn app_error_code(&self) -> (code: i32)
        ensures
            code == 1,
    {
        1
    }

    /// The message that a user reads.
    pub fn message(&self) -> (out: String)
        ensures
            out@ == self@.message(),
    {
        match self {
            CoreError::ConfigIncomplete(s) => concat2("配置未完成：", s.as_str()),
            CoreError::Network(s) => concat2("网络操作失败：", s.as_str()),
            CoreError::Persistence(s) => concat2("状态持久化失败：", s.as_str()),
            CoreError::AlreadyEnabled => "任务冲突：当前已有活动句柄".to_owned(),
            CoreError::NotEnabled => "当前未启用旁路由".to_owned(),
            CoreError::Other(s) => s.clone(),
        }
    }
}

impl Clone for CoreError {
    fn clone(&self) -> (res: Self)
        ensures
            res@ == self@,
    {
        match self {
            CoreError::ConfigIncomplete(s) => CoreError::ConfigIncomplete(s.clone()),
            CoreError::Network(s) => CoreError::Network(s.clone()),
            CoreError::Persistence(s) => CoreError::Persistence(s.clone()),
            CoreError::AlreadyEnabled => CoreError::AlreadyEnabled,
            CoreError::NotEnabled => CoreError::NotEnabled,
            CoreError::Other(s) => CoreError::Other(s.clone()),
        }
    }
}

} // verus!
