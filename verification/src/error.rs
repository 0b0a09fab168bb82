//! The library's error type.
use crate::text::{push_str, string_from};
use vstd::prelude::*;

verus! {

/// Errors of the diagnosis pipeline; each carries a human-readable detail.
#[derive(Debug, Clone, PartialEq, Eq)]
pub enum PadaError {
    /// File or process I/O failed.
    Io(String),
    /// The compiler could not be invoked.
    Compile(String),
    /// The program could not be run.
    Run(String),
    /// A file does not exist.
    FileNotFound(String),
    /// Text could not be parsed.
    Parse(String),
    /// Configuration is missing or invalid.
    Config(String),
    /// A model call failed or returned unusable output.
    Llm(String),
    /// The user cancelled the task.
    Cancelled,
}

/// The label that starts the message of each kind of error.
pub open spec fn error_label(e: PadaError) -> Seq<char> {
    match e {
        PadaError::Io(_) => "IO 错误: "@,
        PadaError::Compile(_) => "编译失败: "@,
        PadaError::Run(_) => "程序运行失败: "@,
        PadaError::FileNotFound(_) => "文件未找到: "@,
        PadaError::Parse(_) => "解析错误: "@,
        PadaError::Config(_) => "配置错误: "@,
        PadaError::Llm(_) => "模型调用失败: "@,
        PadaError::Cancelled => "操作已取消"@,
    }
}

/// The human-readable message of an error: its label, then its detail.
pub open spec fn error_message(e: PadaError) -> Seq<char> {
    match e {
        PadaError::Io(d) => error_label(e) + d@,
        PadaError::Compile(d) => error_label(e) + d@,
        PadaError::Run(d) => error_label(e) + d@,
        PadaError::FileNotFound(d) => error_label(e) + d@,
        PadaError::Parse(d) => error_label(e) + d@,
        PadaError::Config(d) => error_label(e) + d@,
        PadaError::Llm(d) => error_label(e) + d@,
        PadaError::Cancelled => error_label(e),
    }
}

impl PadaError {
    /// The message shown to users (what `to_string` gives).
    pub fn message(&self) -> (r: String)
        ensures
            r@ == error_message(*self),
    {
        match self {
            PadaError::Io(d) => {
                let mut s = string_from("IO 错误: ");
                push_str(&mut s, d.as_str());
                s
            },
            PadaError::Compile(d) => {
                let mut s = string_from("编译失败: ");
                push_str(&mut s, d.as_str());
                s
            },
            PadaError::Run(d) => {
                let mut s = string_from("程序运行失败: ");
                push_str(&mut s, d.as_str());
                s
            },
            PadaError::FileNotFound(d) => {
                let mut s = string_from("文件未找到: ");
                push_str(&mut s, d.as_str());
                s
            },
            PadaError::Parse(d) => {
                let mut s = string_from("解析错误: ");
                push_str(&mut s, d.as_str());
                s
            },
            PadaError::Config(d) => {
                let mut s = string_from("配置错误: ");
                push_str(&mut s, d.as_str());
                s
            },
            PadaError::Llm(d) => {
                let mut s = string_from("模型调用失败: ");
                push_str(&mut s, d.as_str());
                s
            },
            PadaError::Cancelled => string_from("操作已取消"),
        }
    }
}

} // verus!
