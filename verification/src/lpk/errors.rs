//! The failures of an extraction.

use crate::strings::concat3;
use vstd::prelude::*;
use vstd::string::StringExecFns;

verus! {

/// Why an extraction gave up.
#[derive(Debug, PartialEq)]
pub enum LpkError {
    /// A file could not be read or written.
    IoError { path: String, message: String },
    /// The archive could not be read.
    ZipError(String),
    /// A text or an entry could not be decoded.
    DecodeError { format: String, message: String },
    /// The archive holds no manifest.
    ConfigMissing,
    /// The type of the archive is not known.
    UnsupportedLpkType(String),
    /// An entry could not be decrypted.
    DecryptionFailed(String),
    UnknownError,
}

/// What an [`LpkError`] holds.
pub enum LpkErrorView {
    IoError { path: Seq<char>, message: Seq<char> },
    ZipError(Seq<char>),
    DecodeError { format: Seq<char>, message: Seq<char> },
    ConfigMissing,
    UnsupportedLpkType(Seq<char>),
    DecryptionFailed(Seq<char>),
    UnknownError,
}

impl View for LpkError {
    type V = LpkErrorView;

    open spec fn view(&self) -> LpkErrorView {
        match self {
            LpkError::IoError { path, message } => LpkErrorView::IoError {
                path: path@,
                message: message@,
            },
            LpkError::ZipError(message) => LpkErrorView::ZipError(message@),
            LpkError::DecodeError { format, message } => LpkErrorView::DecodeError {
                format: format@,
                message: message@,
            },
            LpkError::ConfigMissing => LpkErrorView::ConfigMissing,
            LpkError::UnsupportedLpkType(kind) => LpkErrorView::UnsupportedLpkType(kind@),
            LpkError::DecryptionFailed(message) => LpkErrorView::DecryptionFailed(message@),
            LpkError::UnknownError => LpkErrorView::UnknownError,
        }
    }
}

/// The text that tells of a failure.
pub open spec fn message_of(error: LpkErrorView) -> Seq<char> {
    match error {
        LpkErrorView::IoError { path, message } => "IO错误: "@ + path + " "@ + message,
        LpkErrorView::ZipError(message) => "Zip错误: "@ + message,
        LpkErrorView::DecodeError { format, message } => "解码错误: "@ + format + " "@ + message,
        LpkErrorView::ConfigMissing => "配置文件缺失"@,
        LpkErrorView::UnsupportedLpkType(kind) => "不支持的LPK类型: "@ + kind,
        LpkErrorView::DecryptionFailed(message) => "解密失败: "@ + message,
        LpkErrorView::UnknownError => "未知错误"@,
    }
}

impl LpkError {
    /// The text that tells of this failure.
    pub fn message(&self) -> (text: String)
        ensures
            text@ == message_of(self@),
    {
        match self {
            LpkError::IoError { path, message } => {
                let mut text = concat3("IO错误: ", path.as_str(), " ");
                text.append(message.as_str());
                text
            },
            LpkError::ZipError(message) => String::from_str("Zip错误: ").concat(message.as_str()),
            LpkError::DecodeError { format, message } => {
                let mut text = concat3("解码错误: ", format.as_str(), " ");
                text.append(message.as_str());
                text
            },
            LpkError::ConfigMissing => String::from_str("配置文件缺失"),
            LpkError::UnsupportedLpkType(kind) => String::from_str("不支持的LPK类型: ").concat(
                kind.as_str(),
            ),
            LpkError::DecryptionFailed(message) => String::from_str("解密失败: ").concat(
                message.as_str(),
            ),
            LpkError::UnknownError => String::from_str("未知错误"),
        }
    }
}

} // verus!
