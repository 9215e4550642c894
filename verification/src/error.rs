//! The failures a decode can end in.

use vstd::prelude::*;
use vstd::string::*;

verus! {

/// Why a container could not be decoded or its result not be stored.
#[derive(Debug, Clone, Copy, PartialEq, Eq, Structural)]
pub enum NcmError {
    /// The container's signature or key region is not that of an NCM file.
    NotNcmFile,
    /// No file name can be derived from the input.
    CannotReadFileName,
    /// The metadata region does not decode to a record with a format.
    CannotReadMetaInfo,
    /// The cover image could not be embedded into the written file.
    CoverCannotSave,
    /// A read or skip went past the end of the container.
    FileReadError,
    /// A skip could not be made.
    FileSkipError,
    /// The output directory or file could not be written.
    FileWriteError,
    /// The name of the file to write is not one that can be created.
    FullFilenameError,
    /// The input file does not exist.
    FileNotFoundError,
}

impl NcmError {
    /// The text shown to the user for this error.
    pub open spec fn message(self) -> Seq<char> {
        match self {
            NcmError::NotNcmFile => "该文件不为NCM格式"@,
            NcmError::CannotReadFileName => "无法读取文件名称"@,
            NcmError::CannotReadMetaInfo => "无法读取歌曲元信息"@,
            NcmError::CoverCannotSave => "封面无法保存"@,
            NcmError::FileReadError => "读取文件时发生错误"@,
            NcmError::FileWriteError => "写入文件时错误"@,
            NcmError::FullFilenameError => "文件名不符合规范"@,
            _ => "未知错误"@,
        }
    }

    /// Renders the error as the text shown to the user.
    pub fn to_string(&self) -> (text: String)
        ensures
            text@ == self.message(),
    {
        let text: &str = match self {
            NcmError::NotNcmFile => "该文件不为NCM格式",
            NcmError::CannotReadFileName => "无法读取文件名称",
            NcmError::CannotReadMetaInfo => "无法读取歌曲元信息",
            NcmError::CoverCannotSave => "封面无法保存",
            NcmError::FileReadError => "读取文件时发生错误",
            NcmError::FileWriteError => "写入文件时错误",
            NcmError::FullFilenameError => "文件名不符合规范",
            _ => "未知错误",
        };
        String::from_str(text)
    }
}

} // verus!
