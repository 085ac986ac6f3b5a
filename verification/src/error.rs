//! The ways in which start-up can fail. Each of them is fatal: nothing is
//! retried.

use vstd::prelude::*;
use vstd::string::StringExecFns;
use crate::command::ShaderKind;

verus! {

/// A failure of start-up.
#[derive(Clone, Debug, PartialEq, Eq)]
pub enum Error {
    /// No image file was named.
    MissingArgument,
    /// The file at `path` could not be read or could not be decoded.
    ImageLoad { path: String },
    /// The driver's compiler rejected a shader; `log` is its information
    /// log, as the driver wrote it.
    ShaderCompile { stage: ShaderKind, log: String },
    /// The driver's linker rejected the program; `log` is its information
    /// log, as the driver wrote it.
    ShaderLink { log: String },
}

/// What an `Error` says, with its text as mathematical sequences.
pub enum Failure {
    MissingArgument,
    ImageLoad { path: Seq<char> },
    ShaderCompile { stage: ShaderKind, log: Seq<char> },
    ShaderLink { log: Seq<char> },
}

impl Failure {
    /// What is reported for the failure: for a shader, the driver's log as
    /// it is; for an image, a sentence that names the file.
    pub open spec fn message(self) -> Seq<char> {
        match self {
            Failure::MissingArgument => "引数の数が正しくありません"@,
            Failure::ImageLoad { path } => "`"@ + path + "` を読み込むことができません"@,
            Failure::ShaderCompile { log, .. } => log,
            Failure::ShaderLink { log } => log,
        }
    }
}

impl Error {
    /// What is reported for the failure.
    pub fn message(&self) -> (message: String)
        ensures
            message@ == self@.message(),
    {
        match self {
            Error::MissingArgument => "引数の数が正しくありません".to_owned(),
            Error::ImageLoad { path } => "`".to_owned().concat(path.as_str()).concat(
                "` を読み込むことができません",
            ),
            Error::ShaderCompile { log, .. } => log.clone(),
            Error::ShaderLink { log } => log.clone(),
        }
    }
}

impl View for Error {
    type V = Failure;

    open spec fn view(&self) -> Failure {
        match self {
            Error::MissingArgument => Failure::MissingArgument,
            Error::ImageLoad { path } => Failure::ImageLoad { path: path@ },
            Error::ShaderCompile { stage, log } => Failure::ShaderCompile {
                stage: *stage,
                log: log@,
            },
            Error::ShaderLink { log } => Failure::ShaderLink { log: log@ },
        }
    }
}

} // verus!
