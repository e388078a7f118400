use vstd::prelude::*;
use vstd::string::StringExecFns;
use crate::text::{i32_text, decimal_text};

verus! {

/// Why scanning or reading media failed.
#[derive(Debug)]
pub enum WorkerError {
    InvalidUtf8,
    Other { description: String },
    Locked,
    MediaError { description: String, code: i32 },
    UnkownFormat,
    NoValidFileExtensions,
    NotAnAudioFile,
    OutsideLibrary,
}

/// The text each error is displayed with.
pub open spec fn worker_error_text(e: WorkerError) -> Seq<char> {
    match e {
        WorkerError::InvalidUtf8 => "Invalid Utf-8"@,
        WorkerError::Other { description } => description@,
        WorkerError::Locked => "Can't aquire lockfile, is there another scan runnning?"@,
        WorkerError::MediaError { description, code } => "Error "@ + decimal_text(code as int) + ": "@ + description@,
        WorkerError::UnkownFormat => "No format could be guessed"@,
        WorkerError::NoValidFileExtensions => "No valid file extensions were found."@,
        WorkerError::NotAnAudioFile => "This file is not an audio file"@,
        WorkerError::OutsideLibrary => "This path is outside the library"@,
    }
}

impl WorkerError {
    /// The text the error is displayed with.
    pub fn message(&self) -> (s: String)
        ensures
            s@ == worker_error_text(*self),
    {
        match self {
            WorkerError::InvalidUtf8 => String::from_str("Invalid Utf-8"),
            WorkerError::Other { description } => description.clone(),
            WorkerError::Locked => String::from_str("Can't aquire lockfile, is there another scan runnning?"),
            WorkerError::MediaError { description, code } => {
                let mut s = String::from_str("Error ");
                let c = i32_text(*code);
                s.append(c.as_str());
                s.append(": ");
                s.append(description.as_str());
                s
            },
            WorkerError::UnkownFormat => String::from_str("No format could be guessed"),
            WorkerError::NoValidFileExtensions => String::from_str("No valid file extensions were found."),
            WorkerError::NotAnAudioFile => String::from_str("This file is not an audio file"),
            WorkerError::OutsideLibrary => String::from_str("This path is outside the library"),
        }
    }
}

} // verus!
