use vstd::prelude::*;

verus! {

/// Result code the native engine returns when an operation succeeds.
pub const SLICER_SUCCESS: i32 = 0;

/// Errors that can occur when driving the slicer.
#[derive(Debug, Clone, PartialEq, Eq)]
pub enum SlicerError {
    NullContext,
    NullParameter,
    ModelLoad(String),
    ConfigParse(String),
    PresetNotFound(String),
    NoModel,
    NoConfig,
    ProcessFailed(String),
    ExportFailed(String),
    Io(String),
    Internal(String),
    InvalidUtf8,
    Unknown(i32),
}

/// The native codes that have a variant of their own.
pub open spec fn known_code(code: i32) -> bool {
    (1 <= code <= 10) || code == 99
}

/// Text recorded when the native layer supplies no diagnostic.
pub open spec fn no_message_text() -> Seq<char> {
    "No error message available"@
}

/// The diagnostic carried by a translated error.
pub open spec fn diagnostic(message: Option<String>) -> Seq<char> {
    match message {
        Some(m) => m@,
        None => no_message_text(),
    }
}

/// `e` is the translation of native `code` with diagnostic `msg`.
pub open spec fn translates(code: i32, msg: Seq<char>, e: SlicerError) -> bool {
    match e {
        SlicerError::NullContext => code == 1,
        SlicerError::NullParameter => code == 2,
        SlicerError::ModelLoad(m) => code == 3 && m@ == msg,
        SlicerError::ConfigParse(m) => code == 4 && m@ == msg,
        SlicerError::PresetNotFound(m) => code == 5 && m@ == msg,
        SlicerError::NoModel => code == 6,
        SlicerError::NoConfig => code == 7,
        SlicerError::ProcessFailed(m) => code == 8 && m@ == msg,
        SlicerError::ExportFailed(m) => code == 9 && m@ == msg,
        SlicerError::Io(m) => code == 10 && m@ == msg,
        SlicerError::Internal(m) => code == 99 && m@ == msg,
        SlicerError::InvalidUtf8 => false,
        SlicerError::Unknown(c) => c == code && !known_code(code),
    }
}

/// The error that a message-carrying variant holds, if any.
pub open spec fn carried_text(e: SlicerError) -> Option<Seq<char>> {
    match e {
        SlicerError::ModelLoad(m) => Some(m@),
        SlicerError::ConfigParse(m) => Some(m@),
        SlicerError::PresetNotFound(m) => Some(m@),
        SlicerError::ProcessFailed(m) => Some(m@),
        SlicerError::ExportFailed(m) => Some(m@),
        SlicerError::Io(m) => Some(m@),
        SlicerError::Internal(m) => Some(m@),
        _ => None,
    }
}

impl SlicerError {
    /// Translates a native result code and the optional last-error text
    /// into one error value. Every code has a translation.
    pub fn from_code(code: i32, message: Option<String>) -> (r: SlicerError)
        ensures
            translates(code, diagnostic(message), r),
            !known_code(code) ==> r == SlicerError::Unknown(code),
            known_code(code) && !(code == 1 || code == 2 || code == 6 || code == 7)
                ==> carried_text(r) == Some(diagnostic(message)),
    {
        let msg = match message {
            Some(m) => m,
            None => String::from_str("No error message available"),
        };
        match code {
            1 => SlicerError::NullContext,
            2 => SlicerError::NullParameter,
            3 => SlicerError::ModelLoad(msg),
            4 => SlicerError::ConfigParse(msg),
            5 => SlicerError::PresetNotFound(msg),
            6 => SlicerError::NoModel,
            7 => SlicerError::NoConfig,
            8 => SlicerError::ProcessFailed(msg),
            9 => SlicerError::ExportFailed(msg),
            10 => SlicerError::Io(msg),
            99 => SlicerError::Internal(msg),
            _ => SlicerError::Unknown(code),
        }
    }
}

} // verus!
