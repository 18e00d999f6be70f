use vstd::prelude::*;
use crate::text::concat;

verus! {

/// The errors of the launcher, each with the text that describes it.
#[derive(Debug)]
pub enum AppError {
    Network(String),
    Io(String),
    Serialization(String),
    Process(String),
    Manifest(String),
    Download(String),
    Other(String),
}

/// The text shown for an error: its kind, a colon, and its description.
pub open spec fn app_error_message(e: AppError) -> Seq<char> {
    match e {
        AppError::Network(s) => "Network error: "@ + s@,
        AppError::Io(s) => "I/O error: "@ + s@,
        AppError::Serialization(s) => "JSON Serialization/Deserialization error: "@ + s@,
        AppError::Process(s) => "Process management error: "@ + s@,
        AppError::Manifest(s) => "Mojang API error: "@ + s@,
        AppError::Download(s) => "Download error: "@ + s@,
        AppError::Other(s) => "General launcher error: "@ + s@,
    }
}

impl AppError {
    /// The text that describes this error.
    pub fn message(&self) -> (r: String)
        ensures
            r@ == app_error_message(*self),
    {
        match self {
            AppError::Network(s) => concat("Network error: ", s.as_str()),
            AppError::Io(s) => concat("I/O error: ", s.as_str()),
            AppError::Serialization(s) => concat(
                "JSON Serialization/Deserialization error: ",
                s.as_str(),
            ),
            AppError::Process(s) => concat("Process management error: ", s.as_str()),
            AppError::Manifest(s) => concat("Mojang API error: ", s.as_str()),
            AppError::Download(s) => concat("Download error: ", s.as_str()),
            AppError::Other(s) => concat("General launcher error: ", s.as_str()),
        }
    }
}

} // verus!
