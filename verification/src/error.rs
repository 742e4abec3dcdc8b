//! The ways in which a command can fail.

use vstd::prelude::*;

verus! {

/// A failure that ends the command.
#[derive(Debug, Clone, PartialEq, Eq)]
pub enum Error {
    /// The configuration file is missing or cannot be understood, or the
    /// configuration has an empty field.
    ConfigMissingOrInvalid,
    /// The per-user configuration directory cannot be determined.
    DirectoryResolution,
    /// A file or stream could not be read or written.
    Io,
    /// The request did not reach the service, or no response came back; the
    /// field says why.
    Network(String),
    /// The service answered with an error; the field is its message.
    RemoteApi(String),
    /// The service's reply does not have the expected shape.
    MalformedResponse,
    /// The service answered with an empty translation.
    EmptyTranslation,
}

/// A failure as contracts speak of it: an [`Error`] with its text as a
/// sequence of characters.
pub enum Failure {
    ConfigMissingOrInvalid,
    DirectoryResolution,
    Io,
    Network(Seq<char>),
    RemoteApi(Seq<char>),
    MalformedResponse,
    EmptyTranslation,
}

impl View for Error {
    type V = Failure;

    open spec fn view(&self) -> Failure {
        match self {
            Error::ConfigMissingOrInvalid => Failure::ConfigMissingOrInvalid,
            Error::DirectoryResolution => Failure::DirectoryResolution,
            Error::Io => Failure::Io,
            Error::Network(m) => Failure::Network(m@),
            Error::RemoteApi(m) => Failure::RemoteApi(m@),
            Error::MalformedResponse => Failure::MalformedResponse,
            Error::EmptyTranslation => Failure::EmptyTranslation,
        }
    }
}

impl Failure {
    /// The text of the message that is shown for this failure.
    pub open spec fn message(self) -> Seq<char> {
        match self {
            Failure::ConfigMissingOrInvalid =>
                "The configuration is missing or invalid. Please run `trlt init --help` to help you create a config file."@,
            Failure::DirectoryResolution => "Failed to get config directory"@,
            Failure::Io => "Failed to read or write a file"@,
            Failure::Network(m) => "Failed to reach the translation service: "@ + m,
            Failure::RemoteApi(m) => "Failed to translate text: "@ + m,
            Failure::MalformedResponse => "Failed to translate text: Unexpected response from API"@,
            Failure::EmptyTranslation => "Failed to translate text: Empty response from API"@,
        }
    }
}

/// A text or a failure as contracts speak of it.
pub open spec fn text_result(r: Result<String, Error>) -> Result<Seq<char>, Failure> {
    match r {
        Ok(s) => Ok(s@),
        Err(e) => Err(e@),
    }
}

impl Error {
    /// A human-readable message for this failure.
    pub fn message(&self) -> (m: String)
        ensures
            m@ == self@.message(),
    {
        match self {
            Error::ConfigMissingOrInvalid => String::from_str(
                "The configuration is missing or invalid. Please run `trlt init --help` to help you create a config file.",
            ),
            Error::DirectoryResolution => String::from_str("Failed to get config directory"),
            Error::Io => String::from_str("Failed to read or write a file"),
            Error::Network(m) => String::from_str("Failed to reach the translation service: ").concat(
                m.as_str(),
            ),
            Error::RemoteApi(m) => String::from_str("Failed to translate text: ").concat(m.as_str()),
            Error::MalformedResponse => String::from_str(
                "Failed to translate text: Unexpected response from API",
            ),
            Error::EmptyTranslation => String::from_str(
                "Failed to translate text: Empty response from API",
            ),
        }
    }
}

} // verus!
