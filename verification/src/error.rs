//! The failures that the library reports.

use vstd::prelude::*;

verus! {

/// Everything that can go wrong while configuring a dispatcher or while a
/// backend handles a call.
#[derive(Debug)]
pub enum Error {
    /// An unclassified failure of the surrounding system.
    System,
    /// A detector was asked for without any backend to register.
    NoDetectorRegistrationService,
    /// The list of backend names to register is empty.
    NoTranslatorRegistrationService,
    /// A requested backend name is not in the catalog.
    InvalidServiceName,
    /// No target language was given.
    NoTargetLanguage,
    /// The target language is `Auto`.
    TargetLanguageIsAuto,
    /// The target language is the source language.
    TargetEqualToSource,
    /// Every candidate backend is backing off or has failed. The payload
    /// is the longest remaining backoff window, in nanoseconds.
    NoAvailableService(u64),
    /// The input text is longer than a backend accepts.
    LengthLimit(usize),
    /// A backend answered with something it should never answer with.
    UnexpectedResult(String),
    /// A backend answered with an empty translation.
    ReturnedEmptyResult,
    /// The transport failed.
    ReqwestError(String),
    /// A backend's HTML answer could not be read.
    HTMLParsingError(String),
    /// A backend's JSON answer could not be read.
    JSONParsingError(String),
    /// The backend answered with an error status.
    Status(String),
}

impl Error {
    /// The text that the error carries; empty for an error without one.
    pub open spec fn message(&self) -> Seq<char> {
        match self {
            Error::UnexpectedResult(text) => text@,
            Error::ReqwestError(text) => text@,
            Error::HTMLParsingError(text) => text@,
            Error::JSONParsingError(text) => text@,
            Error::Status(text) => text@,
            _ => Seq::empty(),
        }
    }
}

impl Clone for Error {
    fn clone(&self) -> (copy: Self)
        ensures
            copy == *self,
    {
        match self {
            Error::System => Error::System,
            Error::NoDetectorRegistrationService => Error::NoDetectorRegistrationService,
            Error::NoTranslatorRegistrationService => Error::NoTranslatorRegistrationService,
            Error::InvalidServiceName => Error::InvalidServiceName,
            Error::NoTargetLanguage => Error::NoTargetLanguage,
            Error::TargetLanguageIsAuto => Error::TargetLanguageIsAuto,
            Error::TargetEqualToSource => Error::TargetEqualToSource,
            Error::NoAvailableService(wait) => Error::NoAvailableService(*wait),
            Error::LengthLimit(count) => Error::LengthLimit(*count),
            Error::UnexpectedResult(text) => Error::UnexpectedResult(text.clone()),
            Error::ReturnedEmptyResult => Error::ReturnedEmptyResult,
            Error::ReqwestError(text) => Error::ReqwestError(text.clone()),
            Error::HTMLParsingError(text) => Error::HTMLParsingError(text.clone()),
            Error::JSONParsingError(text) => Error::JSONParsingError(text.clone()),
            Error::Status(text) => Error::Status(text.clone()),
        }
    }
}

} // verus!
