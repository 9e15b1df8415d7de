//! The errors that a cache reports.

use vstd::prelude::*;

verus! {

/// What went wrong: while a cache was being set up, while its source was
/// asked for data, or while a payload was turned into entries.
#[derive(Clone, Copy, Debug, PartialEq, Eq, Structural)]
pub enum ErrorKind {
    Configuration,
    Fetch,
    Process,
}

/// An error with the stage it arose in and a message for people.
#[derive(Clone, Debug, PartialEq, Eq)]
pub struct CacheError {
    pub kind: ErrorKind,
    pub message: String,
}

impl CacheError {
    /// An error of the given kind that carries `message`.
    pub fn new(kind: ErrorKind, message: String) -> (r: CacheError)
        ensures
            r.kind == kind,
            r.message == message,
    {
        CacheError { kind, message }
    }

    /// An error of the source: transport, protocol or status.
    pub fn fetch(message: String) -> (r: CacheError)
        ensures
            r.kind == ErrorKind::Fetch,
            r.message == message,
    {
        CacheError { kind: ErrorKind::Fetch, message }
    }

    /// An error of the processor: a payload that cannot be read.
    pub fn process(message: String) -> (r: CacheError)
        ensures
            r.kind == ErrorKind::Process,
            r.message == message,
    {
        CacheError { kind: ErrorKind::Process, message }
    }

    /// An error of the builder: a required setting is missing or unusable.
    pub fn configuration(message: String) -> (r: CacheError)
        ensures
            r.kind == ErrorKind::Configuration,
            r.message == message,
    {
        CacheError { kind: ErrorKind::Configuration, message }
    }

    /// The message, as the text that stands for this error.
    pub fn describe(&self) -> (r: String)
        ensures
            r@ == self.message@,
    {
        self.message.clone()
    }
}

} // verus!
