//! The failure kinds shared by every part of the kernel.

use vstd::prelude::*;

verus! {

/// What went wrong, without the message.
#[derive(Clone, Copy, Debug, PartialEq, Eq, Structural)]
pub enum ErrorKind {
    /// The API was used out of order.
    IllegalState,
    /// Metadata could not be encoded or decoded.
    Serialize,
    /// A handle resolves to nothing in the observers at hand.
    UnknownObserver,
    /// A key is missing from a metadata map or a corpus.
    KeyNotFound,
    /// The executor failed otherwise than by an exit kind.
    Executor,
    /// A corpus could not store or load an entry.
    Corpus,
    /// The corpus of solutions could not store an entry: a solution is lost.
    Solutions,
    /// A mutation failed irrecoverably.
    Mutator,
}

/// The mathematical value of an [`Error`]: its kind and the characters of its message.
pub struct ErrorView {
    pub kind: ErrorKind,
    pub message: Seq<char>,
}

/// A failure of the kernel or of one of its collaborators.
#[derive(Debug, PartialEq, Eq)]
pub struct Error {
    kind: ErrorKind,
    message: String,
}

impl View for Error {
    type V = ErrorView;

    closed spec fn view(&self) -> ErrorView {
        ErrorView { kind: self.kind, message: self.message@ }
    }
}

impl Clone for Error {
    fn clone(&self) -> (r: Self)
        ensures
            r@ == self@,
    {
        Error { kind: self.kind, message: self.message.clone() }
    }
}

impl Error {
    /// An error of the given kind with the given message.
    pub fn new(kind: ErrorKind, message: &str) -> (e: Error)
        ensures
            e@ == (ErrorView { kind, message: message@ }),
    {
        Error { kind, message: message.to_owned() }
    }

    /// The API was used out of order.
    pub fn illegal_state(message: &str) -> (e: Error)
        ensures
            e@ == (ErrorView { kind: ErrorKind::IllegalState, message: message@ }),
    {
        Error::new(ErrorKind::IllegalState, message)
    }

    /// Metadata could not be encoded or decoded.
    pub fn serialize(message: &str) -> (e: Error)
        ensures
            e@ == (ErrorView { kind: ErrorKind::Serialize, message: message@ }),
    {
        Error::new(ErrorKind::Serialize, message)
    }

    /// A handle resolves to nothing in the observers at hand.
    pub fn unknown_observer(message: &str) -> (e: Error)
        ensures
            e@ == (ErrorView { kind: ErrorKind::UnknownObserver, message: message@ }),
    {
        Error::new(ErrorKind::UnknownObserver, message)
    }

    /// A key is missing from a metadata map or a corpus.
    pub fn key_not_found(message: &str) -> (e: Error)
        ensures
            e@ == (ErrorView { kind: ErrorKind::KeyNotFound, message: message@ }),
    {
        Error::new(ErrorKind::KeyNotFound, message)
    }

    /// The executor failed otherwise than by an exit kind.
    pub fn executor(message: &str) -> (e: Error)
        ensures
            e@ == (ErrorView { kind: ErrorKind::Executor, message: message@ }),
    {
        Error::new(ErrorKind::Executor, message)
    }

    /// A corpus could not store or load an entry.
    pub fn corpus(message: &str) -> (e: Error)
        ensures
            e@ == (ErrorView { kind: ErrorKind::Corpus, message: message@ }),
    {
        Error::new(ErrorKind::Corpus, message)
    }

    /// The corpus of solutions could not store an entry.
    pub fn solutions(message: &str) -> (e: Error)
        ensures
            e@ == (ErrorView { kind: ErrorKind::Solutions, message: message@ }),
    {
        Error::new(ErrorKind::Solutions, message)
    }

    /// Whether the fuzzer must stop on this error: that is so where a solution could not
    /// be stored. After any other error the fuzzer goes on with the next testcase.
    pub fn is_fatal(&self) -> (fatal: bool)
        ensures
            fatal == (self@.kind == ErrorKind::Solutions),
    {
        match self.kind {
            ErrorKind::Solutions => true,
            _ => false,
        }
    }

    /// A mutation failed irrecoverably.
    pub fn mutator(message: &str) -> (e: Error)
        ensures
            e@ == (ErrorView { kind: ErrorKind::Mutator, message: message@ }),
    {
        Error::new(ErrorKind::Mutator, message)
    }

    /// The kind of this error.
    pub fn kind(&self) -> (k: ErrorKind)
        ensures
            k == self@.kind,
    {
        self.kind
    }

    /// The message of this error.
    pub fn message(&self) -> (m: &str)
        ensures
            m@ == self@.message,
    {
        self.message.as_str()
    }
}

/// The value of a result whose error is an [`Error`]: the same result over the error's view.
pub open spec fn result_view<T>(r: Result<T, Error>) -> Result<T, ErrorView> {
    match r {
        Ok(v) => Ok(v),
        Err(e) => Err(e@),
    }
}

} // verus!
