//! The error model: a tagged kind, a human-readable message and, where there
//! is one, the text of the underlying cause.

use vstd::prelude::*;
use vstd::string::StringExecFns;

verus! {

/// Kinds of failure. The kinds that wrap a cause carry it as plain values: the
/// raw error number of a failed system call, or the text of a foreign error.
#[derive(Debug, PartialEq)]
pub enum ErrorKind {
    /// A system call failed with this raw error number.
    UnixError(i32),
    /// Filesystem I/O failed; the text is that of the I/O error.
    IOError(String),
    /// Sending or receiving on the control channel failed.
    IPCError,
    /// A failure of this library's own rules.
    Custom,
    /// A foreign cause, carried as its text.
    Other(String),
}

/// Mathematical model of an [`ErrorKind`].
pub enum ErrorKindView {
    UnixError(int),
    IOError(Seq<char>),
    IPCError,
    Custom,
    Other(Seq<char>),
}

impl View for ErrorKind {
    type V = ErrorKindView;

    open spec fn view(&self) -> ErrorKindView {
        match self {
            ErrorKind::UnixError(code) => ErrorKindView::UnixError(*code as int),
            ErrorKind::IOError(text) => ErrorKindView::IOError(text@),
            ErrorKind::IPCError => ErrorKindView::IPCError,
            ErrorKind::Custom => ErrorKindView::Custom,
            ErrorKind::Other(text) => ErrorKindView::Other(text@),
        }
    }
}

/// An error: its kind and its message.
#[derive(Debug, PartialEq)]
pub struct Error {
    kind: ErrorKind,
    msg: String,
}

/// Mathematical model of an [`Error`].
pub struct ErrorView {
    pub kind: ErrorKindView,
    pub msg: Seq<char>,
}

impl View for Error {
    type V = ErrorView;

    closed spec fn view(&self) -> ErrorView {
        ErrorView { kind: self.kind@, msg: self.msg@ }
    }
}

/// The text that `nix::errno::Errno` displays for a raw error number.
pub uninterp spec fn errno_display(code: int) -> Seq<char>;

/// Calls `nix::errno::Errno::from_raw` and formats the value with its
/// `Display` impl. The text depends on the number alone.
#[verifier::external_body]
pub(crate) fn errno_text(code: i32) -> (text: String)
    ensures
        text@ == errno_display(code as int),
{
    nix::errno::Errno::from_raw(code).to_string()
}

/// A custom error with the given message.
pub open spec fn custom(msg: Seq<char>) -> ErrorView {
    ErrorView { kind: ErrorKindView::Custom, msg }
}

/// What a kind shows in front of the message.
pub open spec fn kind_text(kind: ErrorKindView) -> Seq<char> {
    match kind {
        ErrorKindView::UnixError(code) => "UnixError("@ + errno_display(code) + ")"@,
        ErrorKindView::IOError(text) => "IOError("@ + text + ")"@,
        ErrorKindView::IPCError => "IPCError"@,
        ErrorKindView::Custom => ""@,
        ErrorKindView::Other(text) => text,
    }
}

/// What an error shows: its kind, a colon and a space, its message.
pub open spec fn error_text(e: ErrorView) -> Seq<char> {
    kind_text(e.kind) + ": "@ + e.msg
}

impl ErrorKind {
    /// The text shown for this kind.
    pub fn to_string(&self) -> (text: String)
        ensures
            text@ == kind_text(self@),
    {
        match self {
            ErrorKind::UnixError(code) => {
                let described = errno_text(*code);
                String::from_str("UnixError(").concat(described.as_str()).concat(")")
            },
            ErrorKind::IOError(text) => {
                String::from_str("IOError(").concat(text.as_str()).concat(")")
            },
            ErrorKind::IPCError => String::from_str("IPCError"),
            ErrorKind::Custom => String::from_str(""),
            ErrorKind::Other(text) => text.clone(),
        }
    }
}

impl Error {
    /// A custom error with the given message.
    pub fn new(msg: &str) -> (e: Error)
        ensures
            e@ == custom(msg@),
    {
        Error { kind: ErrorKind::Custom, msg: msg.to_owned() }
    }

    /// An error that wraps a foreign cause, given as its text.
    pub fn new_error(msg: &str, cause: &str) -> (e: Error)
        ensures
            e@ == (ErrorView { kind: ErrorKindView::Other(cause@), msg: msg@ }),
    {
        Error { kind: ErrorKind::Other(cause.to_owned()), msg: msg.to_owned() }
    }

    /// A channel error with the given message.
    pub fn new_ipc(msg: &str) -> (e: Error)
        ensures
            e@ == (ErrorView { kind: ErrorKindView::IPCError, msg: msg@ }),
    {
        Error { kind: ErrorKind::IPCError, msg: msg.to_owned() }
    }

    /// The error of a failed system call: its message is the text of the
    /// error number.
    pub fn from_errno(code: i32) -> (e: Error)
        ensures
            e@ == (ErrorView {
                kind: ErrorKindView::UnixError(code as int),
                msg: errno_display(code as int),
            }),
    {
        Error { kind: ErrorKind::UnixError(code), msg: errno_text(code) }
    }

    /// The error of failed filesystem I/O: its message is the text of the I/O
    /// error.
    pub fn from_io(text: &str) -> (e: Error)
        ensures
            e@ == (ErrorView { kind: ErrorKindView::IOError(text@), msg: text@ }),
    {
        Error { kind: ErrorKind::IOError(text.to_owned()), msg: text.to_owned() }
    }

    /// The error of a foreign cause: its message is the text of the cause.
    pub fn from_cause(text: &str) -> (e: Error)
        ensures
            e@ == (ErrorView { kind: ErrorKindView::Other(text@), msg: text@ }),
    {
        Error { kind: ErrorKind::Other(text.to_owned()), msg: text.to_owned() }
    }

    /// An error of the given kind with an empty message.
    pub fn from_kind(kind: ErrorKind) -> (e: Error)
        ensures
            e@ == (ErrorView { kind: kind@, msg: Seq::<char>::empty() }),
    {
        Error { kind, msg: String::new() }
    }

    /// The kind of this error.
    pub fn kind(&self) -> (k: &ErrorKind)
        ensures
            k@ == self@.kind,
    {
        &self.kind
    }

    /// The message of this error.
    pub fn message(&self) -> (m: &str)
        ensures
            m@ == self@.msg,
    {
        self.msg.as_str()
    }

    /// The text shown for this error.
    pub fn to_string(&self) -> (text: String)
        ensures
            text@ == error_text(self@),
    {
        self.kind.to_string().concat(": ").concat(self.msg.as_str())
    }
}

} // verus!
