//! The errors of this crate: a kind, a message, and the paths they concern.

use vstd::prelude::*;

verus! {

/// The class of a failure, after the classes that operating systems report.
#[derive(Clone, Copy, Debug, PartialEq, Eq, Structural)]
pub enum ErrorKind {
    /// No object exists at the path.
    NotFound,
    /// The caller lacks the rights for the operation.
    PermissionDenied,
    /// The remote side refused the connection.
    ConnectionRefused,
    /// The remote side reset the connection.
    ConnectionReset,
    /// The remote host cannot be reached.
    HostUnreachable,
    /// The network of the remote host cannot be reached.
    NetworkUnreachable,
    /// The remote side ended the connection.
    ConnectionAborted,
    /// There is no connection yet.
    NotConnected,
    /// The path is taken by a bound socket.
    AddrInUse,
    /// The address does not exist or is not local.
    AddrNotAvailable,
    /// The network is down.
    NetworkDown,
    /// The pipe was closed.
    BrokenPipe,
    /// An object already exists at the path.
    AlreadyExists,
    /// The operation would have to wait.
    WouldBlock,
    /// A component of the path is not a directory.
    NotADirectory,
    /// The path names a directory.
    IsADirectory,
    /// The directory holds entries.
    DirectoryNotEmpty,
    /// The volume cannot be written.
    ReadOnlyFilesystem,
    /// The file on the network is no longer there.
    StaleNetworkFileHandle,
    /// An argument was not acceptable.
    InvalidInput,
    /// The data was not acceptable.
    InvalidData,
    /// The operation took too long.
    TimedOut,
    /// Nothing could be written.
    WriteZero,
    /// The volume has no room left.
    StorageFull,
    /// The file has no positions to seek to.
    NotSeekable,
    /// A quota is used up.
    QuotaExceeded,
    /// The file is larger than allowed.
    FileTooLarge,
    /// The resource is in use.
    ResourceBusy,
    /// The program file is in use.
    ExecutableFileBusy,
    /// The lock would never be had.
    Deadlock,
    /// Source and target lie on different volumes.
    CrossesDevices,
    /// The file has too many names.
    TooManyLinks,
    /// The name is not acceptable to the volume.
    InvalidFilename,
    /// The arguments are too long.
    ArgumentListTooLong,
    /// The call was interrupted.
    Interrupted,
    /// The platform does not offer the operation.
    Unsupported,
    /// The file ended too early.
    UnexpectedEof,
    /// Memory is used up.
    OutOfMemory,
    /// Anything else.
    Other,
}

impl ErrorKind {
    /// Whether the kind says that a name was already taken, the one failure
    /// that trying another name can overcome.
    pub open spec fn is_collision(self) -> bool {
        self == ErrorKind::AlreadyExists || self == ErrorKind::AddrInUse
    }

    /// Tells whether a name was already taken.
    pub fn collides(self) -> (r: bool)
        ensures
            r == self.is_collision(),
    {
        match self {
            ErrorKind::AlreadyExists => true,
            ErrorKind::AddrInUse => true,
            _ => false,
        }
    }
}

/// What an [`Error`] holds, as mathematical values.
pub struct ErrorView {
    /// The class of the failure.
    pub kind: ErrorKind,
    /// The text that describes it.
    pub message: Seq<char>,
    /// The paths it was decorated with, the first decoration first.
    pub paths: Seq<Seq<char>>,
}

impl ErrorView {
    /// The same error, decorated once more with `path`.
    pub open spec fn with_path(self, path: Seq<char>) -> ErrorView {
        ErrorView { kind: self.kind, message: self.message, paths: self.paths.push(path) }
    }
}

/// A failure of an operation on a temporary file.
#[derive(Debug)]
pub struct Error {
    kind: ErrorKind,
    message: String,
    paths: Vec<String>,
}

impl View for Error {
    type V = ErrorView;

    closed spec fn view(&self) -> ErrorView {
        ErrorView { kind: self.kind, message: self.message@, paths: self.paths.deep_view() }
    }
}

impl Error {
    /// An error of the given kind and message, not yet tied to any path.
    pub fn new(kind: ErrorKind, message: &str) -> (r: Error)
        ensures
            r@ == (ErrorView { kind, message: message@, paths: Seq::empty() }),
    {
        let r = Error { kind, message: message.to_owned(), paths: Vec::new() };
        assert(r.paths.deep_view() =~= Seq::<Seq<char>>::empty());
        r
    }

    /// The class of the failure.
    pub fn kind(&self) -> (r: ErrorKind)
        ensures
            r == self@.kind,
    {
        self.kind
    }

    /// The text that describes the failure.
    pub fn message(&self) -> (r: &str)
        ensures
            r@ == self@.message,
    {
        self.message.as_str()
    }

    /// The path of the latest decoration, if the error has any.
    pub fn path(&self) -> (r: Option<&str>)
        ensures
            match r {
                Some(p) => self@.paths.len() > 0 && p@ == self@.paths.last(),
                None => self@.paths.len() == 0,
            },
    {
        let n = self.paths.len();
        if n == 0 {
            None
        } else {
            Some(self.paths[n - 1].as_str())
        }
    }

    /// The paths that the error was decorated with, the first decoration
    /// first.
    pub fn paths(&self) -> (r: &Vec<String>)
        ensures
            r.deep_view() == self@.paths,
    {
        &self.paths
    }

    /// The same error, decorated once more with `path`; kind and message stay.
    pub fn with_path(self, path: &str) -> (r: Error)
        ensures
            r@ == self@.with_path(path@),
    {
        let mut paths = self.paths;
        let ghost before = paths.deep_view();
        paths.push(path.to_owned());
        assert(paths.deep_view() =~= before.push(path@));
        Error { kind: self.kind, message: self.message, paths }
    }
}

/// Relates a result to the same result with its error decorated by `path`:
/// a success is untouched, a failure gains the path and keeps the rest.
pub open spec fn decorated<T>(
    result: Result<T, Error>,
    path: Seq<char>,
    r: Result<T, Error>,
) -> bool {
    match result {
        Ok(value) => r == Ok::<T, Error>(value),
        Err(e) => r is Err && r->Err_0@ == e@.with_path(path),
    }
}

/// Decorates the error of `result`, if it is one, with `path`.
pub fn with_err_path<T>(result: Result<T, Error>, path: &str) -> (r: Result<T, Error>)
    ensures
        decorated(result, path@, r),
{
    match result {
        Ok(value) => Ok(value),
        Err(e) => Err(e.with_path(path)),
    }
}

} // verus!
