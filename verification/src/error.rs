//! The one error type of the crate.

use vstd::prelude::*;
use vstd::string::StringExecFns;

verus! {

/// Everything that can go wrong in this crate.
///
/// Errors that come from outside (the file system, the notification source)
/// are carried as the text they were reported with.
#[derive(Debug)]
pub enum LateraError {
    /// The platform cannot report a desktop directory for this user.
    DesktopDirNotFound,
    /// The override path is empty or not absolute; the text says which.
    InvalidPath(String),
    /// A watcher is already active in this session.
    WatcherAlreadyRunning,
    /// No watcher is active in this session.
    WatcherNotRunning,
    /// An I/O operation failed.
    Io(String),
    /// The notification source reported a failure.
    Notify(String),
    /// The path has no final component to use as a file name.
    FileNameMissing(String),
    /// The event stream was closed unexpectedly.
    StreamClosed,
    /// A subsystem could not be set up.
    InitializationFailed(String),
}

/// A [`LateraError`] as a mathematical value.
pub enum ErrorView {
    DesktopDirNotFound,
    InvalidPath(Seq<char>),
    WatcherAlreadyRunning,
    WatcherNotRunning,
    Io(Seq<char>),
    Notify(Seq<char>),
    FileNameMissing(Seq<char>),
    StreamClosed,
    InitializationFailed(Seq<char>),
}

impl View for LateraError {
    type V = ErrorView;

    open spec fn view(&self) -> ErrorView {
        match *self {
            LateraError::DesktopDirNotFound => ErrorView::DesktopDirNotFound,
            LateraError::InvalidPath(text) => ErrorView::InvalidPath(text@),
            LateraError::WatcherAlreadyRunning => ErrorView::WatcherAlreadyRunning,
            LateraError::WatcherNotRunning => ErrorView::WatcherNotRunning,
            LateraError::Io(text) => ErrorView::Io(text@),
            LateraError::Notify(text) => ErrorView::Notify(text@),
            LateraError::FileNameMissing(path) => ErrorView::FileNameMissing(path@),
            LateraError::StreamClosed => ErrorView::StreamClosed,
            LateraError::InitializationFailed(text) => ErrorView::InitializationFailed(text@),
        }
    }
}

/// The text that `{:?}` formatting gives for a path: the path in double
/// quotes, with the characters that need it escaped.
pub uninterp spec fn debug_text(path: Seq<char>) -> Seq<char>;

/// Formats `path` the way `{:?}` formats a path
/// (`<std::path::Path as core::fmt::Debug>::fmt`). The escaping rules fill
/// pages, so the result only has a name here; it depends on nothing but the
/// characters of `path`.
#[verifier::external_body]
fn debug_quoted(path: &str) -> (quoted: String)
    ensures
        quoted@ == debug_text(path@),
{
    format!("{:?}", std::path::Path::new(path))
}

/// The machine-readable code of an error.
pub open spec fn code_of(error: ErrorView) -> Seq<char> {
    match error {
        ErrorView::DesktopDirNotFound => "DESKTOP_DIR_NOT_FOUND"@,
        ErrorView::InvalidPath(_) => "INVALID_PATH"@,
        ErrorView::WatcherAlreadyRunning => "WATCHER_ALREADY_RUNNING"@,
        ErrorView::WatcherNotRunning => "WATCHER_NOT_RUNNING"@,
        ErrorView::Io(_) => "IO_ERROR"@,
        ErrorView::Notify(_) => "NOTIFY_ERROR"@,
        ErrorView::FileNameMissing(_) => "FILE_NAME_MISSING"@,
        ErrorView::StreamClosed => "STREAM_CLOSED"@,
        ErrorView::InitializationFailed(_) => "INITIALIZATION_FAILED"@,
    }
}

/// Lifecycle errors are recoverable: the caller can go on after them.
/// Configuration and outside failures are not.
pub open spec fn recoverable(error: ErrorView) -> bool {
    error is WatcherAlreadyRunning || error is WatcherNotRunning || error is StreamClosed
}

/// The text an error is shown with: the variant's qualified name, a colon,
/// and what happened.
pub open spec fn message_of(error: ErrorView) -> Seq<char> {
    match error {
        ErrorView::DesktopDirNotFound =>
            "LateraError::DesktopDirNotFound: Desktop directory is not available on this OS/user"@,
        ErrorView::InvalidPath(text) => "LateraError::InvalidPath: "@ + text,
        ErrorView::WatcherAlreadyRunning =>
            "LateraError::WatcherAlreadyRunning: Watcher is already running"@,
        ErrorView::WatcherNotRunning => "LateraError::WatcherNotRunning: Watcher is not running"@,
        ErrorView::Io(text) => "LateraError::Io: "@ + text,
        ErrorView::Notify(text) => "LateraError::Notify: "@ + text,
        ErrorView::FileNameMissing(path) =>
            "LateraError::FileNameMissing: Cannot determine file name for path "@ + debug_text(path),
        ErrorView::StreamClosed =>
            "LateraError::StreamClosed: Event stream was closed unexpectedly"@,
        ErrorView::InitializationFailed(text) => "LateraError::InitializationFailed: "@ + text,
    }
}

impl LateraError {
    /// The code under which the other side of a bridge knows this error.
    pub fn code(&self) -> (code: &'static str)
        ensures
            code@ == code_of(self@),
    {
        match self {
            LateraError::DesktopDirNotFound => "DESKTOP_DIR_NOT_FOUND",
            LateraError::InvalidPath(_) => "INVALID_PATH",
            LateraError::WatcherAlreadyRunning => "WATCHER_ALREADY_RUNNING",
            LateraError::WatcherNotRunning => "WATCHER_NOT_RUNNING",
            LateraError::Io(_) => "IO_ERROR",
            LateraError::Notify(_) => "NOTIFY_ERROR",
            LateraError::FileNameMissing(_) => "FILE_NAME_MISSING",
            LateraError::StreamClosed => "STREAM_CLOSED",
            LateraError::InitializationFailed(_) => "INITIALIZATION_FAILED",
        }
    }

    /// Whether work can go on after this error.
    pub fn is_recoverable(&self) -> (yes: bool)
        ensures
            yes == recoverable(self@),
    {
        match self {
            LateraError::WatcherAlreadyRunning
            | LateraError::WatcherNotRunning
            | LateraError::StreamClosed => true,
            LateraError::DesktopDirNotFound
            | LateraError::InvalidPath(_)
            | LateraError::Io(_)
            | LateraError::Notify(_)
            | LateraError::FileNameMissing(_)
            | LateraError::InitializationFailed(_) => false,
        }
    }

    /// The text this error is shown with.
    pub fn to_string(&self) -> (text: String)
        ensures
            text@ == message_of(self@),
    {
        match self {
            LateraError::DesktopDirNotFound => String::from_str(
                "LateraError::DesktopDirNotFound: Desktop directory is not available on this OS/user",
            ),
            LateraError::InvalidPath(text) => String::from_str("LateraError::InvalidPath: ").concat(
                text.as_str(),
            ),
            LateraError::WatcherAlreadyRunning => String::from_str(
                "LateraError::WatcherAlreadyRunning: Watcher is already running",
            ),
            LateraError::WatcherNotRunning => String::from_str(
                "LateraError::WatcherNotRunning: Watcher is not running",
            ),
            LateraError::Io(text) => String::from_str("LateraError::Io: ").concat(text.as_str()),
            LateraError::Notify(text) => String::from_str("LateraError::Notify: ").concat(
                text.as_str(),
            ),
            LateraError::FileNameMissing(path) => {
                let quoted = debug_quoted(path.as_str());
                String::from_str(
                    "LateraError::FileNameMissing: Cannot determine file name for path ",
                ).concat(quoted.as_str())
            },
            LateraError::StreamClosed => String::from_str(
                "LateraError::StreamClosed: Event stream was closed unexpectedly",
            ),
            LateraError::InitializationFailed(text) => String::from_str(
                "LateraError::InitializationFailed: ",
            ).concat(text.as_str()),
        }
    }
}

/// No two kinds of error share a code.
pub proof fn lemma_codes_tell_kinds_apart(a: ErrorView, b: ErrorView)
    requires
        code_of(a) == code_of(b),
    ensures
        a is DesktopDirNotFound <==> b is DesktopDirNotFound,
        a is InvalidPath <==> b is InvalidPath,
        a is WatcherAlreadyRunning <==> b is WatcherAlreadyRunning,
        a is WatcherNotRunning <==> b is WatcherNotRunning,
        a is Io <==> b is Io,
        a is Notify <==> b is Notify,
        a is FileNameMissing <==> b is FileNameMissing,
        a is StreamClosed <==> b is StreamClosed,
        a is InitializationFailed <==> b is InitializationFailed,
{
    reveal_strlit("DESKTOP_DIR_NOT_FOUND");
    reveal_strlit("INVALID_PATH");
    reveal_strlit("WATCHER_ALREADY_RUNNING");
    reveal_strlit("WATCHER_NOT_RUNNING");
    reveal_strlit("IO_ERROR");
    reveal_strlit("NOTIFY_ERROR");
    reveal_strlit("FILE_NAME_MISSING");
    reveal_strlit("STREAM_CLOSED");
    reveal_strlit("INITIALIZATION_FAILED");
    assert("DESKTOP_DIR_NOT_FOUND"@.len() == 21);
    assert("INVALID_PATH"@.len() == 12);
    assert("WATCHER_ALREADY_RUNNING"@.len() == 23);
    assert("WATCHER_NOT_RUNNING"@.len() == 19);
    assert("IO_ERROR"@.len() == 8);
    assert("NOTIFY_ERROR"@.len() == 12);
    assert("FILE_NAME_MISSING"@.len() == 17);
    assert("STREAM_CLOSED"@.len() == 13);
    assert("INITIALIZATION_FAILED"@.len() == 21);
    assert("INVALID_PATH"@[0] == 'I');
    assert("NOTIFY_ERROR"@[0] == 'N');
    assert("DESKTOP_DIR_NOT_FOUND"@[0] == 'D');
    assert("INITIALIZATION_FAILED"@[0] == 'I');
}

} // verus!
