//! The categorized errors of the library and their user-visible messages.

use vstd::prelude::*;
use vstd::string::StringExecFns;

verus! {

/// The category of an error, without its detail text.
#[derive(Debug, Clone, Copy, PartialEq, Eq, Structural)]
pub enum ErrorKind {
    Container,
    Timeout,
    OutputLimitExceeded,
    InvalidInput,
    SecurityViolation,
    PodmanApi,
    Io,
    Json,
    BaseImageNotFound,
    ScriptNotFound,
    UnsupportedLanguage,
    ResourceLimitExceeded,
    ContainerEscape,
    Other,
}

/// What an error is in contracts: its category and its detail text, which is
/// empty for the categories that carry none.
pub struct ErrorView {
    pub kind: ErrorKind,
    pub detail: Seq<char>,
}

/// An error of the library: its category, and for most categories a detail.
#[derive(Debug, Clone, PartialEq, Eq)]
pub enum SingleloadError {
    /// An engine-side failure, with context.
    Container(String),
    /// The run did not finish within its deadline.
    Timeout,
    OutputLimitExceeded,
    /// The validator rejected a path or a parameter.
    InvalidInput(String),
    /// Path traversal, a forbidden prefix or a suspicious extension.
    SecurityViolation(String),
    /// An error reported by the engine's API, as its text.
    PodmanApi(String),
    /// A failed file-system operation, as its text.
    Io(String),
    /// A failed JSON conversion, as its text.
    Json(String),
    BaseImageNotFound,
    ScriptNotFound(String),
    UnsupportedLanguage(String),
    ResourceLimitExceeded(String),
    ContainerEscape,
    Other(String),
}

/// The fixed text that a category's message starts with; for a category
/// without detail it is the whole message.
pub open spec fn message_prefix(kind: ErrorKind) -> Seq<char> {
    match kind {
        ErrorKind::Container => "Container error: "@,
        ErrorKind::Timeout => "Execution timeout exceeded"@,
        ErrorKind::OutputLimitExceeded => "Output size limit exceeded"@,
        ErrorKind::InvalidInput => "Invalid input: "@,
        ErrorKind::SecurityViolation => "Security violation: "@,
        ErrorKind::PodmanApi => "Podman API error: "@,
        ErrorKind::Io => "IO error: "@,
        ErrorKind::Json => "JSON error: "@,
        ErrorKind::BaseImageNotFound => "Base image not found. Run 'singleload install' first"@,
        ErrorKind::ScriptNotFound => "Script file not found: "@,
        ErrorKind::UnsupportedLanguage => "Unsupported language: "@,
        ErrorKind::ResourceLimitExceeded => "Resource limit exceeded: "@,
        ErrorKind::ContainerEscape => "Container escape attempt detected"@,
        ErrorKind::Other => "Other error: "@,
    }
}

/// The message of an error: the category's fixed text followed by the detail.
pub open spec fn message_of(e: ErrorView) -> Seq<char> {
    message_prefix(e.kind) + e.detail
}

impl View for SingleloadError {
    type V = ErrorView;

    open spec fn view(&self) -> ErrorView {
        match self {
            SingleloadError::Container(d) => ErrorView { kind: ErrorKind::Container, detail: d@ },
            SingleloadError::Timeout => ErrorView { kind: ErrorKind::Timeout, detail: Seq::empty() },
            SingleloadError::OutputLimitExceeded => ErrorView {
                kind: ErrorKind::OutputLimitExceeded,
                detail: Seq::empty(),
            },
            SingleloadError::InvalidInput(d) => ErrorView {
                kind: ErrorKind::InvalidInput,
                detail: d@,
            },
            SingleloadError::SecurityViolation(d) => ErrorView {
                kind: ErrorKind::SecurityViolation,
                detail: d@,
            },
            SingleloadError::PodmanApi(d) => ErrorView { kind: ErrorKind::PodmanApi, detail: d@ },
            SingleloadError::Io(d) => ErrorView { kind: ErrorKind::Io, detail: d@ },
            SingleloadError::Json(d) => ErrorView { kind: ErrorKind::Json, detail: d@ },
            SingleloadError::BaseImageNotFound => ErrorView {
                kind: ErrorKind::BaseImageNotFound,
                detail: Seq::empty(),
            },
            SingleloadError::ScriptNotFound(d) => ErrorView {
                kind: ErrorKind::ScriptNotFound,
                detail: d@,
            },
            SingleloadError::UnsupportedLanguage(d) => ErrorView {
                kind: ErrorKind::UnsupportedLanguage,
                detail: d@,
            },
            SingleloadError::ResourceLimitExceeded(d) => ErrorView {
                kind: ErrorKind::ResourceLimitExceeded,
                detail: d@,
            },
            SingleloadError::ContainerEscape => ErrorView {
                kind: ErrorKind::ContainerEscape,
                detail: Seq::empty(),
            },
            SingleloadError::Other(d) => ErrorView { kind: ErrorKind::Other, detail: d@ },
        }
    }
}

impl SingleloadError {
    /// The category of this error.
    pub fn kind(&self) -> (k: ErrorKind)
        ensures
            k == self@.kind,
    {
        match self {
            SingleloadError::Container(_) => ErrorKind::Container,
            SingleloadError::Timeout => ErrorKind::Timeout,
            SingleloadError::OutputLimitExceeded => ErrorKind::OutputLimitExceeded,
            SingleloadError::InvalidInput(_) => ErrorKind::InvalidInput,
            SingleloadError::SecurityViolation(_) => ErrorKind::SecurityViolation,
            SingleloadError::PodmanApi(_) => ErrorKind::PodmanApi,
            SingleloadError::Io(_) => ErrorKind::Io,
            SingleloadError::Json(_) => ErrorKind::Json,
            SingleloadError::BaseImageNotFound => ErrorKind::BaseImageNotFound,
            SingleloadError::ScriptNotFound(_) => ErrorKind::ScriptNotFound,
            SingleloadError::UnsupportedLanguage(_) => ErrorKind::UnsupportedLanguage,
            SingleloadError::ResourceLimitExceeded(_) => ErrorKind::ResourceLimitExceeded,
            SingleloadError::ContainerEscape => ErrorKind::ContainerEscape,
            SingleloadError::Other(_) => ErrorKind::Other,
        }
    }

    /// The user-visible message of this error.
    pub fn message(&self) -> (text: String)
        ensures
            text@ == message_of(self@),
    {
        let (head, detail): (&str, &str) = match self {
            SingleloadError::Container(d) => ("Container error: ", d.as_str()),
            SingleloadError::Timeout => ("Execution timeout exceeded", ""),
            SingleloadError::OutputLimitExceeded => ("Output size limit exceeded", ""),
            SingleloadError::InvalidInput(d) => ("Invalid input: ", d.as_str()),
            SingleloadError::SecurityViolation(d) => ("Security violation: ", d.as_str()),
            SingleloadError::PodmanApi(d) => ("Podman API error: ", d.as_str()),
            SingleloadError::Io(d) => ("IO error: ", d.as_str()),
            SingleloadError::Json(d) => ("JSON error: ", d.as_str()),
            SingleloadError::BaseImageNotFound => (
                "Base image not found. Run 'singleload install' first",
                "",
            ),
            SingleloadError::ScriptNotFound(d) => ("Script file not found: ", d.as_str()),
            SingleloadError::UnsupportedLanguage(d) => ("Unsupported language: ", d.as_str()),
            SingleloadError::ResourceLimitExceeded(d) => ("Resource limit exceeded: ", d.as_str()),
            SingleloadError::ContainerEscape => ("Container escape attempt detected", ""),
            SingleloadError::Other(d) => ("Other error: ", d.as_str()),
        };
        proof {
            reveal_strlit("");
        }
        let mut text = String::from_str(head);
        text.append(detail);
        assert(text@ =~= message_of(self@));
        text
    }
}

} // verus!
