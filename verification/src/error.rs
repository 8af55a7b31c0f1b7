use vstd::prelude::*;

verus! {

/// The kinds of operating-system I/O failure that the tool distinguishes.
/// The surrounding program maps the platform's error codes onto these before
/// handing an event to the library.
#[derive(Clone, Copy, Debug, PartialEq, Eq, Structural)]
pub enum IoErrorKind {
    NotFound,
    PermissionDenied,
    InvalidData,
    TimedOut,
    Interrupted,
    Other,
}

/// Everything that can go wrong in one run of the preview tool: an I/O
/// failure, a failure while substituting into the page template, an attempt
/// to launch a viewer on a platform with no viewer command, a viewer that
/// exited reporting failure, and a viewer that never reported at all within
/// the deadline.
#[derive(Clone, Copy, Debug, PartialEq, Eq, Structural)]
pub enum MarkdownPreviewError {
    IoError(IoErrorKind),
    TemplateError,
    UnsupportedPlatform,
    ViewerExitedWithError,
    Timeout,
}

pub open spec fn spec_kind_message(kind: IoErrorKind) -> Seq<char> {
    match kind {
        IoErrorKind::NotFound => "file not found"@,
        IoErrorKind::PermissionDenied => "permission denied"@,
        IoErrorKind::InvalidData => "invalid data"@,
        IoErrorKind::TimedOut => "operation timed out"@,
        IoErrorKind::Interrupted => "operation interrupted"@,
        IoErrorKind::Other => "other I/O error"@,
    }
}

pub open spec fn spec_error_message(e: MarkdownPreviewError) -> Seq<char> {
    match e {
        MarkdownPreviewError::IoError(_) => "IO Error"@,
        MarkdownPreviewError::TemplateError => "Template Rendering Error"@,
        MarkdownPreviewError::UnsupportedPlatform => "OS not supported"@,
        MarkdownPreviewError::ViewerExitedWithError => "Failed to open file in browser"@,
        MarkdownPreviewError::Timeout => "Timed out waiting for browser to open file"@,
    }
}

impl IoErrorKind {
    /// A short description of the failure kind, for the one-line report that
    /// a failed run prints.
    pub fn message(&self) -> (r: &'static str)
        ensures
            r@ == spec_kind_message(*self),
    {
        match self {
            IoErrorKind::NotFound => "file not found",
            IoErrorKind::PermissionDenied => "permission denied",
            IoErrorKind::InvalidData => "invalid data",
            IoErrorKind::TimedOut => "operation timed out",
            IoErrorKind::Interrupted => "operation interrupted",
            IoErrorKind::Other => "other I/O error",
        }
    }
}

impl MarkdownPreviewError {
    /// A short description of the error, for the one-line report that a
    /// failed run prints.
    pub fn message(&self) -> (r: &'static str)
        ensures
            r@ == spec_error_message(*self),
    {
        match self {
            MarkdownPreviewError::IoError(_) => "IO Error",
            MarkdownPreviewError::TemplateError => "Template Rendering Error",
            MarkdownPreviewError::UnsupportedPlatform => "OS not supported",
            MarkdownPreviewError::ViewerExitedWithError => "Failed to open file in browser",
            MarkdownPreviewError::Timeout => "Timed out waiting for browser to open file",
        }
    }
}

} // verus!
