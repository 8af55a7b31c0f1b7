//! Convert a Markdown document to sanitized HTML, wrap it in a minimal page
//! template, and decide how to show it in a browser.
//!
//! The library holds the logic of the preview tool: rendering (Markdown to
//! sanitized HTML to a complete page), the layout of the temporary workspace
//! that the page is written to, and the state machine that drives one run,
//! including the platform gate and the bounded polling loop that waits for
//! the spawned viewer.  Reading files, creating directories and spawning
//! processes are performed by the surrounding program, which feeds each
//! outcome back into the state machine as an event.

pub mod error;
pub mod launch;
pub mod render;
pub mod run;

pub use error::IoErrorKind;
pub use error::MarkdownPreviewError;
pub use launch::LaunchAction;
pub use launch::Platform;
pub use launch::PollEvent;
pub use run::MarkdownPreviewTool;
pub use run::Options;
pub use run::RunAction;
pub use run::RunEvent;
pub use run::RunState;
