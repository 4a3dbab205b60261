//! Turns compiler diagnostics into Code Climate findings.
//!
//! A stream of build messages is filtered down to the compiler diagnostics,
//! each diagnostic is expanded into one finding per affected source span, and
//! every finding gets a fingerprint: the SHA-1 of its message, path and line.

pub mod codeclimate;
pub mod decimal;
pub mod digest;
pub mod fingerprint;
pub mod report;
pub mod severity;

pub use codeclimate::{CodeClimate, Lines, Location, UNSET_CODE};
pub use report::{translate, try_translate, Diagnostic, Message, Span};
pub use severity::{Level, Severity};
