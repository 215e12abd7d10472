//! A prompt module that shows the Railway project bound to the current
//! directory, and whether the prompt runs inside a Railway shell.
//!
//! The crate holds the module's settings, the decoding of what the `railway`
//! tool reports, the template language in which the prompt text is written,
//! and the decisions of one render pass, each with a proved contract.

pub mod config;
pub mod default_template;
pub mod formatter;
pub mod laws;
pub mod module;
pub mod report;
