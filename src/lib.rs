//! Locates, installs and caches the language-server binary of the norminette
//! checker on behalf of an editor extension.
//!
//! The decisions of a provisioning cycle are a verified state machine: the
//! caller performs each requested action (fetch, file check, download, ...)
//! and hands the outcome back as an event.
pub mod platform;
pub mod release;
pub mod provision;
pub mod cycles;
