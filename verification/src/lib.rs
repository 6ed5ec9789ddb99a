//! Usage polling, multi-source fallback, adaptive scheduling, and idempotent
//! alerting for a tray app that watches AI-assistant usage limits.
//!
//! The library holds the data model, the percent parsing and clamping rules,
//! the secret-redaction filter, the alert decision engine, the polling policy,
//! and the response/document parsing for each provider. I/O (HTTP, the local
//! helper process, the OS keychain, the clock) stays at the edges, behind
//! small trusted wrappers or outside the library entirely.

pub mod claude;
pub mod clock;
pub mod fetch;
pub mod formatters;
pub mod codex;
pub mod notifications;
pub mod percent;
pub mod policy;
pub mod redact;
pub mod secret_manager;
pub mod strings;
pub mod usage_alerts;
pub mod types;
