//! Decision logic of a notification-server simulator: recording incoming
//! notifications into trip files, replaying them with an offline backlog,
//! generating custom telemetry fields, and keeping the table of running
//! sessions.

pub mod backlog;
pub mod clock;
pub mod custom_fields;
pub mod encoding;
pub mod models;
pub mod random;
pub mod recorder;
pub mod registry;
pub mod settings;
pub mod simulation;
pub mod text;
