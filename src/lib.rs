//! Periodic directory backup: the scheduling state machine, the naming and
//! text of backups and log lines, and the checks made before a backup runs.
pub mod schedule;
pub mod cycle;
pub mod text;
pub mod stamp;
pub mod paths;
pub mod settings;
