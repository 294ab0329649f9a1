//! Startup composition and the schema-migration operation of a desktop
//! application shell: which capabilities are switched on at start, and how a
//! run of the external migration tool becomes the text shown to the user.

pub mod migration;
pub mod startup;
pub mod text;

pub use migration::{
    exit_outcome, migration_command, migration_outcome, spawn_failure_message, success_message,
    tool_failure_message, MigrationCommand, ProcessReport,
};
pub use startup::{startup_plan, Capability, Severity};
