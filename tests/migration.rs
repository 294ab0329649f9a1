use migration_shell::{
    exit_outcome, migration_command, migration_outcome, spawn_failure_message, success_message,
    tool_failure_message, ProcessReport,
};

fn exited(success: bool, stderr: &[u8]) -> ProcessReport {
    ProcessReport::Exited { success, stderr: stderr.to_vec() }
}

#[test]
fn success_with_empty_stderr() {
    let r = migration_outcome(&exited(true, b""));
    assert_eq!(r, Ok("Migrations completed successfully".to_string()));
}

#[test]
fn success_ignores_stderr_text() {
    let r = migration_outcome(&exited(true, b"warning: 3 rows will be dropped"));
    assert_eq!(r, Ok("Migrations completed successfully".to_string()));
}

#[test]
fn success_ignores_invalid_stderr_bytes() {
    let r = migration_outcome(&exited(true, &[0xff, 0x00, 0xc3]));
    assert_eq!(r, Ok("Migrations completed successfully".to_string()));
}

#[test]
fn failure_carries_schema_drift() {
    let r = migration_outcome(&exited(false, b"schema drift detected"));
    assert_eq!(r, Err("Migration failed: schema drift detected".to_string()));
}

#[test]
fn failure_with_empty_stderr() {
    let r = migration_outcome(&exited(false, b""));
    assert_eq!(r, Err("Migration failed: ".to_string()));
}

#[test]
fn failure_decodes_multibyte_utf8() {
    let r = migration_outcome(&exited(false, &[0x63, 0x61, 0x66, 0xc3, 0xa9]));
    assert_eq!(r, Err("Migration failed: caf\u{e9}".to_string()));
}

#[test]
fn failure_replaces_invalid_bytes() {
    let r = migration_outcome(&exited(false, &[0x6f, 0x6b, 0xff, 0xfe]));
    assert_eq!(r, Err("Migration failed: ok\u{fffd}\u{fffd}".to_string()));
}

#[test]
fn failure_replaces_truncated_sequence() {
    let r = migration_outcome(&exited(false, &[0x61, 0xe2, 0x82]));
    assert_eq!(r, Err("Migration failed: a\u{fffd}".to_string()));
}

#[test]
fn spawn_failure_is_reported_with_prefix() {
    let report = ProcessReport::NotStarted {
        description: "No such file or directory (os error 2)".to_string(),
    };
    let r = migration_outcome(&report);
    assert_eq!(
        r,
        Err("Failed to run migrations: No such file or directory (os error 2)".to_string())
    );
}

#[test]
fn spawn_failure_never_succeeds() {
    let report = ProcessReport::NotStarted { description: String::new() };
    let r = migration_outcome(&report);
    assert!(r.is_err());
    assert!(r.unwrap_err().starts_with("Failed to run migrations: "));
}

#[test]
fn exit_outcome_on_decoded_text() {
    assert_eq!(
        exit_outcome(false, "schema drift detected"),
        Err("Migration failed: schema drift detected".to_string())
    );
    assert_eq!(
        exit_outcome(true, "schema drift detected"),
        Ok("Migrations completed successfully".to_string())
    );
}

#[test]
fn messages_are_exact() {
    assert_eq!(success_message(), "Migrations completed successfully");
    assert_eq!(tool_failure_message("boom"), "Migration failed: boom");
    assert_eq!(spawn_failure_message("denied"), "Failed to run migrations: denied");
}

#[test]
fn command_is_prisma_push_accepting_data_loss() {
    let c = migration_command();
    assert_eq!(c.program, "npx");
    assert_eq!(c.args, vec!["prisma", "db", "push", "--accept-data-loss"]);
}
