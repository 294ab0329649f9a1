use vstd::prelude::*;
use vstd::string::*;
use vstd::utf8::*;

use crate::text::{decode_lossy, lossy_text_of};

verus! {

/// What became of one attempt to run the schema-migration tool.
#[derive(Debug)]
pub enum ProcessReport {
    /// The tool could not be started; `description` is the platform's
    /// account of why (not found, permission denied, ...).
    NotStarted { description: String },
    /// The tool ran to completion with the given exit status and wrote
    /// `stderr` to its standard error.
    Exited { success: bool, stderr: Vec<u8> },
}

/// The program and arguments the migration tool is run with.
#[derive(Debug)]
pub struct MigrationCommand {
    pub program: String,
    pub args: Vec<String>,
}

pub open spec fn program_spec() -> Seq<char> {
    "npx"@
}

/// Push the schema, accepting possible data loss: a deliberate, fixed policy.
pub open spec fn args_spec() -> Seq<Seq<char>> {
    seq!["prisma"@, "db"@, "push"@, "--accept-data-loss"@]
}

pub open spec fn success_text() -> Seq<char> {
    "Migrations completed successfully"@
}

pub open spec fn tool_failure_prefix() -> Seq<char> {
    "Migration failed: "@
}

pub open spec fn spawn_failure_prefix() -> Seq<char> {
    "Failed to run migrations: "@
}

pub open spec fn tool_failure_text(stderr_text: Seq<char>) -> Seq<char> {
    tool_failure_prefix() + stderr_text
}

pub open spec fn spawn_failure_text(description: Seq<char>) -> Seq<char> {
    spawn_failure_prefix() + description
}

/// The texts a result carries, as character sequences.
pub open spec fn text_of(r: Result<String, String>) -> Result<Seq<char>, Seq<char>> {
    match r {
        Ok(m) => Ok(m@),
        Err(e) => Err(e@),
    }
}

/// The outcome of a run that exited, given its decoded standard error.
pub open spec fn exit_outcome_spec(success: bool, stderr_text: Seq<char>) -> Result<
    Seq<char>,
    Seq<char>,
> {
    if success {
        Ok(success_text())
    } else {
        Err(tool_failure_text(stderr_text))
    }
}

/// The outcome reported to the caller for a given report.
pub open spec fn outcome_spec(report: ProcessReport) -> Result<Seq<char>, Seq<char>> {
    match report {
        ProcessReport::NotStarted { description } => Err(spawn_failure_text(description@)),
        ProcessReport::Exited { success, stderr } => exit_outcome_spec(
            success,
            lossy_text_of(stderr@),
        ),
    }
}

/// The fixed command line of the migration tool.
pub fn migration_command() -> (r: MigrationCommand)
    ensures
        r.program@ == program_spec(),
        r.args.deep_view() == args_spec(),
{
    let program = String::from_str("npx");
    let mut args: Vec<String> = Vec::new();
    args.push(String::from_str("prisma"));
    args.push(String::from_str("db"));
    args.push(String::from_str("push"));
    args.push(String::from_str("--accept-data-loss"));
    assert(args.deep_view() =~= args_spec());
    MigrationCommand { program, args }
}

/// The confirmation returned when the tool succeeds.
pub fn success_message() -> (r: String)
    ensures
        r@ == success_text(),
{
    String::from_str("Migrations completed successfully")
}

/// The failure detail for a tool that ran and reported failure.
pub fn tool_failure_message(stderr_text: &str) -> (r: String)
    ensures
        r@ == tool_failure_text(stderr_text@),
{
    String::from_str("Migration failed: ").concat(stderr_text)
}

/// The failure detail for a tool that could not be started.
pub fn spawn_failure_message(description: &str) -> (r: String)
    ensures
        r@ == spawn_failure_text(description@),
{
    String::from_str("Failed to run migrations: ").concat(description)
}

/// The outcome of a run that exited, from its status and its standard error
/// already decoded as text.
pub fn exit_outcome(success: bool, stderr_text: &str) -> (r: Result<String, String>)
    ensures
        text_of(r) == exit_outcome_spec(success, stderr_text@),
{
    if success {
        Ok(success_message())
    } else {
        Err(tool_failure_message(stderr_text))
    }
}

/// Maps what happened to the migration tool to the text handed back to the
/// caller: a fixed confirmation on success, the tool's own diagnostics on
/// failure, and the platform's reason when it could not be started.
pub fn migration_outcome(report: &ProcessReport) -> (r: Result<String, String>)
    ensures
        text_of(r) == outcome_spec(*report),
        *report matches ProcessReport::Exited { success: false, stderr } ==> valid_utf8(stderr@)
            ==> text_of(r) == Err::<Seq<char>, Seq<char>>(tool_failure_text(decode_utf8(stderr@))),
{
    match report {
        ProcessReport::NotStarted { description } => Err(
            spawn_failure_message(description.as_str()),
        ),
        ProcessReport::Exited { success, stderr } => {
            let stderr_text = decode_lossy(stderr.as_slice());
            exit_outcome(*success, stderr_text.as_str())
        },
    }
}

/// A run that exits successfully yields the fixed confirmation, whatever it
/// wrote to standard error.
pub proof fn lemma_success_ignores_stderr(stderr: Vec<u8>)
    ensures
        outcome_spec(ProcessReport::Exited { success: true, stderr }) == Ok::<
            Seq<char>,
            Seq<char>,
        >(success_text()),
{
}

/// A run that exits with failure always yields a failure whose detail is the
/// failure prefix followed by the lossy decoding of every byte of standard
/// error; decoding never fails.
pub proof fn lemma_failure_carries_decoded_stderr(stderr: Vec<u8>)
    ensures
        outcome_spec(ProcessReport::Exited { success: false, stderr }) == Err::<
            Seq<char>,
            Seq<char>,
        >(tool_failure_prefix() + lossy_text_of(stderr@)),
{
}

/// A tool that cannot be started never yields success, and the detail starts
/// with the spawn-failure prefix followed by the platform's description.
pub proof fn lemma_spawn_failure_is_never_success(description: String)
    ensures
        outcome_spec(ProcessReport::NotStarted { description }) is Err,
        ({
            let detail = outcome_spec(ProcessReport::NotStarted { description })->Err_0;
            &&& detail.subrange(0, spawn_failure_prefix().len() as int) == spawn_failure_prefix()
            &&& detail.subrange(spawn_failure_prefix().len() as int, detail.len() as int)
                == description@
        }),
{
    let detail = spawn_failure_prefix() + description@;
    assert(detail.subrange(0, spawn_failure_prefix().len() as int) =~= spawn_failure_prefix());
    assert(detail.subrange(spawn_failure_prefix().len() as int, detail.len() as int)
        =~= description@);
}

} // verus!
