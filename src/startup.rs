use vstd::prelude::*;

verus! {

/// Minimum severity that the logging capability lets through.
#[derive(Clone, Copy, Debug, PartialEq, Eq, Structural)]
pub enum Severity {
    Off,
    Error,
    Warn,
    Info,
    Debug,
    Trace,
}

/// A platform capability switched on when the application starts.
#[derive(Clone, Copy, Debug, PartialEq, Eq, Structural)]
pub enum Capability {
    /// Structured logging, dropping records below `min_level`.
    Logging { min_level: Severity },
    /// Access to persistent storage.
    Storage,
    /// Checking for updates of the application itself.
    Updater,
    /// Spawning external processes.
    ProcessSpawning,
}

/// The capabilities every build switches on, in activation order.
pub open spec fn base_capabilities() -> Seq<Capability> {
    seq![Capability::Storage, Capability::Updater, Capability::ProcessSpawning]
}

/// Activation order at startup: in a development build, logging at
/// informational level comes first, so it is active before anything else can
/// emit diagnostics; a release build never switches logging on.
pub open spec fn startup_plan_spec(development: bool) -> Seq<Capability> {
    if development {
        seq![Capability::Logging { min_level: Severity::Info }] + base_capabilities()
    } else {
        base_capabilities()
    }
}

/// The capabilities to activate at startup, in order.
pub fn startup_plan(development: bool) -> (r: Vec<Capability>)
    ensures
        r@ == startup_plan_spec(development),
{
    let mut plan: Vec<Capability> = Vec::new();
    if development {
        plan.push(Capability::Logging { min_level: Severity::Info });
    }
    plan.push(Capability::Storage);
    plan.push(Capability::Updater);
    plan.push(Capability::ProcessSpawning);
    assert(plan@ =~= startup_plan_spec(development));
    plan
}

/// Logging appears in the startup plan exactly once, in first position, in a
/// development build, and never in a release build.
pub proof fn lemma_logging_only_first_in_development(development: bool)
    ensures
        forall|i: int|
            0 <= i < startup_plan_spec(development).len() ==> (#[trigger] startup_plan_spec(
                development,
            )[i] is Logging <==> (development && i == 0)),
        development ==> startup_plan_spec(development)[0] == (Capability::Logging {
            min_level: Severity::Info,
        }),
{
}

} // verus!
