//! The order of work on one script: compile, run, read the value, read the
//! logs. The host asks the engine for one thing at a time and tells this
//! module how it went; the module says what comes next, and when the
//! environment is to be released.

use vstd::prelude::*;
use crate::post_run_js::EngineReport;

verus! {

/// Where an execution stands. The environment exists and holds the log
/// primitive and the empty log buffer in every stage.
pub enum Stage {
    /// Nothing has been compiled yet.
    Bound,
    /// The source compiled; the script has not run.
    Compiled,
    /// The script ran to its end; its value is not text yet.
    Ran,
    /// The final value is held as text; the logs are still in the engine.
    ValueRead(String),
}

/// What the host asks of the engine.
#[derive(Clone, Copy, Debug, PartialEq, Eq, Structural)]
pub enum Action {
    /// Compile the source text.
    Compile,
    /// Run the compiled script.
    Run,
    /// Turn the final value into text.
    ReadValue,
    /// Read the log buffer as text.
    ReadLogs,
}

/// How the engine answered.
pub enum Event {
    /// The action went through. The text is what it produced: the value or
    /// the log buffer where one was read, of no account otherwise.
    Succeeded(String),
    /// The action failed; the text is the engine's diagnostic.
    Failed(String),
}

/// What follows an answer of the engine.
pub enum Step {
    /// Go on with the action of this stage.
    Continue(Stage),
    /// Release the environment; this is what the execution came to.
    Release(EngineReport),
}

impl Stage {
    /// How many actions lie between this stage and the end of a run in
    /// which none fails.
    pub open spec fn remaining(&self) -> nat {
        match self {
            Stage::Bound => 4,
            Stage::Compiled => 3,
            Stage::Ran => 2,
            Stage::ValueRead(_) => 1,
        }
    }

    /// The action that is due in this stage.
    pub open spec fn spec_action(&self) -> Action {
        match self {
            Stage::Bound => Action::Compile,
            Stage::Compiled => Action::Run,
            Stage::Ran => Action::ReadValue,
            Stage::ValueRead(_) => Action::ReadLogs,
        }
    }

    /// The stage that every execution starts in.
    pub fn start() -> (stage: Stage)
        ensures
            stage == Stage::Bound,
    {
        Stage::Bound
    }

    /// The action that is due in this stage.
    pub fn action(&self) -> (action: Action)
        ensures
            action == self.spec_action(),
    {
        match self {
            Stage::Bound => Action::Compile,
            Stage::Compiled => Action::Run,
            Stage::Ran => Action::ReadValue,
            Stage::ValueRead(_) => Action::ReadLogs,
        }
    }
}

/// What a failure in a stage is reported as.
pub open spec fn failure_report(stage: Stage, diagnostic: String) -> EngineReport {
    match stage {
        Stage::Bound => EngineReport::CompileFailed(diagnostic),
        Stage::Compiled => EngineReport::Threw(diagnostic),
        Stage::Ran => EngineReport::ConversionFailed(diagnostic),
        Stage::ValueRead(_) => EngineReport::ConversionFailed(diagnostic),
    }
}

/// What follows when the action of `stage` was answered with `event`.
pub open spec fn next(stage: Stage, event: Event) -> Step {
    match event {
        Event::Failed(diagnostic) => Step::Release(failure_report(stage, diagnostic)),
        Event::Succeeded(text) => match stage {
            Stage::Bound => Step::Continue(Stage::Compiled),
            Stage::Compiled => Step::Continue(Stage::Ran),
            Stage::Ran => Step::Continue(Stage::ValueRead(text)),
            Stage::ValueRead(value) => Step::Release(
                EngineReport::Completed { value: value, logs: text },
            ),
        },
    }
}

/// Decides what follows the engine's answer to the action of `stage`. A
/// failure ends the execution at once, as a compile failure before the
/// script is compiled, as an exception while it runs, as a failed
/// conversion after. A success moves one stage on, and the last one ends
/// the execution with the value and the logs.
pub fn step(stage: Stage, event: Event) -> (r: Step)
    ensures
        r == next(stage, event),
        event is Failed ==> r is Release,
        r matches Step::Continue(after) ==> after.remaining() + 1 == stage.remaining(),
        stage.remaining() == 1 ==> r is Release,
{
    match event {
        Event::Failed(diagnostic) => {
            match stage {
                Stage::Bound => Step::Release(EngineReport::CompileFailed(diagnostic)),
                Stage::Compiled => Step::Release(EngineReport::Threw(diagnostic)),
                Stage::Ran => Step::Release(EngineReport::ConversionFailed(diagnostic)),
                Stage::ValueRead(_) => Step::Release(EngineReport::ConversionFailed(diagnostic)),
            }
        },
        Event::Succeeded(text) => {
            match stage {
                Stage::Bound => Step::Continue(Stage::Compiled),
                Stage::Compiled => Step::Continue(Stage::Ran),
                Stage::Ran => Step::Continue(Stage::ValueRead(text)),
                Stage::ValueRead(value) => Step::Release(
                    EngineReport::Completed { value: value, logs: text },
                ),
            }
        },
    }
}

/// What a run of answers leads to from `stage`: the report with which the
/// environment is released, or `None` while the execution is still open.
pub open spec fn outcome(stage: Stage, events: Seq<Event>) -> Option<EngineReport>
    decreases events.len(),
{
    if events.len() == 0 {
        None
    } else {
        match next(stage, events[0]) {
            Step::Release(report) => Some(report),
            Step::Continue(after) => outcome(after, events.drop_first()),
        }
    }
}

/// Every execution releases its environment: whatever the engine answers,
/// as many answers as the stage has actions left bring the release.
pub proof fn lemma_every_execution_is_released(stage: Stage, events: Seq<Event>)
    requires
        events.len() >= stage.remaining(),
    ensures
        outcome(stage, events) is Some,
    decreases events.len(),
{
    match next(stage, events[0]) {
        Step::Release(_) => {},
        Step::Continue(after) => {
            lemma_every_execution_is_released(after, events.drop_first());
        },
    }
}

/// The first failure decides: answers that succeed up to a failure lead to
/// the report of that failure in the stage where it came, and nothing
/// after it counts.
pub proof fn lemma_failure_ends_execution(stage: Stage, diagnostic: String, later: Seq<Event>)
    ensures
        outcome(stage, seq![Event::Failed(diagnostic)] + later) == Some(
            failure_report(stage, diagnostic),
        ),
{
    let events = seq![Event::Failed(diagnostic)] + later;
    assert(events[0] == Event::Failed(diagnostic));
}

/// A run in which nothing fails comes to the value and the logs that the
/// engine handed over, each unchanged.
pub proof fn lemma_clean_run_completes(a: String, b: String, value: String, logs: String)
    ensures
        outcome(
            Stage::Bound,
            seq![
                Event::Succeeded(a),
                Event::Succeeded(b),
                Event::Succeeded(value),
                Event::Succeeded(logs),
            ],
        ) == Some(EngineReport::Completed { value: value, logs: logs }),
{
    let e0 = seq![
        Event::Succeeded(a),
        Event::Succeeded(b),
        Event::Succeeded(value),
        Event::Succeeded(logs),
    ];
    let e1 = e0.drop_first();
    let e2 = e1.drop_first();
    let e3 = e2.drop_first();
    assert(e1[0] == Event::Succeeded(b));
    assert(e2[0] == Event::Succeeded(value));
    assert(e3[0] == Event::Succeeded(logs));
    assert(outcome(Stage::ValueRead(value), e3) == Some(
        EngineReport::Completed { value: value, logs: logs },
    ));
    assert(outcome(Stage::Ran, e2) == outcome(Stage::ValueRead(value), e3));
    assert(outcome(Stage::Compiled, e1) == outcome(Stage::Ran, e2));
    assert(outcome(Stage::Bound, e0) == outcome(Stage::Compiled, e1));
}

} // verus!
