//! The pipeline dispatcher.
//!
//! One request runs through a strictly sequential state machine:
//! `Idle → Writing → Compiling → Executing → Done`, short-circuiting to
//! `Failed` at the first stage that fails.  The dispatcher never retries,
//! and a request whose source never compiled is never executed.
//!
//! The machine makes every decision; the driver around it performs the
//! filesystem and process work one action at a time and reports each
//! outcome back as an event.

use vstd::prelude::*;

use crate::compiler::{spec_classify_compile, classify_compile, ProcessEvent};
use crate::executor::{spec_execute_outcome, classify_execute, ExecEvent, RunOutput};
use crate::failure::{spec_message, Failure};
use crate::lang::Language;
use crate::writer::{spec_classify_write, classify_write};

verus! {

/// A request: the language tag, the source text, and the input payload.
/// Code and input are arbitrary text; nothing beyond what the filesystem
/// and the OS enforce is validated.
pub struct CodeRequest {
    /// Selects the backend.
    pub lang: Language,
    /// The source text, persisted verbatim.
    pub code: String,
    /// The stdin payload; an empty payload is never redirected.
    pub input: String,
}

/// The uniform response every caller sees.
pub struct CodeResponse {
    /// Whether any stage failed.
    pub error: bool,
    /// The artifact's stdout on success; the failing stage's diagnostic
    /// text otherwise.
    pub body: String,
    /// Elapsed wall-clock nanoseconds of the run; meaningful only when
    /// `error` is false.
    pub time: u64,
}

/// Where one pipeline run stands.
pub enum Stage {
    /// Not yet started.
    Idle,
    /// The source text is being persisted.
    Writing,
    /// The compiler is being run on the source file.
    Compiling,
    /// The artifact is being run.
    Executing,
    /// Every stage succeeded.
    Done(RunOutput),
    /// A stage failed; no later stage runs.
    Failed(Failure),
}

/// What the driver reports back after performing an action.
pub enum Event {
    /// The run was started.
    Begin,
    /// Outcome of persisting the source text verbatim.
    SourceWritten(Result<(), String>),
    /// What happened to the compiler process.
    Compiled(ProcessEvent),
    /// What happened while running the artifact.
    Executed(ExecEvent),
}

/// What the driver must do next for a given stage.
#[derive(Clone, Copy, PartialEq, Eq, Structural, Debug)]
pub enum Action {
    /// Report `Event::Begin`.
    Start,
    /// Persist the source text to the workspace's source path and report
    /// `Event::SourceWritten`.
    WriteSource,
    /// Spawn the backend's compiler on the source path and report
    /// `Event::Compiled`.
    RunCompiler,
    /// Persist the input payload when non-empty, spawn the artifact, and
    /// report `Event::Executed`.
    RunProgram,
    /// The run is settled: map it to a response.
    Respond,
}

/// The action each stage calls for.  Only `Executing` ever asks for the
/// artifact to be run, and a settled run only asks for its response.
pub open spec fn spec_next_action(s: Stage) -> Action {
    match s {
        Stage::Idle => Action::Start,
        Stage::Writing => Action::WriteSource,
        Stage::Compiling => Action::RunCompiler,
        Stage::Executing => Action::RunProgram,
        Stage::Done(_) => Action::Respond,
        Stage::Failed(_) => Action::Respond,
    }
}

/// The stage a stage outcome leads to: success moves to `next`, a failure
/// short-circuits the run.
pub open spec fn spec_advance(outcome: Result<(), Failure>, next: Stage) -> Stage {
    match outcome {
        Ok(_) => next,
        Err(f) => Stage::Failed(f),
    }
}

/// The transition relation of the dispatcher.  Each stage consumes
/// exactly its own event; an event that does not belong to the current
/// stage leaves it unchanged, so in particular `Done` and `Failed` are
/// terminal.
pub open spec fn spec_step(pre: Stage, ev: Event, post: Stage) -> bool {
    match (pre, ev) {
        (Stage::Idle, Event::Begin) => post == Stage::Writing,
        (Stage::Writing, Event::SourceWritten(res)) => post == spec_advance(
            spec_classify_write(res),
            Stage::Compiling,
        ),
        (Stage::Compiling, Event::Compiled(pev)) => post == spec_advance(
            spec_classify_compile(pev),
            Stage::Executing,
        ),
        (Stage::Executing, Event::Executed(eev)) => {
            match post {
                Stage::Done(o) => spec_execute_outcome(eev, Ok(o)),
                Stage::Failed(f) => spec_execute_outcome(eev, Err(f)),
                _ => false,
            }
        },
        (s, _) => post == s,
    }
}

/// Performs one transition of the dispatcher.
pub fn step(pre: Stage, ev: Event) -> (post: Stage)
    ensures
        spec_step(pre, ev, post),
{
    match (pre, ev) {
        (Stage::Idle, Event::Begin) => Stage::Writing,
        (Stage::Writing, Event::SourceWritten(res)) => {
            match classify_write(res) {
                Ok(_) => Stage::Compiling,
                Err(f) => Stage::Failed(f),
            }
        },
        (Stage::Compiling, Event::Compiled(pev)) => {
            match classify_compile(pev) {
                Ok(_) => Stage::Executing,
                Err(f) => Stage::Failed(f),
            }
        },
        (Stage::Executing, Event::Executed(eev)) => {
            match classify_execute(eev) {
                Ok(o) => Stage::Done(o),
                Err(f) => Stage::Failed(f),
            }
        },
        (s, _) => s,
    }
}

/// What a response owes to a settled outcome: on success, the artifact's
/// stdout and the measured time, unchanged; on failure, the failing
/// stage's diagnostic text, with the time zeroed since it is meaningful
/// only on success.
pub open spec fn spec_response_ok(outcome: Result<RunOutput, Failure>, r: CodeResponse) -> bool {
    match outcome {
        Ok(o) => r.error == false && r.body == o.stdout && r.time == o.elapsed_nanos,
        Err(f) => r.error == true && r.body@ == spec_message(f) && r.time == 0,
    }
}

/// Maps a settled outcome to the uniform response contract.
pub fn to_response(outcome: Result<RunOutput, Failure>) -> (r: CodeResponse)
    ensures
        spec_response_ok(outcome, r),
{
    match outcome {
        Ok(o) => CodeResponse { error: false, body: o.stdout, time: o.elapsed_nanos },
        Err(f) => CodeResponse { error: true, body: f.into_message(), time: 0 },
    }
}

/// The response, if any, a run in a given stage yields: only a settled
/// run has one, and it reports exactly that run's outcome — no failure is
/// silently swallowed.
pub open spec fn spec_settled_response(stage: Stage, r: Option<CodeResponse>) -> bool {
    match stage {
        Stage::Done(o) => {
            match r {
                Some(resp) => spec_response_ok(Ok(o), resp),
                None => false,
            }
        },
        Stage::Failed(f) => {
            match r {
                Some(resp) => spec_response_ok(Err(f), resp),
                None => false,
            }
        },
        _ => r is None,
    }
}

/// The dispatcher for one request: it owns the run's stage and sequences
/// Write → Compile → Execute, stopping at the first failure.
pub struct CodeService {
    /// The language of the request being served.
    pub lang: Language,
    /// Where the run stands.
    pub stage: Stage,
}

impl CodeService {
    /// A dispatcher for a fresh request in the given language.
    pub fn new(lang: Language) -> (s: Self)
        ensures
            s.lang == lang,
            s.stage == Stage::Idle,
    {
        CodeService { lang, stage: Stage::Idle }
    }

    /// What the driver must do next.
    pub fn next_action(&self) -> (a: Action)
        ensures
            a == spec_next_action(self.stage),
    {
        match &self.stage {
            Stage::Idle => Action::Start,
            Stage::Writing => Action::WriteSource,
            Stage::Compiling => Action::RunCompiler,
            Stage::Executing => Action::RunProgram,
            Stage::Done(_) => Action::Respond,
            Stage::Failed(_) => Action::Respond,
        }
    }

    /// Consumes one reported outcome and advances the run.
    pub fn on_event(self, ev: Event) -> (s: Self)
        ensures
            s.lang == self.lang,
            spec_step(self.stage, ev, s.stage),
    {
        let lang = self.lang;
        let stage = step(self.stage, ev);
        CodeService { lang, stage }
    }

    /// Whether the run is settled: every stage ran, or one failed.
    pub fn is_settled(&self) -> (b: bool)
        ensures
            b == (self.stage is Done || self.stage is Failed),
    {
        match &self.stage {
            Stage::Done(_) => true,
            Stage::Failed(_) => true,
            _ => false,
        }
    }

    /// The response of a settled run, or `None` when stages remain.
    pub fn into_response(self) -> (r: Option<CodeResponse>)
        ensures
            spec_settled_response(self.stage, r),
    {
        match self.stage {
            Stage::Done(o) => Some(to_response(Ok(o))),
            Stage::Failed(f) => Some(to_response(Err(f))),
            _ => None,
        }
    }
}

/// Law: within one run the stages are entered in strict sequence — write
/// before compile before execute — and each only on its predecessor's
/// success.
pub proof fn lemma_stages_in_strict_sequence(pre: Stage, ev: Event, post: Stage)
    requires
        spec_step(pre, ev, post),
        pre != post,
    ensures
        post is Writing ==> (pre is Idle && ev is Begin),
        post is Compiling ==> (pre is Writing && ev matches Event::SourceWritten(Ok(()))),
        post is Executing ==> pre is Compiling,
        post is Done ==> pre is Executing,
{
}

/// Law: a settled run is terminal.  Whatever event arrives after `Done`
/// or `Failed`, the stage does not change: the first failure is final and
/// the dispatcher never retries.
pub proof fn lemma_settled_stages_are_terminal(pre: Stage, ev: Event, post: Stage)
    requires
        spec_step(pre, ev, post),
        pre is Done || pre is Failed,
    ensures
        post == pre,
{
}

/// Law: the dispatcher asks for the artifact to be run only from the
/// `Executing` stage.
pub proof fn lemma_run_action_only_when_executing(s: Stage)
    requires
        spec_next_action(s) == Action::RunProgram,
    ensures
        s is Executing,
{
}

/// Law: the `Executing` stage is entered only from `Compiling`, and only
/// when the compiler exited with a success status.  Together with the two
/// laws above: after any failed stage the artifact is never run.
pub proof fn lemma_execute_only_after_successful_compile(pre: Stage, ev: Event, post: Stage)
    requires
        spec_step(pre, ev, post),
        post is Executing,
        pre != post,
    ensures
        pre is Compiling,
        ev matches Event::Compiled(ProcessEvent::Exited { success: true, .. }),
{
}

/// Law: a source that fails to compile settles the run as a
/// `CompileFailure`; the dispatcher then only asks for the response, and
/// that response reports the error with the compiler's stderr as its body.
pub proof fn lemma_compile_failure_never_executes(
    stdout: String,
    stderr: String,
    post: Stage,
    r: Option<CodeResponse>,
)
    requires
        spec_step(
            Stage::Compiling,
            Event::Compiled(ProcessEvent::Exited { success: false, stdout, stderr }),
            post,
        ),
        spec_settled_response(post, r),
    ensures
        post == Stage::Failed(Failure::CompileFailure(stderr)),
        spec_next_action(post) == Action::Respond,
        r matches Some(resp) && resp.error == true && resp.body@ == stderr@,
{
}

/// Law: when every stage succeeds, the run settles as `Done` and the
/// response reports no error, the artifact's stdout verbatim, and exactly
/// the measured wall-clock time — so the reported time is positive
/// whenever the measured time is.
pub proof fn lemma_success_path(
    compile_stdout: String,
    compile_stderr: String,
    run_stdout: String,
    run_stderr: String,
    elapsed_nanos: u64,
    s1: Stage,
    s2: Stage,
    s3: Stage,
    s4: Stage,
    r: Option<CodeResponse>,
)
    requires
        spec_step(Stage::Idle, Event::Begin, s1),
        spec_step(s1, Event::SourceWritten(Ok(())), s2),
        spec_step(
            s2,
            Event::Compiled(
                ProcessEvent::Exited {
                    success: true,
                    stdout: compile_stdout,
                    stderr: compile_stderr,
                },
            ),
            s3,
        ),
        spec_step(
            s3,
            Event::Executed(
                ExecEvent::Exited {
                    success: true,
                    stdout: run_stdout,
                    stderr: run_stderr,
                    elapsed_nanos,
                },
            ),
            s4,
        ),
        spec_settled_response(s4, r),
    ensures
        s4 == Stage::Done(RunOutput { stdout: run_stdout, elapsed_nanos }),
        r matches Some(resp) && resp.error == false && resp.body == run_stdout && resp.time
            == elapsed_nanos,
        elapsed_nanos > 0 ==> (r matches Some(resp) && resp.time > 0),
{
}

/// Law: an artifact that exits with a failure status settles the run as
/// an `ExecutionFailure`, and the response reports the error with a
/// non-empty body: the captured stderr verbatim, or the synthesized
/// message when stderr was empty.
pub proof fn lemma_execution_failure_reports_stderr(
    stdout: String,
    stderr: String,
    elapsed_nanos: u64,
    post: Stage,
    r: Option<CodeResponse>,
)
    requires
        spec_step(
            Stage::Executing,
            Event::Executed(ExecEvent::Exited { success: false, stdout, stderr, elapsed_nanos }),
            post,
        ),
        spec_settled_response(post, r),
    ensures
        post is Failed,
        r matches Some(resp) && resp.error == true,
        stderr@.len() > 0 ==> (r matches Some(resp) && resp.body@ == stderr@),
        stderr@.len() == 0 ==> (r matches Some(resp) && resp.body@
            == crate::executor::spec_synthesized_failure_message()),
        r matches Some(resp) && resp.body@.len() > 0,
{
    crate::executor::lemma_synthesized_message_nonempty();
    if stderr@.len() == 0 {
        assert(post matches Stage::Failed(f) && spec_execute_outcome(
            ExecEvent::Exited { success: false, stdout, stderr, elapsed_nanos },
            Err(f),
        ));
    }
}

/// Law: no stage failure is silently swallowed.  A run that settled as
/// `Failed` yields a response that reports the error, with the failure's
/// own diagnostic text as the body.
pub proof fn lemma_failures_are_reported(f: Failure, r: Option<CodeResponse>)
    requires
        spec_settled_response(Stage::Failed(f), r),
    ensures
        r matches Some(resp) && resp.error == true && resp.body@ == spec_message(f),
{
}

/// Law: `Done` is reached only from `Executing`, only by a run of the
/// artifact that exited successfully, and it carries that run's stdout
/// and measured time unchanged.
pub proof fn lemma_done_only_after_successful_run(pre: Stage, ev: Event, post: Stage, o: RunOutput)
    requires
        spec_step(pre, ev, post),
        post == Stage::Done(o),
        pre != post,
    ensures
        pre is Executing,
        (ev matches Event::Executed(
            ExecEvent::Exited { success: true, stdout, stderr, elapsed_nanos },
        ) && o == (RunOutput { stdout, elapsed_nanos })),
{
}

} // verus!
