//! The step-chain execution engine: ordered steps, the simulate/execute
//! strategy, and the resume-from-failure protocol.
//!
//! A [`CommandChain`] is a 1-indexed sequence of [`Step`]s. Running it from a
//! resume index yields a [`ChainRun`], a state machine that hands out one
//! pending step at a time and is advanced with the step's outcome. On the
//! first failure the run halts for good and can render the exact retry
//! invocation that continues the workflow at the failed step.

use vstd::prelude::*;

use crate::string_ext::{dec_str, indent_text, join_strs, join_with, usize_to_string, Indent};

verus! {

/// One unit of work: an external command plus its ordered argument list.
/// Constructing a step has no effect; only a runner ever performs it.
pub struct Step {
    executable: String,
    args: Vec<String>,
}

/// Mathematical image of a [`Step`].
#[verifier::ext_equal]
pub struct StepView {
    pub executable: Seq<char>,
    pub args: Seq<Seq<char>>,
}

impl View for Step {
    type V = StepView;

    closed spec fn view(&self) -> StepView {
        StepView { executable: self.executable@, args: self.args.deep_view() }
    }
}

impl DeepView for Step {
    type V = StepView;

    open spec fn deep_view(&self) -> StepView {
        self.view()
    }
}

/// The display string of a step: its executable, a space, and its arguments
/// joined by single spaces.
pub open spec fn step_display(s: StepView) -> Seq<char> {
    s.executable + seq![' '] + join_with(s.args, ' ')
}

impl Step {
    /// Package an executable name and its arguments as a step.
    pub fn new(executable: String, args: Vec<String>) -> (step: Step)
        ensures
            step@.executable == executable@,
            step@.args == args.deep_view(),
    {
        Step { executable, args }
    }

    /// The name of the external command the step stands for.
    pub fn executable(&self) -> (r: &String)
        ensures
            r@ == self@.executable,
    {
        &self.executable
    }

    /// The arguments the step passes to its executable.
    pub fn args(&self) -> (r: &Vec<String>)
        ensures
            r.deep_view() == self@.args,
    {
        &self.args
    }

    /// Render the step the way previews and progress lines show it.
    pub fn as_string(&self) -> (r: String)
        ensures
            r@ == step_display(self@),
    {
        let mut out = self.executable.clone();
        proof {
            reveal_strlit(" ");
        }
        out.append(" ");
        let joined = join_strs(&self.args, " ");
        out.append(joined.as_str());
        proof {
            assert(" "@ =~= seq![' ']);
            assert(out@ =~= step_display(self@));
        }
        out
    }
}

/// The result of attempting one step: success, or failure with the captured
/// diagnostic text. Success output is discarded by design.
pub enum StepOutcome {
    Success,
    Failure(String),
}

/// Mathematical image of a [`StepOutcome`].
pub enum StepOutcomeView {
    Success,
    Failure(Seq<char>),
}

impl View for StepOutcome {
    type V = StepOutcomeView;

    open spec fn view(&self) -> StepOutcomeView {
        match self {
            StepOutcome::Success => StepOutcomeView::Success,
            StepOutcome::Failure(diagnostic) => StepOutcomeView::Failure(diagnostic@),
        }
    }
}

/// Strategy for attempting a step: preview it without performing anything,
/// or actually execute it. Chosen once per invocation and fixed for the
/// whole chain run.
#[derive(Clone, Copy, Debug, PartialEq, Eq, Structural)]
pub enum StepRunner {
    Simulate,
    Execute,
}

/// The phase a chain run is in: still attempting steps, finished with every
/// step succeeding, or halted at its first failure.
#[derive(Clone, Copy, Debug, PartialEq, Eq, Structural)]
pub enum ChainStatus {
    Running,
    Completed,
    Halted,
}

/// An ordered, 1-indexed sequence of steps; insertion order is execution
/// order. The sequence is frozen once a run begins.
pub struct CommandChain {
    steps: Vec<Step>,
}

impl View for CommandChain {
    type V = Seq<StepView>;

    closed spec fn view(&self) -> Seq<StepView> {
        self.steps.deep_view()
    }
}

impl CommandChain {
    /// An empty chain.
    pub fn new() -> (c: CommandChain)
        ensures
            c@ == Seq::<StepView>::empty(),
    {
        let c = CommandChain { steps: Vec::new() };
        proof {
            assert(c@ =~= Seq::<StepView>::empty());
        }
        c
    }

    /// Append a step; it will run after every step already added.
    pub fn add(&mut self, step: Step)
        ensures
            final(self)@ == old(self)@.push(step@),
    {
        let ghost stepv = step@;
        self.steps.push(step);
        proof {
            assert(self@ =~= old(self)@.push(stepv));
        }
    }

    /// How many steps the chain holds.
    pub fn len(&self) -> (n: usize)
        ensures
            n == self@.len(),
    {
        self.steps.len()
    }

    /// The step at the given 1-based index.
    pub fn step_at(&self, index: usize) -> (step: &Step)
        requires
            1 <= index <= self@.len(),
        ensures
            step@ == self@[index - 1],
    {
        &self.steps[index - 1]
    }
}

/// Mathematical image of a [`ChainRun`]: the frozen chain, the strategy, the
/// canonical rerun command, the resume index, the cursor naming the next
/// step to attempt, and the diagnostic of the failed step, if any.
#[verifier::ext_equal]
pub struct ChainRunView {
    pub steps: Seq<StepView>,
    pub runner: StepRunner,
    pub rerun_command: Seq<char>,
    pub resume: int,
    pub cursor: int,
    pub failure: Option<Seq<char>>,
}

impl ChainRunView {
    /// How many steps the chain holds.
    pub open spec fn n(self) -> int {
        self.steps.len() as int
    }

    /// A step is still pending and no failure has occurred.
    pub open spec fn is_running(self) -> bool {
        self.failure is None && self.cursor <= self.n()
    }

    /// Every attempted step succeeded and none is pending.
    pub open spec fn is_completed(self) -> bool {
        self.failure is None && self.cursor > self.n()
    }

    /// The run stopped at its first failure; the cursor names the failed
    /// step. This state is terminal.
    pub open spec fn is_halted(self) -> bool {
        self.failure is Some
    }

    /// Well-formedness: the cursor never lies before the resume index, only
    /// exceeds the chain by one (or sits at a resume index already beyond
    /// the chain), a failure always names a real step, a simulated run never
    /// fails, and the chain leaves room for the cursor to pass its end.
    pub open spec fn wf(self) -> bool {
        &&& 1 <= self.resume <= self.cursor
        &&& (self.cursor <= self.n() + 1 || self.cursor == self.resume)
        &&& (self.is_halted() ==> self.cursor <= self.n())
        &&& (self.runner == StepRunner::Simulate ==> self.failure is None)
        &&& self.n() < usize::MAX
    }

    /// The 1-based indices of the steps this run has attempted, in order:
    /// every step from the resume index up to the cursor, the cursor's own
    /// step included exactly when the run halted there.
    pub open spec fn attempted(self) -> Seq<int> {
        if self.is_halted() {
            Seq::new((self.cursor - self.resume + 1) as nat, |i: int| self.resume + i)
        } else {
            Seq::new((self.cursor - self.resume) as nat, |i: int| self.resume + i)
        }
    }

    /// One transition of the execution protocol: attempting the pending
    /// step with the given outcome. On success the cursor moves on; on
    /// failure the run halts at the cursor with the captured diagnostic.
    pub open spec fn step_transition(self, outcome: StepOutcomeView) -> ChainRunView {
        match outcome {
            StepOutcomeView::Success => ChainRunView { cursor: self.cursor + 1, ..self },
            StepOutcomeView::Failure(diagnostic) => ChainRunView {
                failure: Some(diagnostic),
                ..self
            },
        }
    }
}

/// The run that results from attempting pending steps with the given
/// outcomes, one after the other, stopping as soon as the run leaves the
/// running state.
pub open spec fn run_steps(v: ChainRunView, outcomes: Seq<StepOutcomeView>) -> ChainRunView
    decreases outcomes.len(),
{
    if outcomes.len() == 0 || !v.is_running() {
        v
    } else {
        run_steps(v.step_transition(outcomes[0]), outcomes.drop_first())
    }
}

/// The text of the progress line announcing step `index`.
pub open spec fn progress_line_text(index: int, display: Seq<char>) -> Seq<char> {
    "-- Running step "@ + dec_str(index as nat) + ": "@ + display
}

/// The text of the line reporting that step `index` failed.
pub open spec fn failure_line_text(index: int) -> Seq<char> {
    "Step "@ + dec_str(index as nat) + " failed. Fix the problem and rerun with:"@
}

/// The ready-to-copy retry invocation: the workflow's canonical command
/// with `--from-step` naming the step to re-attempt.
pub open spec fn retry_command_text(rerun_command: Seq<char>, index: int) -> Seq<char> {
    "api-git "@ + rerun_command + " --from-step "@ + dec_str(index as nat)
}

/// The two preview lines a simulated step prints: a header and the step's
/// display string indented below it.
pub open spec fn preview_block_text(display: Seq<char>) -> Seq<char> {
    "Dry run:"@ + seq!['\n'] + indent_text(display, 2)
}

/// One run of a chain: the execution protocol as a state machine, driven
/// from outside by feeding it the outcome of each pending step in turn.
pub struct ChainRun {
    steps: Vec<Step>,
    runner: StepRunner,
    rerun_command: String,
    resume: usize,
    cursor: usize,
    failure: Option<String>,
}

impl View for ChainRun {
    type V = ChainRunView;

    closed spec fn view(&self) -> ChainRunView {
        ChainRunView {
            steps: self.steps.deep_view(),
            runner: self.runner,
            rerun_command: self.rerun_command@,
            resume: self.resume as int,
            cursor: self.cursor as int,
            failure: match self.failure {
                Some(diagnostic) => Some(diagnostic@),
                None => None,
            },
        }
    }
}

impl CommandChain {
    /// Begin the execution protocol at the 1-based index `from_step`,
    /// freezing the chain. Steps before the resume index are skipped
    /// entirely; a resume index beyond the chain completes immediately with
    /// no step attempted, and is not an error.
    pub fn run_from_step(self, from_step: usize, rerun_command: String, runner: StepRunner) -> (run:
        ChainRun)
        requires
            1 <= from_step,
            self@.len() < usize::MAX,
        ensures
            run@.steps == self@,
            run@.runner == runner,
            run@.rerun_command == rerun_command@,
            run@.resume == from_step as int,
            run@.cursor == from_step as int,
            run@.failure is None,
            run@.wf(),
            run@.attempted() == Seq::<int>::empty(),
            from_step as int <= self@.len() ==> run@.is_running(),
            from_step as int > self@.len() ==> run@.is_completed(),
    {
        let run = ChainRun {
            steps: self.steps,
            runner,
            rerun_command,
            resume: from_step,
            cursor: from_step,
            failure: None,
        };
        proof {
            assert(run@.attempted() =~= Seq::<int>::empty());
        }
        run
    }
}

impl ChainRun {
    /// The phase the run is in.
    pub fn status(&self) -> (status: ChainStatus)
        ensures
            (status == ChainStatus::Running) == self@.is_running(),
            (status == ChainStatus::Completed) == self@.is_completed(),
            (status == ChainStatus::Halted) == self@.is_halted(),
    {
        if self.failure.is_some() {
            ChainStatus::Halted
        } else if self.cursor > self.steps.len() {
            ChainStatus::Completed
        } else {
            ChainStatus::Running
        }
    }

    /// The 1-based index of the step the protocol attempts next.
    pub fn pending_index(&self) -> (index: usize)
        requires
            self@.is_running(),
        ensures
            index as int == self@.cursor,
    {
        self.cursor
    }

    /// The step the protocol attempts next.
    pub fn pending_step(&self) -> (step: &Step)
        requires
            self@.is_running(),
            self@.wf(),
        ensures
            step@ == self@.steps[self@.cursor - 1],
    {
        &self.steps[self.cursor - 1]
    }

    /// Whether the pending step's underlying action is to be invoked at
    /// all: true exactly under the Execute strategy. Under Simulate no
    /// action is ever invoked.
    pub fn should_execute(&self) -> (b: bool)
        ensures
            b == (self@.runner == StepRunner::Execute),
    {
        self.runner == StepRunner::Execute
    }

    /// Record what actually executing the pending step produced. Only an
    /// executing run ever records a real outcome.
    pub fn record_outcome(&mut self, outcome: StepOutcome)
        requires
            old(self)@.is_running(),
            old(self)@.wf(),
            old(self)@.runner == StepRunner::Execute,
        ensures
            final(self)@ == old(self)@.step_transition(outcome@),
            final(self)@.wf(),
            final(self)@.attempted() == old(self)@.attempted().push(old(self)@.cursor),
    {
        match outcome {
            StepOutcome::Success => {
                self.cursor = self.cursor + 1;
            },
            StepOutcome::Failure(diagnostic) => {
                self.failure = Some(diagnostic);
            },
        }
        proof {
            assert(self@.attempted() =~= old(self)@.attempted().push(old(self)@.cursor));
        }
    }

    /// Move past the pending step under the Simulate strategy: the step is
    /// previewed, never invoked, and counts as a success no matter what the
    /// real action would have done.
    pub fn advance_simulated(&mut self)
        requires
            old(self)@.is_running(),
            old(self)@.wf(),
            old(self)@.runner == StepRunner::Simulate,
        ensures
            final(self)@ == old(self)@.step_transition(StepOutcomeView::Success),
            final(self)@.wf(),
            final(self)@.attempted() == old(self)@.attempted().push(old(self)@.cursor),
    {
        self.cursor = self.cursor + 1;
        proof {
            assert(self@.attempted() =~= old(self)@.attempted().push(old(self)@.cursor));
        }
    }

    /// The 1-based index of the failed step.
    pub fn failed_step(&self) -> (index: usize)
        requires
            self@.is_halted(),
        ensures
            index as int == self@.cursor,
    {
        self.cursor
    }

    /// The diagnostic text captured from the failed step.
    pub fn diagnostic(&self) -> (diagnostic: &String)
        requires
            self@.is_halted(),
        ensures
            self@.failure == Some(diagnostic@),
    {
        match &self.failure {
            Some(diagnostic) => diagnostic,
            None => unreached(),
        }
    }

    /// The progress line announcing the pending step.
    pub fn progress_line(&self) -> (line: String)
        requires
            self@.is_running(),
            self@.wf(),
        ensures
            line@ == progress_line_text(self@.cursor, step_display(self@.steps[self@.cursor - 1])),
    {
        let mut line = String::new();
        line.append("-- Running step ");
        let index = usize_to_string(self.cursor);
        line.append(index.as_str());
        line.append(": ");
        let display = self.steps[self.cursor - 1].as_string();
        line.append(display.as_str());
        proof {
            assert(line@ =~= progress_line_text(
                self@.cursor,
                step_display(self@.steps[self@.cursor - 1]),
            ));
        }
        line
    }

    /// The preview a simulated run prints instead of invoking the pending
    /// step: a header line and the step's display string indented under it.
    pub fn preview_block(&self) -> (block: String)
        requires
            self@.is_running(),
            self@.wf(),
            self@.runner == StepRunner::Simulate,
        ensures
            block@ == preview_block_text(step_display(self@.steps[self@.cursor - 1])),
    {
        let mut block = String::new();
        block.append("Dry run:");
        block.append("\n");
        let indented = self.steps[self.cursor - 1].as_string().indent(2);
        block.append(indented.as_str());
        proof {
            reveal_strlit("\n");
            assert("\n"@ =~= seq!['\n']);
            assert(block@ =~= preview_block_text(step_display(self@.steps[self@.cursor - 1])));
        }
        block
    }

    /// The line reporting which step failed.
    pub fn failure_line(&self) -> (line: String)
        requires
            self@.is_halted(),
        ensures
            line@ == failure_line_text(self@.cursor),
    {
        let mut line = String::new();
        line.append("Step ");
        let index = usize_to_string(self.cursor);
        line.append(index.as_str());
        line.append(" failed. Fix the problem and rerun with:");
        proof {
            assert(line@ =~= failure_line_text(self@.cursor));
        }
        line
    }

    /// The ready-to-copy retry invocation continuing the workflow at the
    /// failed step: the canonical rerun command, annotated with
    /// `--from-step` naming that very step. This exact string is the tool's
    /// contract with the user.
    pub fn retry_command(&self) -> (command: String)
        requires
            self@.is_halted(),
        ensures
            command@ == retry_command_text(self@.rerun_command, self@.cursor),
    {
        let mut command = String::new();
        command.append("api-git ");
        command.append(self.rerun_command.as_str());
        command.append(" --from-step ");
        let index = usize_to_string(self.cursor);
        command.append(index.as_str());
        proof {
            assert(command@ =~= retry_command_text(self@.rerun_command, self@.cursor));
        }
        command
    }
}

proof fn lemma_run_steps_concat(v: ChainRunView, a: Seq<StepOutcomeView>, b: Seq<StepOutcomeView>)
    ensures
        run_steps(v, a + b) == run_steps(run_steps(v, a), b),
    decreases a.len(),
{
    if a.len() == 0 {
        assert(a + b =~= b);
    } else if !v.is_running() {
    } else {
        assert((a + b)[0] == a[0]);
        assert((a + b).drop_first() =~= a.drop_first() + b);
        lemma_run_steps_concat(v.step_transition(a[0]), a.drop_first(), b);
    }
}

proof fn lemma_run_success_segment(v: ChainRunView, outcomes: Seq<StepOutcomeView>)
    requires
        v.wf(),
        v.failure is None,
        v.cursor + outcomes.len() <= v.n() + 1,
        forall|i: int| 0 <= i < outcomes.len() ==> outcomes[i] is Success,
    ensures
        run_steps(v, outcomes) == (ChainRunView { cursor: v.cursor + outcomes.len(), ..v }),
    decreases outcomes.len(),
{
    if outcomes.len() == 0 {
    } else {
        assert(outcomes[0] is Success);
        let moved = v.step_transition(outcomes[0]);
        assert(forall|i: int|
            0 <= i < outcomes.drop_first().len() ==> outcomes.drop_first()[i] == outcomes[i + 1]);
        lemma_run_success_segment(moved, outcomes.drop_first());
    }
}

/// For every chain and every resume index within it, a run in which every
/// attempted step succeeds attempts exactly the steps from the resume index
/// to the end of the chain, in that order, and completes.
pub proof fn lemma_run_all_success(v: ChainRunView, outcomes: Seq<StepOutcomeView>)
    requires
        v.wf(),
        v.failure is None,
        v.cursor == v.resume,
        v.resume <= v.n(),
        outcomes.len() == v.n() - v.resume + 1,
        forall|i: int| 0 <= i < outcomes.len() ==> outcomes[i] is Success,
    ensures
        run_steps(v, outcomes).is_completed(),
        run_steps(v, outcomes).steps == v.steps,
        run_steps(v, outcomes).attempted() == Seq::new(
            (v.n() - v.resume + 1) as nat,
            |i: int| v.resume + i,
        ),
{
    lemma_run_success_segment(v, outcomes);
    assert(run_steps(v, outcomes).attempted() =~= Seq::new(
        (v.n() - v.resume + 1) as nat,
        |i: int| v.resume + i,
    ));
}

/// For every chain, resume index and first-failing step: when the steps
/// before it succeed and it fails, the run attempts exactly the steps from
/// the resume index through the failing one, in that order, halts there
/// with the step's diagnostic, and attempts nothing further.
pub proof fn lemma_run_first_failure(
    v: ChainRunView,
    outcomes: Seq<StepOutcomeView>,
    diagnostic: Seq<char>,
)
    requires
        v.wf(),
        v.failure is None,
        v.cursor == v.resume,
        outcomes.len() >= 1,
        v.resume + outcomes.len() - 1 <= v.n(),
        forall|i: int| 0 <= i < outcomes.len() - 1 ==> outcomes[i] is Success,
        outcomes.last() == StepOutcomeView::Failure(diagnostic),
    ensures
        run_steps(v, outcomes).is_halted(),
        run_steps(v, outcomes).steps == v.steps,
        run_steps(v, outcomes).cursor == v.resume + outcomes.len() - 1,
        run_steps(v, outcomes).failure == Some(diagnostic),
        run_steps(v, outcomes).attempted() == Seq::new(outcomes.len(), |i: int| v.resume + i),
{
    let prefix = outcomes.drop_last();
    let last_only = seq![outcomes.last()];
    assert(outcomes =~= prefix + last_only);
    lemma_run_success_segment(v, prefix);
    lemma_run_steps_concat(v, prefix, last_only);
    let mid = run_steps(v, prefix);
    assert(mid.is_running());
    assert(run_steps(mid, last_only) == run_steps(
        mid.step_transition(outcomes.last()),
        last_only.drop_first(),
    ));
    assert(last_only.drop_first() =~= Seq::<StepOutcomeView>::empty());
    assert(run_steps(v, outcomes).attempted() =~= Seq::new(
        outcomes.len(),
        |i: int| v.resume + i,
    ));
}

/// A halted run is terminal: no sequence of further outcomes changes it,
/// so no step after the failed one is ever attempted.
pub proof fn lemma_halted_is_terminal(v: ChainRunView, outcomes: Seq<StepOutcomeView>)
    requires
        v.is_halted(),
    ensures
        run_steps(v, outcomes) == v,
{
}

/// A resume index beyond the chain's length completes immediately, with no
/// step attempted, and no sequence of outcomes changes that; it is not an
/// error.
pub proof fn lemma_resume_beyond_chain(v: ChainRunView, outcomes: Seq<StepOutcomeView>)
    requires
        v.wf(),
        v.failure is None,
        v.cursor == v.resume,
        v.resume > v.n(),
    ensures
        v.is_completed(),
        v.attempted() == Seq::<int>::empty(),
        run_steps(v, outcomes) == v,
{
    assert(v.attempted() =~= Seq::<int>::empty());
}

/// A well-formed simulated run is never halted: under the Simulate strategy
/// every step counts as a success, whatever the real action would have
/// done, so such a run only ever runs or completes.
pub proof fn lemma_simulate_never_halts(v: ChainRunView)
    requires
        v.wf(),
        v.runner == StepRunner::Simulate,
    ensures
        !v.is_halted(),
{
}

/// Re-running the same chain from the step the retry command names — the
/// failed step itself — attempts exactly the steps the halted run left
/// unfinished: the failed step and everything after it, in order.
pub proof fn lemma_retry_resumes_failed_suffix(
    halted: ChainRunView,
    retry: ChainRunView,
    outcomes: Seq<StepOutcomeView>,
)
    requires
        halted.wf(),
        halted.is_halted(),
        retry.wf(),
        retry.failure is None,
        retry.steps == halted.steps,
        retry.cursor == retry.resume,
        retry.resume == halted.cursor,
        outcomes.len() == halted.n() - halted.cursor + 1,
        forall|i: int| 0 <= i < outcomes.len() ==> outcomes[i] is Success,
    ensures
        run_steps(retry, outcomes).is_completed(),
        run_steps(retry, outcomes).attempted() == Seq::new(
            (halted.n() - halted.cursor + 1) as nat,
            |i: int| halted.cursor + i,
        ),
{
    lemma_run_all_success(retry, outcomes);
}

} // verus!
