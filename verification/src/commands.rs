//! The workflows the tool offers. Each submodule holds one workflow's
//! argument record, its canonical rerun command, and the builder that turns
//! the arguments into a [`crate::command_chain::CommandChain`].
//!
//! This module holds what every workflow invocation shares: reading the
//! resume index from the `--from-step` argument, adjusting the rerun command
//! for a dry run, and starting the chain run.

pub mod merge;
pub mod on_remote;
pub mod on_staging;
pub mod ship_hotfix;
pub mod start;

use vstd::prelude::*;

use crate::command_chain::{ChainRun, CommandChain, StepRunner};
use crate::string_ext::{parse_dec, parse_step_index};

verus! {

/// The resume index an invocation supplies: the `--from-step` value when one
/// was given and spells a positive number, the first step otherwise.
pub open spec fn resume_index_of(arg: Option<Seq<char>>) -> int {
    match arg {
        Some(s) => match parse_dec(s) {
            Some(v) => if v >= 1 {
                v as int
            } else {
                1
            },
            None => 1,
        },
        None => 1,
    }
}

/// Read the resume index from the raw `--from-step` argument.
pub fn resume_index(arg: Option<&String>) -> (r: usize)
    ensures
        r as int == resume_index_of(
            match arg {
                Some(s) => Some(s@),
                None => None,
            },
        ),
        r >= 1,
{
    match arg {
        Some(s) => match parse_step_index(s.as_str()) {
            Some(v) => if v >= 1 {
                v
            } else {
                1
            },
            None => 1,
        },
        None => 1,
    }
}

/// The canonical rerun command adjusted for the chosen strategy: a
/// simulated run's retry must simulate again, so it gains `--dry-run`.
pub open spec fn rerun_for_runner(base: Seq<char>, runner: StepRunner) -> Seq<char> {
    if runner == StepRunner::Simulate {
        base + " --dry-run"@
    } else {
        base
    }
}

/// Adjust a workflow's canonical command for the chosen strategy.
pub fn rerun_command_for_runner(base: String, runner: StepRunner) -> (r: String)
    ensures
        r@ == rerun_for_runner(base@, runner),
{
    if runner == StepRunner::Simulate {
        let mut r = base;
        r.append(" --dry-run");
        r
    } else {
        base
    }
}

/// Everything an invocation decides before the first step is attempted:
/// the strategy (Simulate exactly when a dry run was asked for), the rerun
/// command adjusted for it, the resume index read from `--from-step`, and
/// the chain run starting there.
pub fn prepare_run(
    chain: CommandChain,
    from_step_arg: Option<&String>,
    rerun_base: String,
    dry_run: bool,
) -> (run: ChainRun)
    requires
        chain@.len() < usize::MAX,
    ensures
        run@.steps == chain@,
        run@.runner == (if dry_run {
            StepRunner::Simulate
        } else {
            StepRunner::Execute
        }),
        run@.rerun_command == rerun_for_runner(rerun_base@, run@.runner),
        run@.resume == resume_index_of(
            match from_step_arg {
                Some(s) => Some(s@),
                None => None,
            },
        ),
        run@.cursor == run@.resume,
        run@.failure is None,
        run@.wf(),
        run@.attempted() == Seq::<int>::empty(),
        run@.resume <= chain@.len() ==> run@.is_running(),
        run@.resume > chain@.len() ==> run@.is_completed(),
{
    let runner = if dry_run {
        StepRunner::Simulate
    } else {
        StepRunner::Execute
    };
    let rerun_command = rerun_command_for_runner(rerun_base, runner);
    let from_step = resume_index(from_step_arg);
    chain.run_from_step(from_step, rerun_command, runner)
}

} // verus!
