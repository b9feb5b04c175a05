//! Tests of the chain execution protocol: progress, halting, resumption,
//! and the simulate strategy.

use api_git::command_chain::{ChainRun, ChainStatus, CommandChain, StepOutcome, StepRunner};
use api_git::git::Git;

fn sample_chain() -> CommandChain {
    let mut c = CommandChain::new();
    c.add(Git::checkout("main").into_step());
    c.add(Git::pull().into_step());
    c.add(Git::merge("feature").into_step());
    c
}

fn sample_run(from_step: usize, runner: StepRunner) -> ChainRun {
    sample_chain().run_from_step(from_step, String::from("merge --into main feature"), runner)
}

#[test]
fn all_steps_succeeding_reaches_completed() {
    let mut run = sample_run(1, StepRunner::Execute);
    let mut progress: Vec<String> = Vec::new();
    while run.status() == ChainStatus::Running {
        progress.push(run.progress_line());
        assert!(run.should_execute());
        run.record_outcome(StepOutcome::Success);
    }
    assert_eq!(run.status(), ChainStatus::Completed);
    assert_eq!(progress.len(), 3);
    assert_eq!(progress[0], "-- Running step 1: git checkout main");
    assert_eq!(progress[1], "-- Running step 2: git pull");
    assert_eq!(progress[2], "-- Running step 3: git merge --no-edit feature");
}

#[test]
fn failure_at_step_three_halts_and_names_it() {
    let mut run = sample_run(1, StepRunner::Execute);
    assert_eq!(run.progress_line(), "-- Running step 1: git checkout main");
    run.record_outcome(StepOutcome::Success);
    assert_eq!(run.progress_line(), "-- Running step 2: git pull");
    run.record_outcome(StepOutcome::Success);
    assert_eq!(run.progress_line(), "-- Running step 3: git merge --no-edit feature");
    run.record_outcome(StepOutcome::Failure(String::from("conflict in file.txt")));

    assert_eq!(run.status(), ChainStatus::Halted);
    assert_eq!(run.failed_step(), 3);
    assert_eq!(run.diagnostic().as_str(), "conflict in file.txt");
    assert_eq!(run.failure_line(), "Step 3 failed. Fix the problem and rerun with:");
    assert_eq!(
        run.retry_command(),
        "api-git merge --into main feature --from-step 3"
    );
}

#[test]
fn failure_at_first_step_attempts_nothing_further() {
    let mut run = sample_run(1, StepRunner::Execute);
    run.record_outcome(StepOutcome::Failure(String::from("not a git repository")));
    assert_eq!(run.status(), ChainStatus::Halted);
    assert_eq!(run.failed_step(), 1);
    assert_eq!(
        run.retry_command(),
        "api-git merge --into main feature --from-step 1"
    );
}

#[test]
fn resuming_at_step_three_attempts_only_step_three() {
    let mut run = sample_run(3, StepRunner::Execute);
    assert_eq!(run.status(), ChainStatus::Running);
    assert_eq!(run.pending_index(), 3);
    assert_eq!(run.progress_line(), "-- Running step 3: git merge --no-edit feature");
    run.record_outcome(StepOutcome::Success);
    assert_eq!(run.status(), ChainStatus::Completed);
}

#[test]
fn resume_index_beyond_chain_completes_with_nothing_attempted() {
    let run = sample_run(4, StepRunner::Execute);
    assert_eq!(run.status(), ChainStatus::Completed);
}

#[test]
fn simulated_run_previews_every_step_and_always_completes() {
    let mut run = sample_run(1, StepRunner::Simulate);
    let mut previews: Vec<String> = Vec::new();
    while run.status() == ChainStatus::Running {
        assert!(!run.should_execute());
        previews.push(run.preview_block());
        run.advance_simulated();
    }
    assert_eq!(run.status(), ChainStatus::Completed);
    assert_eq!(previews.len(), 3);
    assert_eq!(previews[0], "Dry run:\n  git checkout main");
    assert_eq!(previews[1], "Dry run:\n  git pull");
    assert_eq!(previews[2], "Dry run:\n  git merge --no-edit feature");
}

#[test]
fn pending_step_hands_out_the_command_to_spawn() {
    let run = sample_run(1, StepRunner::Execute);
    let step = run.pending_step();
    assert_eq!(step.executable().as_str(), "git");
    assert_eq!(
        step.args(),
        &vec![String::from("checkout"), String::from("main")]
    );
}

#[test]
fn chain_len_and_step_at_follow_insertion_order() {
    let chain = sample_chain();
    assert_eq!(chain.len(), 3);
    assert_eq!(chain.step_at(1).as_string(), "git checkout main");
    assert_eq!(chain.step_at(2).as_string(), "git pull");
    assert_eq!(chain.step_at(3).as_string(), "git merge --no-edit feature");
}

#[test]
fn empty_chain_completes_immediately() {
    let chain = CommandChain::new();
    assert_eq!(chain.len(), 0);
    let run = chain.run_from_step(1, String::from("ship-hotfix"), StepRunner::Execute);
    assert_eq!(run.status(), ChainStatus::Completed);
}

#[test]
fn retry_command_reflects_dry_run_rerun_command() {
    let mut run = sample_chain().run_from_step(
        1,
        String::from("merge --into main feature --dry-run"),
        StepRunner::Execute,
    );
    run.record_outcome(StepOutcome::Failure(String::from("boom")));
    assert_eq!(
        run.retry_command(),
        "api-git merge --into main feature --dry-run --from-step 1"
    );
}
