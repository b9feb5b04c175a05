//! Tests of the workflow builders, their rerun commands, and the full
//! fail-retry-resume cycle.

use api_git::command_chain::{ChainStatus, CommandChain, StepOutcome, StepRunner};
use api_git::commands::merge::{merge_command, MergeArgs};
use api_git::commands::on_remote::{on_remote_command, OnRemote, Remote};
use api_git::commands::on_staging::{on_staging_command, OnStagingArgs};
use api_git::commands::prepare_run;
use api_git::commands::rerun_command_for_runner;
use api_git::commands::resume_index;
use api_git::commands::ship_hotfix::{ship_hotfix_command, ShipHotfixArgs};
use api_git::commands::start::{start_command, StartArgs};

fn displays(chain: &CommandChain) -> Vec<String> {
    let mut out = Vec::new();
    let mut i = 1;
    while i <= chain.len() {
        out.push(chain.step_at(i).as_string());
        i += 1;
    }
    out
}

fn owned(items: &[&str]) -> Vec<String> {
    items.iter().map(|s| String::from(*s)).collect()
}

#[test]
fn start_chain_without_push() {
    let args = StartArgs::new(String::from("feature"), None, false, false);
    let chain = start_command(&args);
    assert_eq!(
        displays(&chain),
        owned(&[
            "git checkout master",
            "git pull",
            "git branch feature",
            "git checkout feature",
        ])
    );
}

#[test]
fn start_chain_with_push_and_prefix() {
    let args = StartArgs::new(String::from("login"), Some(String::from("release-1")), true, true);
    assert_eq!(args.branch().as_str(), "release-1-login");
    let chain = start_command(&args);
    assert_eq!(
        displays(&chain),
        owned(&[
            "git checkout release-1",
            "git pull",
            "git branch release-1-login",
            "git checkout release-1-login",
            "git push --set-upstream origin release-1-login",
        ])
    );
    // The rerun command names the created branch in full, without
    // `--prefix`: re-parsing it must not prefix the name a second time.
    assert_eq!(
        args.rerun_command(),
        "start --push --base release-1 release-1-login"
    );
}

#[test]
fn start_rerun_command_rebuilds_the_same_workflow() {
    let args = StartArgs::new(String::from("login"), Some(String::from("release-1")), true, true);
    let rerun = args.rerun_command();
    assert_eq!(rerun, "start --push --base release-1 release-1-login");
    // Re-parsing the emitted command yields the branch in full, the same
    // base, no prefix flag, and the push flag.
    let again = StartArgs::new(
        String::from("release-1-login"),
        Some(String::from("release-1")),
        false,
        true,
    );
    assert_eq!(again.branch(), args.branch());
    assert_eq!(again.base(), args.base());
    assert_eq!(again.rerun_command(), rerun);
    assert_eq!(
        displays(&start_command(&again)),
        displays(&start_command(&args))
    );
}

#[test]
fn start_rerun_command_with_defaults() {
    let args = StartArgs::new(String::from("feature"), None, false, false);
    assert_eq!(args.rerun_command(), "start --base master feature");
}

#[test]
fn merge_chain_into_master_with_both_remotes() {
    let args = MergeArgs::new(owned(&["feature"]), None, false);
    let chain = merge_command(&args, true, true);
    assert_eq!(
        displays(&chain),
        owned(&[
            "git checkout master",
            "git pull",
            "git checkout feature",
            "git pull",
            "git rebase master",
            "git push -f",
            "git checkout master",
            "git merge --ff-only feature",
            "git checkout master",
            "git push",
            "git branch -D feature",
            "git push origin :feature",
            "git fetch origin --prune",
            "git checkout staging",
            "git pull",
            "git merge --no-edit master",
            "git push",
            "git checkout develop",
            "git pull",
            "git merge --no-edit master",
            "git push",
            "git checkout master",
        ])
    );
}

#[test]
fn merge_chain_without_rebase_into_other_branch() {
    let args = MergeArgs::new(owned(&["a", "b"]), Some(String::from("trunk")), true);
    let chain = merge_command(&args, true, true);
    assert_eq!(
        displays(&chain),
        owned(&[
            "git checkout trunk",
            "git pull",
            "git checkout a",
            "git pull",
            "git checkout trunk",
            "git merge --no-edit a",
            "git checkout b",
            "git pull",
            "git checkout trunk",
            "git merge --no-edit b",
            "git checkout trunk",
            "git push",
            "git branch -D a",
            "git push origin :a",
            "git fetch origin --prune",
            "git branch -D b",
            "git push origin :b",
            "git fetch origin --prune",
            "git checkout trunk",
        ])
    );
}

#[test]
fn merge_chain_into_master_without_remote_branches() {
    let args = MergeArgs::new(owned(&["feature"]), None, true);
    let chain = merge_command(&args, false, false);
    assert_eq!(
        displays(&chain),
        owned(&[
            "git checkout master",
            "git pull",
            "git checkout feature",
            "git pull",
            "git checkout master",
            "git merge --no-edit feature",
            "git checkout master",
            "git push",
            "git branch -D feature",
            "git push origin :feature",
            "git fetch origin --prune",
            "git checkout master",
        ])
    );
}

#[test]
fn merge_chain_with_no_branches_still_updates_the_target() {
    let args = MergeArgs::new(Vec::new(), Some(String::from("trunk")), false);
    let chain = merge_command(&args, false, false);
    assert_eq!(
        displays(&chain),
        owned(&[
            "git checkout trunk",
            "git pull",
            "git checkout trunk",
            "git push",
            "git checkout trunk",
        ])
    );
    assert_eq!(args.rerun_command(), "merge --into trunk");
}

#[test]
fn merge_rerun_command_lists_every_branch() {
    let args = MergeArgs::new(owned(&["a", "b"]), None, true);
    assert_eq!(args.rerun_command(), "merge --no-rebase --into master a b");
    let plain = MergeArgs::new(owned(&["feature"]), Some(String::from("trunk")), false);
    assert_eq!(plain.rerun_command(), "merge --into trunk feature");
}

#[test]
fn on_remote_chain_for_staging() {
    let args = OnRemote::new(String::from("feature"), Remote::Staging, false);
    let chain = on_remote_command(&args);
    assert_eq!(
        displays(&chain),
        owned(&[
            "git push",
            "git checkout staging",
            "git pull",
            "git merge --no-edit feature",
            "git push",
            "git push staging staging:master",
            "git checkout feature",
        ])
    );
    assert_eq!(args.rerun_command(), "on-staging feature");
}

#[test]
fn on_remote_chain_for_develop_without_ship() {
    let args = OnRemote::new(String::from("feature"), Remote::Develop, true);
    let chain = on_remote_command(&args);
    assert_eq!(
        displays(&chain),
        owned(&[
            "git push",
            "git checkout develop",
            "git pull",
            "git merge --no-edit feature",
            "git push",
            "git checkout feature",
        ])
    );
    assert_eq!(args.rerun_command(), "on-develop --no-ship feature");
}

#[test]
fn on_staging_chain_and_rerun_command() {
    let args = OnStagingArgs::new(String::from("feature"));
    let chain = on_staging_command(&args);
    assert_eq!(
        displays(&chain),
        owned(&[
            "git checkout staging",
            "git pull",
            "git merge --no-edit feature",
            "git push",
            "git push staging staging:master",
        ])
    );
    assert_eq!(args.rerun_command(), "on-staging feature");
}

#[test]
fn ship_hotfix_chain_and_rerun_command() {
    let args = ShipHotfixArgs::new();
    let chain = ship_hotfix_command(&args);
    assert_eq!(
        displays(&chain),
        owned(&[
            "git checkout master",
            "git pull --rebase",
            "git push",
            "git checkout staging",
            "git pull",
            "git merge --no-edit master",
            "git push",
            "git checkout develop",
            "git pull",
            "git merge --no-edit master",
            "git push",
            "git checkout master",
        ])
    );
    assert_eq!(args.rerun_command(), "ship-hotfix");
}

#[test]
fn resume_index_defaults_and_parsing() {
    assert_eq!(resume_index(None), 1);
    assert_eq!(resume_index(Some(&String::from("3"))), 3);
    assert_eq!(resume_index(Some(&String::from("0"))), 1);
    assert_eq!(resume_index(Some(&String::from("12x"))), 1);
    assert_eq!(resume_index(Some(&String::from(""))), 1);
}

#[test]
fn rerun_command_gains_dry_run_only_when_simulating() {
    assert_eq!(
        rerun_command_for_runner(String::from("ship-hotfix"), StepRunner::Simulate),
        "ship-hotfix --dry-run"
    );
    assert_eq!(
        rerun_command_for_runner(String::from("ship-hotfix"), StepRunner::Execute),
        "ship-hotfix"
    );
}

#[test]
fn retry_command_resumes_the_remaining_suffix() {
    // A merge into trunk fails at its third step.
    let args = MergeArgs::new(owned(&["feature"]), Some(String::from("trunk")), true);
    let chain = merge_command(&args, false, false);
    let total = chain.len();
    let mut run = prepare_run(chain, None, args.rerun_command(), false);
    run.record_outcome(StepOutcome::Success);
    run.record_outcome(StepOutcome::Success);
    run.record_outcome(StepOutcome::Failure(String::from("cannot pull")));
    assert_eq!(run.status(), ChainStatus::Halted);
    let retry = run.retry_command();
    assert_eq!(retry, "api-git merge --no-rebase --into trunk feature --from-step 3");

    // The retry command re-parses into the same workflow arguments plus the
    // failed step's index; re-running it attempts exactly steps 3..=total.
    let from_step = retry.rsplit(' ').next().unwrap();
    let again = MergeArgs::new(owned(&["feature"]), Some(String::from("trunk")), true);
    let second_chain = merge_command(&again, false, false);
    let mut second = prepare_run(
        second_chain,
        Some(&String::from(from_step)),
        again.rerun_command(),
        false,
    );
    let mut attempted: Vec<usize> = Vec::new();
    while second.status() == ChainStatus::Running {
        attempted.push(second.pending_index());
        second.record_outcome(StepOutcome::Success);
    }
    assert_eq!(second.status(), ChainStatus::Completed);
    let expected: Vec<usize> = (3..=total).collect();
    assert_eq!(attempted, expected);
}

#[test]
fn prepare_run_simulation_marks_rerun_command() {
    let args = OnStagingArgs::new(String::from("feature"));
    let chain = on_staging_command(&args);
    let mut run = prepare_run(chain, None, args.rerun_command(), true);
    assert!(!run.should_execute());
    let mut steps = 0;
    while run.status() == ChainStatus::Running {
        run.advance_simulated();
        steps += 1;
    }
    assert_eq!(steps, 5);
    assert_eq!(run.status(), ChainStatus::Completed);
}
