//! The ship-hotfix workflow: push master, then fold it into the staging and
//! develop branches and deploy both.

use vstd::prelude::*;

use crate::command_chain::{CommandChain, StepView};
use crate::git::{git_step, Git};

verus! {

/// The ship-hotfix workflow's arguments: it takes none.
pub struct ShipHotfixArgs;

impl ShipHotfixArgs {
    /// Gather the workflow's arguments; there is nothing to validate.
    pub fn new() -> ShipHotfixArgs {
        ShipHotfixArgs
    }

    /// The canonical command line that reproduces this workflow.
    pub fn rerun_command(&self) -> (r: String)
        ensures
            r@ == "ship-hotfix"@,
    {
        let mut r = String::new();
        r.append("ship-hotfix");
        r
    }
}

/// The steps that fold master into one remote branch and deploy it.
pub open spec fn sync_branch_steps(branch: Seq<char>) -> Seq<StepView> {
    seq![
        git_step("checkout "@ + branch),
        git_step("pull"@),
        git_step("merge --no-edit master"@),
        git_step("push"@),
    ]
}

/// The full ship-hotfix chain.
pub open spec fn ship_hotfix_chain() -> Seq<StepView> {
    seq![git_step("checkout master"@), git_step("pull --rebase"@), git_step("push"@)]
        + sync_branch_steps("staging"@) + sync_branch_steps("develop"@)
        + seq![git_step("checkout master"@)]
}

/// Build the ship-hotfix chain.
pub fn ship_hotfix_command(args: &ShipHotfixArgs) -> (c: CommandChain)
    ensures
        c@ == ship_hotfix_chain(),
{
    let mut c = CommandChain::new();

    c.add(Git::checkout("master").into_step());
    c.add(Git::pull_rebase().into_step());
    c.add(Git::push().into_step());

    c.add(Git::checkout("staging").into_step());
    c.add(Git::pull().into_step());
    c.add(Git::merge("master").into_step());
    c.add(Git::push().into_step());

    c.add(Git::checkout("develop").into_step());
    c.add(Git::pull().into_step());
    c.add(Git::merge("master").into_step());
    c.add(Git::push().into_step());

    c.add(Git::checkout("master").into_step());

    proof {
        reveal_strlit("checkout ");
        reveal_strlit("master");
        reveal_strlit("checkout master");
        reveal_strlit("staging");
        reveal_strlit("checkout staging");
        reveal_strlit("develop");
        reveal_strlit("checkout develop");
        reveal_strlit("merge --no-edit ");
        reveal_strlit("merge --no-edit master");
        assert(("checkout "@ + "master"@) =~= "checkout master"@);
        assert(("checkout "@ + "staging"@) =~= "checkout staging"@);
        assert(("checkout "@ + "develop"@) =~= "checkout develop"@);
        assert(("merge --no-edit "@ + "master"@) =~= "merge --no-edit master"@);
        assert(c@ =~~= ship_hotfix_chain());
    }
    c
}

} // verus!
