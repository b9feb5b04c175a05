//! The on-staging workflow: merge a branch into the staging branch and
//! deploy it to the staging remote.

use vstd::prelude::*;

use crate::command_chain::{CommandChain, StepView};
use crate::git::{git_step, Git};

verus! {

/// The on-staging workflow's arguments.
pub struct OnStagingArgs {
    branch: String,
}

/// Mathematical image of [`OnStagingArgs`].
#[verifier::ext_equal]
pub struct OnStagingArgsView {
    pub branch: Seq<char>,
}

impl View for OnStagingArgs {
    type V = OnStagingArgsView;

    closed spec fn view(&self) -> OnStagingArgsView {
        OnStagingArgsView { branch: self.branch@ }
    }
}

impl OnStagingArgs {
    /// Gather the workflow's arguments: the branch to merge.
    pub fn new(branch: String) -> (args: OnStagingArgs)
        ensures
            args@.branch == branch@,
    {
        OnStagingArgs { branch }
    }

    /// The branch to merge.
    pub fn branch(&self) -> (r: &String)
        ensures
            r@ == self@.branch,
    {
        &self.branch
    }

    /// The canonical command line that reproduces this workflow.
    pub fn rerun_command(&self) -> (r: String)
        ensures
            r@ == on_staging_rerun_text(self@),
    {
        let mut r = String::new();
        r.append("on-staging");
        r.append(" ");
        r.append(self.branch.as_str());
        proof {
            assert(r@ =~= on_staging_rerun_text(self@));
        }
        r
    }
}

/// `on-staging <branch>`
pub open spec fn on_staging_rerun_text(a: OnStagingArgsView) -> Seq<char> {
    "on-staging"@ + " "@ + a.branch
}

/// The full on-staging chain.
pub open spec fn on_staging_chain(a: OnStagingArgsView) -> Seq<StepView> {
    seq![
        git_step("checkout staging"@),
        git_step("pull"@),
        git_step("merge --no-edit "@ + a.branch),
        git_step("push"@),
        git_step("push staging staging:master"@),
    ]
}

/// Build the on-staging chain.
pub fn on_staging_command(args: &OnStagingArgs) -> (c: CommandChain)
    ensures
        c@ == on_staging_chain(args@),
{
    let mut c = CommandChain::new();

    c.add(Git::checkout("staging").into_step());
    c.add(Git::pull().into_step());

    c.add(Git::merge(args.branch.as_str()).into_step());
    c.add(Git::push().into_step());
    c.add(Git::push_staging().into_step());

    proof {
        reveal_strlit("checkout ");
        reveal_strlit("staging");
        reveal_strlit("checkout staging");
        assert(("checkout "@ + "staging"@) =~= "checkout staging"@);
        assert(c@ =~~= on_staging_chain(args@));
    }
    c
}

} // verus!
