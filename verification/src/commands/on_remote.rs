//! The on-remote workflow: merge a branch into a shared integration branch
//! (staging or develop) and optionally deploy it there.

use vstd::prelude::*;

use crate::command_chain::{CommandChain, StepView};
use crate::git::{git_step, Git};

verus! {

/// The shared integration branches a workflow can target.
#[derive(Clone, Copy, Debug, PartialEq, Eq, Structural)]
pub enum Remote {
    Staging,
    Develop,
}

/// The branch name a remote goes by.
pub open spec fn remote_name_text(remote: Remote) -> Seq<char> {
    if remote == Remote::Staging {
        "staging"@
    } else {
        "develop"@
    }
}

impl Remote {
    /// The branch name the remote goes by.
    pub fn name(&self) -> (r: String)
        ensures
            r@ == remote_name_text(*self),
    {
        let mut r = String::new();
        match self {
            Remote::Staging => r.append("staging"),
            Remote::Develop => r.append("develop"),
        }
        r
    }
}

/// The on-remote workflow's arguments.
pub struct OnRemote {
    branch: String,
    remote: Remote,
    no_ship: bool,
}

/// Mathematical image of [`OnRemote`].
#[verifier::ext_equal]
pub struct OnRemoteView {
    pub branch: Seq<char>,
    pub remote: Remote,
    pub no_ship: bool,
}

impl View for OnRemote {
    type V = OnRemoteView;

    closed spec fn view(&self) -> OnRemoteView {
        OnRemoteView { branch: self.branch@, remote: self.remote, no_ship: self.no_ship }
    }
}

impl OnRemote {
    /// Gather the workflow's arguments: the branch to merge (from the
    /// command line or confirmed from the checkout), the remote to merge it
    /// into, and whether to skip the deploy push.
    pub fn new(branch: String, remote: Remote, no_ship: bool) -> (args: OnRemote)
        ensures
            args@.branch == branch@,
            args@.remote == remote,
            args@.no_ship == no_ship,
    {
        OnRemote { branch, remote, no_ship }
    }

    /// The branch to merge.
    pub fn branch(&self) -> (r: &String)
        ensures
            r@ == self@.branch,
    {
        &self.branch
    }

    /// The remote the branch is merged into.
    pub fn remote(&self) -> (r: Remote)
        ensures
            r == self@.remote,
    {
        self.remote
    }

    /// The canonical command line that reproduces this workflow.
    pub fn rerun_command(&self) -> (r: String)
        ensures
            r@ == on_remote_rerun_text(self@),
    {
        let mut r = String::new();
        r.append("on-");
        let name = self.remote.name();
        r.append(name.as_str());
        if self.no_ship {
            r.append(" --no-ship");
        }
        r.append(" ");
        r.append(self.branch.as_str());
        proof {
            assert(r@ =~= on_remote_rerun_text(self@));
        }
        r
    }
}

/// The question asked before the current branch is taken as the branch to
/// merge, when none was named on the command line.
pub fn on_remote_confirm_question(current_branch: &str, remote: Remote) -> (q: String)
    ensures
        q@ == "Do you want to merge "@ + current_branch@ + " to "@ + remote_name_text(remote)
            + " remote"@,
{
    let mut q = String::new();
    q.append("Do you want to merge ");
    q.append(current_branch);
    q.append(" to ");
    let name = remote.name();
    q.append(name.as_str());
    q.append(" remote");
    q
}

/// `on-<remote>[ --no-ship] <branch>`
pub open spec fn on_remote_rerun_text(a: OnRemoteView) -> Seq<char> {
    "on-"@ + remote_name_text(a.remote) + (if a.no_ship {
        " --no-ship"@
    } else {
        Seq::<char>::empty()
    }) + " "@ + a.branch
}

/// The deploy step a remote takes.
pub open spec fn ship_step(remote: Remote) -> StepView {
    if remote == Remote::Staging {
        git_step("push staging staging:master"@)
    } else {
        git_step("push development develop:master"@)
    }
}

/// The full on-remote chain.
pub open spec fn on_remote_chain(a: OnRemoteView) -> Seq<StepView> {
    seq![
        git_step("push"@),
        git_step("checkout "@ + remote_name_text(a.remote)),
        git_step("pull"@),
        git_step("merge --no-edit "@ + a.branch),
        git_step("push"@),
    ] + (if !a.no_ship {
        seq![ship_step(a.remote)]
    } else {
        Seq::<StepView>::empty()
    }) + seq![git_step("checkout "@ + a.branch)]
}

/// Build the on-remote chain.
pub fn on_remote_command(args: &OnRemote) -> (c: CommandChain)
    ensures
        c@ == on_remote_chain(args@),
{
    let mut c = CommandChain::new();

    c.add(Git::push().into_step());

    let name = args.remote.name();
    c.add(Git::checkout(name.as_str()).into_step());

    c.add(Git::pull().into_step());

    c.add(Git::merge(args.branch.as_str()).into_step());
    c.add(Git::push().into_step());

    if !args.no_ship {
        match args.remote {
            Remote::Staging => c.add(Git::push_staging().into_step()),
            Remote::Develop => c.add(Git::push_develop().into_step()),
        }
    }

    c.add(Git::checkout(args.branch.as_str()).into_step());

    proof {
        assert(c@ =~~= on_remote_chain(args@));
    }
    c
}

} // verus!
