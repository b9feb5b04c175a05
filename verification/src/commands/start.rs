//! The start workflow: create a new branch off a base branch, optionally
//! prefixing its name with the base and pushing it with upstream tracking.

use vstd::prelude::*;

use crate::command_chain::{CommandChain, StepView};
use crate::git::{git_step, Git};

verus! {

/// The start workflow's arguments, with its defaults already applied: the
/// branch name is stored in full, the prefix (when asked for) already part
/// of it.
pub struct StartArgs {
    branch: String,
    push: bool,
    base: String,
}

/// Mathematical image of [`StartArgs`].
#[verifier::ext_equal]
pub struct StartArgsView {
    pub branch: Seq<char>,
    pub push: bool,
    pub base: Seq<char>,
}

impl View for StartArgs {
    type V = StartArgsView;

    closed spec fn view(&self) -> StartArgsView {
        StartArgsView { branch: self.branch@, push: self.push, base: self.base@ }
    }
}

impl StartArgs {
    /// Gather the workflow's arguments: the new branch's name, the base
    /// branch it starts from (master when none is named), whether to prefix
    /// the new name with the base's, and whether to push with tracking.
    /// The prefix is applied here, once; afterwards the arguments carry the
    /// full branch name only.
    pub fn new(branch: String, base: Option<String>, prefix: bool, push: bool) -> (args: StartArgs)
        ensures
            args@.base == (match base {
                Some(b) => b@,
                None => "master"@,
            }),
            args@.push == push,
            args@.branch == (if prefix {
                args@.base + seq!['-'] + branch@
            } else {
                branch@
            }),
    {
        let base = match base {
            Some(b) => b,
            None => {
                let mut b = String::new();
                b.append("master");
                proof {
                    assert(b@ =~= "master"@);
                }
                b
            },
        };
        let branch = if prefix {
            let mut prefixed = base.clone();
            prefixed.append("-");
            prefixed.append(branch.as_str());
            proof {
                reveal_strlit("-");
                assert("-"@ =~= seq!['-']);
                assert(prefixed@ =~= base@ + seq!['-'] + branch@);
            }
            prefixed
        } else {
            branch
        };
        StartArgs { branch, push, base }
    }

    /// The name of the branch the workflow creates.
    pub fn branch(&self) -> (r: &String)
        ensures
            r@ == self@.branch,
    {
        &self.branch
    }

    /// The branch the new one starts from.
    pub fn base(&self) -> (r: &String)
        ensures
            r@ == self@.base,
    {
        &self.base
    }

    /// The canonical command line that reproduces this workflow. It names
    /// the created branch in full and never carries `--prefix`: the prefix
    /// was applied when the arguments were gathered, so re-parsing the
    /// emitted command rebuilds these very arguments instead of prefixing
    /// the name a second time.
    pub fn rerun_command(&self) -> (r: String)
        ensures
            r@ == start_rerun_text(self@),
    {
        let mut r = String::new();
        r.append("start");
        if self.push {
            r.append(" --push");
        }
        r.append(" --base ");
        r.append(self.base.as_str());
        r.append(" ");
        r.append(self.branch.as_str());
        proof {
            assert(r@ =~= start_rerun_text(self@));
        }
        r
    }
}

/// `start[ --push] --base <base> <branch>`, with `<branch>` the full name
/// of the created branch.
pub open spec fn start_rerun_text(a: StartArgsView) -> Seq<char> {
    "start"@ + (if a.push {
        " --push"@
    } else {
        Seq::<char>::empty()
    }) + " --base "@ + a.base + " "@ + a.branch
}

/// The full start chain.
pub open spec fn start_chain(a: StartArgsView) -> Seq<StepView> {
    seq![
        git_step("checkout "@ + a.base),
        git_step("pull"@),
        git_step("branch "@ + a.branch),
        git_step("checkout "@ + a.branch),
    ] + (if a.push {
        seq![git_step("push --set-upstream origin "@ + a.branch)]
    } else {
        Seq::<StepView>::empty()
    })
}

/// Build the start chain.
pub fn start_command(args: &StartArgs) -> (c: CommandChain)
    ensures
        c@ == start_chain(args@),
{
    let mut c = CommandChain::new();

    c.add(Git::checkout(args.base.as_str()).into_step());
    c.add(Git::pull().into_step());
    c.add(Git::branch(args.branch.as_str()).into_step());
    c.add(Git::checkout(args.branch.as_str()).into_step());

    if args.push {
        c.add(Git::push_and_set_upstream(args.branch.as_str()).into_step());
    }

    proof {
        assert(c@ =~~= start_chain(args@));
    }
    c
}

} // verus!
