//! The merge workflow: merge one or more branches into a target branch
//! (rebasing each first unless told not to), clean the merged branches up,
//! and, when the target is master, fold the result into the shared staging
//! and develop branches where they exist.

use vstd::prelude::*;

use crate::command_chain::{CommandChain, StepView};
use crate::git::{git_step, Git};

verus! {

/// The merge workflow's arguments, with its defaults already applied.
pub struct MergeArgs {
    no_rebase: bool,
    into: String,
    branches: Vec<String>,
}

/// Mathematical image of [`MergeArgs`].
#[verifier::ext_equal]
pub struct MergeArgsView {
    pub no_rebase: bool,
    pub into: Seq<char>,
    pub branches: Seq<Seq<char>>,
}

impl View for MergeArgs {
    type V = MergeArgsView;

    closed spec fn view(&self) -> MergeArgsView {
        MergeArgsView {
            no_rebase: self.no_rebase,
            into: self.into@,
            branches: self.branches.deep_view(),
        }
    }
}

impl MergeArgs {
    /// Gather the workflow's arguments: the branches to merge (from the
    /// command line, or the confirmed current branch), the branch to merge
    /// into (master when none is named), and whether to skip the rebase.
    pub fn new(branches: Vec<String>, into: Option<String>, no_rebase: bool) -> (args: MergeArgs)
        ensures
            args@.branches == branches.deep_view(),
            args@.into == (match into {
                Some(b) => b@,
                None => "master"@,
            }),
            args@.no_rebase == no_rebase,
    {
        let into = match into {
            Some(b) => b,
            None => {
                let mut b = String::new();
                b.append("master");
                proof {
                    assert(b@ =~= "master"@);
                }
                b
            },
        };
        MergeArgs { no_rebase, into, branches }
    }

    /// The branches to merge.
    pub fn branches(&self) -> (r: &Vec<String>)
        ensures
            r.deep_view() == self@.branches,
    {
        &self.branches
    }

    /// The branch to merge into.
    pub fn into_branch(&self) -> (r: &String)
        ensures
            r@ == self@.into,
    {
        &self.into
    }

    /// Whether branches are merged directly, without being rebased first.
    pub fn no_rebase(&self) -> (r: bool)
        ensures
            r == self@.no_rebase,
    {
        self.no_rebase
    }

    /// Whether the workflow targets master, and so also syncs the shared
    /// integration branches afterwards.
    pub fn targets_master(&self) -> (r: bool)
        ensures
            r == (self@.into == "master"@),
    {
        let mut master = String::new();
        master.append("master");
        proof {
            assert(master@ =~= "master"@);
        }
        self.into == master
    }

    /// The canonical command line that reproduces this workflow.
    pub fn rerun_command(&self) -> (r: String)
        ensures
            r@ == merge_rerun_text(self@),
    {
        let mut r = String::new();
        r.append("merge");
        if self.no_rebase {
            r.append(" --no-rebase");
        }
        r.append(" --into ");
        r.append(self.into.as_str());
        let ghost head = r@;
        let n = self.branches.len();
        let mut i: usize = 0;
        while i < n
            invariant
                i <= n,
                n == self.branches@.len(),
                head == "merge"@ + (if self@.no_rebase {
                    " --no-rebase"@
                } else {
                    Seq::<char>::empty()
                }) + " --into "@ + self@.into,
                r@ == head + branches_suffix(self@.branches.take(i as int)),
            decreases n - i,
        {
            r.append(" ");
            r.append(self.branches[i].as_str());
            proof {
                let bs = self@.branches;
                assert(bs.take(i + 1).drop_last() =~= bs.take(i as int));
                assert(bs.take(i + 1).last() == bs[i as int]);
                assert(r@ =~= head + branches_suffix(bs.take(i + 1)));
            }
            i = i + 1;
        }
        proof {
            assert(self@.branches.take(n as int) =~= self@.branches);
        }
        r
    }
}

/// The question asked before the current branch is taken as the branch to
/// merge, when none was named on the command line.
pub fn merge_confirm_question(current_branch: &str) -> (q: String)
    ensures
        q@ == "Do you want to merge the current branch "@ + current_branch@,
{
    let mut q = String::new();
    q.append("Do you want to merge the current branch ");
    q.append(current_branch);
    q
}

/// The trailing ` <branch>` pieces of the merge rerun command, one per
/// branch, in order.
pub open spec fn branches_suffix(branches: Seq<Seq<char>>) -> Seq<char>
    decreases branches.len(),
{
    if branches.len() == 0 {
        Seq::empty()
    } else {
        branches_suffix(branches.drop_last()) + " "@ + branches.last()
    }
}

/// `merge[ --no-rebase] --into <into> <branches...>`
pub open spec fn merge_rerun_text(a: MergeArgsView) -> Seq<char> {
    "merge"@ + (if a.no_rebase {
        " --no-rebase"@
    } else {
        Seq::<char>::empty()
    }) + " --into "@ + a.into + branches_suffix(a.branches)
}

/// The steps that bring one branch up to date and merge it into the target:
/// either rebase it onto the target and fast-forward, or merge it directly.
pub open spec fn merge_branch_steps(branch: Seq<char>, into: Seq<char>, no_rebase: bool) -> Seq<
    StepView,
> {
    seq![git_step("checkout "@ + branch), git_step("pull"@)] + (if no_rebase {
        seq![git_step("checkout "@ + into), git_step("merge --no-edit "@ + branch)]
    } else {
        seq![
            git_step("rebase "@ + into),
            git_step("push -f"@),
            git_step("checkout "@ + into),
            git_step("merge --ff-only "@ + branch),
        ]
    })
}

/// The merge steps for every branch, in order.
pub open spec fn merge_phase(branches: Seq<Seq<char>>, into: Seq<char>, no_rebase: bool) -> Seq<
    StepView,
>
    decreases branches.len(),
{
    if branches.len() == 0 {
        Seq::empty()
    } else {
        merge_phase(branches.drop_last(), into, no_rebase) + merge_branch_steps(
            branches.last(),
            into,
            no_rebase,
        )
    }
}

/// The steps that delete one merged branch locally and remotely.
pub open spec fn cleanup_branch_steps(branch: Seq<char>) -> Seq<StepView> {
    seq![
        git_step("branch -D "@ + branch),
        git_step("push origin :"@ + branch),
        git_step("fetch origin --prune"@),
    ]
}

/// The cleanup steps for every merged branch, in order.
pub open spec fn cleanup_phase(branches: Seq<Seq<char>>) -> Seq<StepView>
    decreases branches.len(),
{
    if branches.len() == 0 {
        Seq::empty()
    } else {
        cleanup_phase(branches.drop_last()) + cleanup_branch_steps(branches.last())
    }
}

/// The steps that fold the freshly merged target into one shared branch.
pub open spec fn sync_remote_steps(branch: Seq<char>, into: Seq<char>) -> Seq<StepView> {
    seq![
        git_step("checkout "@ + branch),
        git_step("pull"@),
        git_step("merge --no-edit "@ + into),
        git_step("push"@),
    ]
}

/// The sync steps for the shared branches that exist in the checkout.
pub open spec fn sync_phase(into: Seq<char>, staging_exists: bool, develop_exists: bool) -> Seq<
    StepView,
> {
    (if staging_exists {
        sync_remote_steps("staging"@, into)
    } else {
        Seq::<StepView>::empty()
    }) + (if develop_exists {
        sync_remote_steps("develop"@, into)
    } else {
        Seq::<StepView>::empty()
    })
}

/// The full merge chain. The two flags say whether the shared staging and
/// develop branches exist locally; they matter only when the target is
/// master.
pub open spec fn merge_chain(
    a: MergeArgsView,
    staging_exists: bool,
    develop_exists: bool,
) -> Seq<StepView> {
    seq![git_step("checkout "@ + a.into), git_step("pull"@)] + merge_phase(
        a.branches,
        a.into,
        a.no_rebase,
    ) + seq![git_step("checkout "@ + a.into), git_step("push"@)] + cleanup_phase(a.branches) + (
    if a.into == "master"@ {
        sync_phase(a.into, staging_exists, develop_exists)
    } else {
        Seq::<StepView>::empty()
    }) + seq![git_step("checkout "@ + a.into)]
}

/// Build the merge chain. The two flags report whether the shared staging
/// and develop branches exist locally, consulted before the chain is built.
pub fn merge_command(args: &MergeArgs, staging_exists: bool, develop_exists: bool) -> (c:
    CommandChain)
    ensures
        c@ == merge_chain(args@, staging_exists, develop_exists),
{
    let mut c = CommandChain::new();

    c.add(Git::checkout(args.into.as_str()).into_step());
    c.add(Git::pull().into_step());

    let ghost head = c@;
    let n = args.branches.len();
    let mut i: usize = 0;
    while i < n
        invariant
            i <= n,
            n == args.branches@.len(),
            head == seq![git_step("checkout "@ + args@.into), git_step("pull"@)],
            c@ == head + merge_phase(args@.branches.take(i as int), args@.into, args@.no_rebase),
        decreases n - i,
    {
        let branch = &args.branches[i];
        c.add(Git::checkout(branch.as_str()).into_step());
        c.add(Git::pull().into_step());

        if args.no_rebase {
            c.add(Git::checkout(args.into.as_str()).into_step());
            c.add(Git::merge(branch.as_str()).into_step());
        } else {
            c.add(Git::rebase(args.into.as_str()).into_step());
            c.add(Git::force_push().into_step());
            c.add(Git::checkout(args.into.as_str()).into_step());
            c.add(Git::fast_forward_merge(branch.as_str()).into_step());
        }
        proof {
            let bs = args@.branches;
            assert(bs.take(i + 1).drop_last() =~= bs.take(i as int));
            assert(bs.take(i + 1).last() == bs[i as int]);
            assert(c@ =~~= head + merge_phase(bs.take(i + 1), args@.into, args@.no_rebase));
        }
        i = i + 1;
    }
    proof {
        assert(args@.branches.take(n as int) =~= args@.branches);
    }

    c.add(Git::checkout(args.into.as_str()).into_step());
    c.add(Git::push().into_step());

    let ghost mid = c@;
    let mut j: usize = 0;
    while j < n
        invariant
            j <= n,
            n == args.branches@.len(),
            mid == head + merge_phase(args@.branches, args@.into, args@.no_rebase) + seq![
                git_step("checkout "@ + args@.into),
                git_step("push"@),
            ],
            c@ == mid + cleanup_phase(args@.branches.take(j as int)),
        decreases n - j,
    {
        let branch = &args.branches[j];
        c.add(Git::delete_branch(branch.as_str()).into_step());
        c.add(Git::delete_remote_branch(branch.as_str()).into_step());
        c.add(Git::prune_remote().into_step());
        proof {
            let bs = args@.branches;
            assert(bs.take(j + 1).drop_last() =~= bs.take(j as int));
            assert(bs.take(j + 1).last() == bs[j as int]);
            assert(c@ =~~= mid + cleanup_phase(bs.take(j + 1)));
        }
        j = j + 1;
    }
    proof {
        assert(args@.branches.take(n as int) =~= args@.branches);
    }

    if args.targets_master() {
        if staging_exists {
            c.add(Git::checkout("staging").into_step());
            c.add(Git::pull().into_step());
            c.add(Git::merge(args.into.as_str()).into_step());
            c.add(Git::push().into_step());
        }
        if develop_exists {
            c.add(Git::checkout("develop").into_step());
            c.add(Git::pull().into_step());
            c.add(Git::merge(args.into.as_str()).into_step());
            c.add(Git::push().into_step());
        }
    }

    c.add(Git::checkout(args.into.as_str()).into_step());

    proof {
        assert(c@ =~~= merge_chain(args@, staging_exists, develop_exists));
    }
    c
}

} // verus!
