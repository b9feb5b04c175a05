//! The git invocations the workflows are made of, and the yes/no
//! confirmation protocol the workflow builders use when an argument has to
//! be taken from the checkout instead of the command line.

use vstd::prelude::*;

use crate::command_chain::{Step, StepView};
use crate::string_ext::{split_on, split_str};

verus! {

/// One git invocation, built from a template string that is split into
/// arguments at every space, exactly as the shell-like templates below
/// spell them.
pub struct Git {
    command: String,
    args: Vec<String>,
}

/// Mathematical image of a [`Git`] invocation.
#[verifier::ext_equal]
pub struct GitView {
    pub command: Seq<char>,
    pub args: Seq<Seq<char>>,
}

impl View for Git {
    type V = GitView;

    closed spec fn view(&self) -> GitView {
        GitView { command: self.command@, args: self.args.deep_view() }
    }
}

/// What building a git invocation from a template yields: the `git`
/// executable, and the template split into arguments at every space.
pub open spec fn git_from(template: Seq<char>) -> GitView {
    GitView { command: "git"@, args: split_on(template, ' ') }
}

/// The chain step a git invocation built from `template` stands for.
pub open spec fn git_step(template: Seq<char>) -> StepView {
    StepView { executable: "git"@, args: split_on(template, ' ') }
}

/// A git step displays as `git ` followed by its template, letter for
/// letter: joining the split arguments with spaces gives the template back.
pub proof fn lemma_git_step_display(template: Seq<char>)
    ensures
        crate::command_chain::step_display(git_step(template)) == "git"@ + seq![' '] + template,
{
    crate::string_ext::lemma_join_split(template, ' ');
}

impl Git {
    /// Build a git invocation from a template, splitting it into arguments
    /// at every space.
    pub fn from(template: &str) -> (g: Git)
        ensures
            g@ == git_from(template@),
    {
        let mut command = String::new();
        command.append("git");
        let args = split_str(template, ' ');
        Git { command, args }
    }

    /// `git status`
    pub fn status() -> (g: Git)
        ensures
            g@ == git_from("status"@),
    {
        Git::from("status")
    }

    /// `git log`
    pub fn log() -> (g: Git)
        ensures
            g@ == git_from("log"@),
    {
        Git::from("log")
    }

    /// `git branch <branch>`
    pub fn branch(branch: &str) -> (g: Git)
        ensures
            g@ == git_from("branch "@ + branch@),
    {
        let mut template = String::new();
        template.append("branch ");
        template.append(branch);
        Git::from(template.as_str())
    }

    /// `git pull`
    pub fn pull() -> (g: Git)
        ensures
            g@ == git_from("pull"@),
    {
        Git::from("pull")
    }

    /// `git pull --rebase`
    pub fn pull_rebase() -> (g: Git)
        ensures
            g@ == git_from("pull --rebase"@),
    {
        Git::from("pull --rebase")
    }

    /// `git push`
    pub fn push() -> (g: Git)
        ensures
            g@ == git_from("push"@),
    {
        Git::from("push")
    }

    /// `git push staging staging:master`
    pub fn push_staging() -> (g: Git)
        ensures
            g@ == git_from("push staging staging:master"@),
    {
        Git::from("push staging staging:master")
    }

    /// `git push development develop:master`
    pub fn push_develop() -> (g: Git)
        ensures
            g@ == git_from("push development develop:master"@),
    {
        Git::from("push development develop:master")
    }

    /// `git push --set-upstream origin <branch>`
    pub fn push_and_set_upstream(branch: &str) -> (g: Git)
        ensures
            g@ == git_from("push --set-upstream origin "@ + branch@),
    {
        let mut template = String::new();
        template.append("push --set-upstream origin ");
        template.append(branch);
        Git::from(template.as_str())
    }

    /// `git push -f`
    pub fn force_push() -> (g: Git)
        ensures
            g@ == git_from("push -f"@),
    {
        Git::from("push -f")
    }

    /// `git rebase <branch>`
    pub fn rebase(branch: &str) -> (g: Git)
        ensures
            g@ == git_from("rebase "@ + branch@),
    {
        let mut template = String::new();
        template.append("rebase ");
        template.append(branch);
        Git::from(template.as_str())
    }

    /// `git checkout <branch>`
    pub fn checkout(branch: &str) -> (g: Git)
        ensures
            g@ == git_from("checkout "@ + branch@),
    {
        let mut template = String::new();
        template.append("checkout ");
        template.append(branch);
        Git::from(template.as_str())
    }

    /// `git merge --no-edit <branch>`
    pub fn merge(branch: &str) -> (g: Git)
        ensures
            g@ == git_from("merge --no-edit "@ + branch@),
    {
        let mut template = String::new();
        template.append("merge --no-edit ");
        template.append(branch);
        Git::from(template.as_str())
    }

    /// `git merge --ff-only <branch>`
    pub fn fast_forward_merge(branch: &str) -> (g: Git)
        ensures
            g@ == git_from("merge --ff-only "@ + branch@),
    {
        let mut template = String::new();
        template.append("merge --ff-only ");
        template.append(branch);
        Git::from(template.as_str())
    }

    /// `git branch -D <branch>`
    pub fn delete_branch(branch: &str) -> (g: Git)
        ensures
            g@ == git_from("branch -D "@ + branch@),
    {
        let mut template = String::new();
        template.append("branch -D ");
        template.append(branch);
        Git::from(template.as_str())
    }

    /// `git push origin :<branch>`
    pub fn delete_remote_branch(branch: &str) -> (g: Git)
        ensures
            g@ == git_from("push origin :"@ + branch@),
    {
        let mut template = String::new();
        template.append("push origin :");
        template.append(branch);
        Git::from(template.as_str())
    }

    /// `git fetch origin --prune`
    pub fn prune_remote() -> (g: Git)
        ensures
            g@ == git_from("fetch origin --prune"@),
    {
        Git::from("fetch origin --prune")
    }

    /// The executable this invocation runs.
    pub fn command(&self) -> (r: &String)
        ensures
            r@ == self@.command,
    {
        &self.command
    }

    /// The arguments this invocation passes.
    pub fn args(&self) -> (r: &Vec<String>)
        ensures
            r.deep_view() == self@.args,
    {
        &self.args
    }

    /// The chain step this invocation stands for.
    pub fn into_step(self) -> (step: Step)
        ensures
            step@.executable == self@.command,
            step@.args == self@.args,
    {
        Step::new(self.command, self.args)
    }
}

/// The answer a confirmation question takes when the user only presses
/// return.
#[derive(Clone, Copy, Debug, PartialEq, Eq, Structural)]
pub enum ConfirmDefault {
    Yes,
    No,
}

/// How one keystroke answers a yes/no question: a bare newline takes the
/// stated default, `y` accepts, `n` declines, and anything else is invalid.
pub open spec fn confirm_answer(input: char, default: ConfirmDefault) -> Option<bool> {
    if input == '\n' {
        Some(default == ConfirmDefault::Yes)
    } else if input == 'y' {
        Some(true)
    } else if input == 'n' {
        Some(false)
    } else {
        None
    }
}

/// Interpret the single character read after a confirmation prompt.
pub fn interpret_answer(input: char, default: ConfirmDefault) -> (r: Option<bool>)
    ensures
        r == confirm_answer(input, default),
{
    if input == '\n' {
        match default {
            ConfirmDefault::Yes => Some(true),
            ConfirmDefault::No => Some(false),
        }
    } else if input == 'y' {
        Some(true)
    } else if input == 'n' {
        Some(false)
    } else {
        None
    }
}

/// The full text of a confirmation prompt: the question, then the two
/// possible answers with the default one capitalized.
pub open spec fn confirm_prompt_text(question: Seq<char>, default: ConfirmDefault) -> Seq<char> {
    if default == ConfirmDefault::Yes {
        question + "? Y/n "@
    } else {
        question + "? y/N "@
    }
}

/// Render a confirmation prompt for the given question and default.
pub fn confirm_prompt(question: &str, default: ConfirmDefault) -> (r: String)
    ensures
        r@ == confirm_prompt_text(question@, default),
{
    let mut prompt = String::new();
    prompt.append(question);
    match default {
        ConfirmDefault::Yes => prompt.append("? Y/n "),
        ConfirmDefault::No => prompt.append("? y/N "),
    }
    prompt
}

} // verus!
