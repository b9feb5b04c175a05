//! Tests of the string utilities, the git invocation templates, and the
//! confirmation protocol.

use api_git::command_chain::Step;
use api_git::commands::merge::merge_confirm_question;
use api_git::commands::on_remote::{on_remote_confirm_question, Remote};
use api_git::git::{confirm_prompt, interpret_answer, ConfirmDefault, Git};
use api_git::string_ext::{parse_step_index, split_str, usize_to_string, Indent};

#[test]
fn usize_renders_in_decimal() {
    assert_eq!(usize_to_string(0), "0");
    assert_eq!(usize_to_string(7), "7");
    assert_eq!(usize_to_string(42), "42");
    assert_eq!(usize_to_string(1203), "1203");
    assert_eq!(usize_to_string(usize::MAX), usize::MAX.to_string());
}

#[test]
fn step_index_parses_decimal_text_only() {
    assert_eq!(parse_step_index("0"), Some(0));
    assert_eq!(parse_step_index("3"), Some(3));
    assert_eq!(parse_step_index("40"), Some(40));
    assert_eq!(parse_step_index(""), None);
    assert_eq!(parse_step_index("12x"), None);
    assert_eq!(parse_step_index("-1"), None);
    assert_eq!(parse_step_index(" 3"), None);
    // One digit past the largest machine value overflows and is rejected.
    let too_large = format!("{}0", usize::MAX);
    assert_eq!(parse_step_index(&too_large), None);
}

#[test]
fn step_index_round_trips_through_rendering() {
    for n in [0usize, 1, 9, 10, 99, 100, 4096, usize::MAX] {
        assert_eq!(parse_step_index(&usize_to_string(n)), Some(n));
    }
}

#[test]
fn indent_prefixes_every_line() {
    assert_eq!(String::from("a").indent(2), "  a");
    assert_eq!(String::from("a\nb").indent(2), "  a\n  b");
    assert_eq!(String::from("a\n").indent(2), "  a");
    assert_eq!(String::from("a\n\nb").indent(1), " a\n \n b");
    assert_eq!(String::from("").indent(3), "");
    assert_eq!(String::from("x").indent(0), "x");
}

#[test]
fn indent_drops_a_carriage_return_before_each_line_break() {
    assert_eq!(String::from("a\r\nb").indent(2), "  a\n  b");
    assert_eq!(String::from("a\r\n").indent(2), "  a");
    assert_eq!(String::from("\r\n").indent(2), "  ");
    // A carriage return not followed by a line break stays in its line.
    assert_eq!(String::from("a\rb").indent(2), "  a\rb");
    assert_eq!(String::from("a\r").indent(2), "  a\r");
}

#[test]
fn split_keeps_empty_pieces() {
    let parts = split_str("a  b", ' ');
    assert_eq!(parts, vec!["a", "", "b"]);
    assert_eq!(split_str("", ' '), vec![""]);
    assert_eq!(split_str("one", ' '), vec!["one"]);
}

#[test]
fn git_templates_render_as_the_original_commands() {
    assert_eq!(Git::status().into_step().as_string(), "git status");
    assert_eq!(Git::log().into_step().as_string(), "git log");
    assert_eq!(Git::branch("b").into_step().as_string(), "git branch b");
    assert_eq!(Git::pull().into_step().as_string(), "git pull");
    assert_eq!(Git::pull_rebase().into_step().as_string(), "git pull --rebase");
    assert_eq!(Git::push().into_step().as_string(), "git push");
    assert_eq!(
        Git::push_staging().into_step().as_string(),
        "git push staging staging:master"
    );
    assert_eq!(
        Git::push_develop().into_step().as_string(),
        "git push development develop:master"
    );
    assert_eq!(
        Git::push_and_set_upstream("b").into_step().as_string(),
        "git push --set-upstream origin b"
    );
    assert_eq!(Git::force_push().into_step().as_string(), "git push -f");
    assert_eq!(Git::rebase("b").into_step().as_string(), "git rebase b");
    assert_eq!(Git::checkout("b").into_step().as_string(), "git checkout b");
    assert_eq!(Git::merge("b").into_step().as_string(), "git merge --no-edit b");
    assert_eq!(
        Git::fast_forward_merge("b").into_step().as_string(),
        "git merge --ff-only b"
    );
    assert_eq!(Git::delete_branch("b").into_step().as_string(), "git branch -D b");
    assert_eq!(
        Git::delete_remote_branch("b").into_step().as_string(),
        "git push origin :b"
    );
    assert_eq!(
        Git::prune_remote().into_step().as_string(),
        "git fetch origin --prune"
    );
}

#[test]
fn git_invocation_exposes_command_and_args() {
    let g = Git::merge("feature");
    assert_eq!(g.command().as_str(), "git");
    assert_eq!(
        g.args(),
        &vec![
            String::from("merge"),
            String::from("--no-edit"),
            String::from("feature"),
        ]
    );
}

#[test]
fn step_display_joins_executable_and_args() {
    let step = Step::new(
        String::from("echo"),
        vec![String::from("hello"), String::from("world")],
    );
    assert_eq!(step.as_string(), "echo hello world");
}

#[test]
fn confirmation_answers_follow_the_prompt_rules() {
    assert_eq!(interpret_answer('\n', ConfirmDefault::Yes), Some(true));
    assert_eq!(interpret_answer('\n', ConfirmDefault::No), Some(false));
    assert_eq!(interpret_answer('y', ConfirmDefault::No), Some(true));
    assert_eq!(interpret_answer('n', ConfirmDefault::Yes), Some(false));
    assert_eq!(interpret_answer('q', ConfirmDefault::Yes), None);
}

#[test]
fn confirmation_prompt_capitalizes_the_default() {
    assert_eq!(
        confirm_prompt("Proceed", ConfirmDefault::Yes),
        "Proceed? Y/n "
    );
    assert_eq!(
        confirm_prompt("Proceed", ConfirmDefault::No),
        "Proceed? y/N "
    );
}

#[test]
fn confirm_questions_name_the_current_branch() {
    assert_eq!(
        merge_confirm_question("feature"),
        "Do you want to merge the current branch feature"
    );
    assert_eq!(
        on_remote_confirm_question("feature", Remote::Staging),
        "Do you want to merge feature to staging remote"
    );
    assert_eq!(
        on_remote_confirm_question("feature", Remote::Develop),
        "Do you want to merge feature to develop remote"
    );
    assert_eq!(Remote::Staging.name(), "staging");
    assert_eq!(Remote::Develop.name(), "develop");
}
