//! The command lines of the `git` program that the application runs, and
//! what its results mean.

use vstd::prelude::*;
use crate::repository::stash_ref;
use crate::text::{decimal, decode_lossy, ends_with_newline, has_final_newline, utf8_lossy};

verus! {

/// The arguments of a command line as texts.
pub open spec fn arg_views(args: Seq<String>) -> Seq<Seq<char>> {
    args.map_values(|a: String| a@)
}

/// One argument, or none, as a sequence.
pub open spec fn flag(present: bool, text: Seq<char>) -> Seq<Seq<char>> {
    if present {
        seq![text]
    } else {
        Seq::empty()
    }
}

/// A flag with its value, or nothing where there is no value.
pub open spec fn valued(name: Seq<char>, value: Option<&str>) -> Seq<Seq<char>> {
    match value {
        Some(text) => seq![name, text@],
        None => Seq::empty(),
    }
}

/// Appends one argument.
fn push_arg(args: &mut Vec<String>, arg: &str)
    ensures
        arg_views(final(args)@) == arg_views(old(args)@).push(arg@),
{
    let ghost before = args@;
    args.push(String::from_str(arg));
    assert(arg_views(args@) =~= arg_views(before).push(arg@));
}

/// Appends one argument if `present` holds.
fn push_flag(args: &mut Vec<String>, present: bool, arg: &str)
    ensures
        arg_views(final(args)@) == arg_views(old(args)@) + flag(present, arg@),
{
    let ghost before = arg_views(args@);
    if present {
        push_arg(args, arg);
    }
    assert(arg_views(args@) =~= before + flag(present, arg@));
}

/// Appends a flag and its value if there is a value.
fn push_valued(args: &mut Vec<String>, name: &str, value: Option<&str>)
    ensures
        arg_views(final(args)@) == arg_views(old(args)@) + valued(name@, value),
{
    let ghost before = arg_views(args@);
    match value {
        Some(text) => {
            push_arg(args, name);
            push_arg(args, text);
        },
        None => {},
    }
    assert(arg_views(args@) =~= before + valued(name@, value));
}

/// Appends every path as an argument.
fn push_paths(args: &mut Vec<String>, paths: &[String])
    ensures
        arg_views(final(args)@) == arg_views(old(args)@) + arg_views(paths@),
{
    let ghost before = arg_views(args@);
    let mut index: usize = 0;
    while index < paths.len()
        invariant
            index <= paths.len(),
            arg_views(args@) == before + arg_views(paths@.take(index as int)),
        decreases paths.len() - index,
    {
        push_arg(args, paths[index].as_str());
        assert(arg_views(args@) =~= before + arg_views(paths@.take(index + 1)));
        index = index + 1;
    }
    assert(paths@.take(paths.len() as int) =~= paths@);
}

/// The command line that stages `paths`.
pub fn stage_args(paths: &[String]) -> (args: Vec<String>)
    ensures
        arg_views(args@) == seq!["add"@, "--"@] + arg_views(paths@),
{
    let mut args: Vec<String> = Vec::new();
    assert(arg_views(args@) =~= Seq::<Seq<char>>::empty());
    push_arg(&mut args, "add");
    push_arg(&mut args, "--");
    assert(arg_views(args@) =~= seq!["add"@, "--"@]);
    push_paths(&mut args, paths);
    args
}

/// The command line that takes `paths` out of the index.
pub fn unstage_args(paths: &[String]) -> (args: Vec<String>)
    ensures
        arg_views(args@) == seq!["restore"@, "--staged"@, "--"@] + arg_views(paths@),
{
    let mut args: Vec<String> = Vec::new();
    assert(arg_views(args@) =~= Seq::<Seq<char>>::empty());
    push_arg(&mut args, "restore");
    push_arg(&mut args, "--staged");
    push_arg(&mut args, "--");
    assert(arg_views(args@) =~= seq!["restore"@, "--staged"@, "--"@]);
    push_paths(&mut args, paths);
    args
}

/// The command line that commits with `message`, amending the last commit
/// if `amend` holds.
pub fn commit_args(message: &str, amend: bool) -> (args: Vec<String>)
    ensures
        arg_views(args@) == seq!["commit"@, "-m"@, message@] + flag(amend, "--amend"@),
{
    let mut args: Vec<String> = Vec::new();
    assert(arg_views(args@) =~= Seq::<Seq<char>>::empty());
    push_arg(&mut args, "commit");
    push_arg(&mut args, "-m");
    push_arg(&mut args, message);
    assert(arg_views(args@) =~= seq!["commit"@, "-m"@, message@]);
    push_flag(&mut args, amend, "--amend");
    args
}

/// The command line that clones `url` into `destination`.
pub fn clone_args(url: &str, destination: &str) -> (args: Vec<String>)
    ensures
        arg_views(args@) == seq!["clone"@, url@, destination@],
{
    let mut args: Vec<String> = Vec::new();
    assert(arg_views(args@) =~= Seq::<Seq<char>>::empty());
    push_arg(&mut args, "clone");
    push_arg(&mut args, url);
    push_arg(&mut args, destination);
    assert(arg_views(args@) =~= seq!["clone"@, url@, destination@]);
    args
}

/// The two command lines that discard the changes to `paths`: the first
/// restores tracked files, the second removes untracked ones. Each may fail
/// on a path of the other kind, and neither failure counts.
pub fn discard_args(paths: &[String]) -> (args: (Vec<String>, Vec<String>))
    ensures
        arg_views(args.0@) == seq!["checkout"@, "--"@] + arg_views(paths@),
        arg_views(args.1@) == seq!["clean"@, "-f"@, "--"@] + arg_views(paths@),
{
    let mut restore: Vec<String> = Vec::new();
    assert(arg_views(restore@) =~= Seq::<Seq<char>>::empty());
    push_arg(&mut restore, "checkout");
    push_arg(&mut restore, "--");
    assert(arg_views(restore@) =~= seq!["checkout"@, "--"@]);
    push_paths(&mut restore, paths);
    let mut clean: Vec<String> = Vec::new();
    assert(arg_views(clean@) =~= Seq::<Seq<char>>::empty());
    push_arg(&mut clean, "clean");
    push_arg(&mut clean, "-f");
    push_arg(&mut clean, "--");
    assert(arg_views(clean@) =~= seq!["clean"@, "-f"@, "--"@]);
    push_paths(&mut clean, paths);
    (restore, clean)
}

/// The command line that undoes the last commit: with `soft` its changes
/// stay staged, and else they stay in the working tree only.
pub fn undo_commit_args(soft: bool) -> (args: Vec<String>)
    ensures
        arg_views(args@) == seq!["reset"@] + flag(soft, "--soft"@) + seq!["HEAD~1"@],
{
    let mut args: Vec<String> = Vec::new();
    assert(arg_views(args@) =~= Seq::<Seq<char>>::empty());
    push_arg(&mut args, "reset");
    assert(arg_views(args@) =~= seq!["reset"@]);
    push_flag(&mut args, soft, "--soft");
    push_arg(&mut args, "HEAD~1");
    assert(arg_views(args@) =~= seq!["reset"@] + flag(soft, "--soft"@) + seq!["HEAD~1"@]);
    args
}

/// The command line that stashes the changes, with a message if there is
/// one, and with untracked files if `include_untracked` holds.
pub fn stash_push_args(message: Option<&str>, include_untracked: bool) -> (args: Vec<String>)
    ensures
        arg_views(args@) == seq!["stash"@, "push"@] + valued("-m"@, message) + flag(
            include_untracked,
            "-u"@,
        ),
{
    let mut args: Vec<String> = Vec::new();
    assert(arg_views(args@) =~= Seq::<Seq<char>>::empty());
    push_arg(&mut args, "stash");
    push_arg(&mut args, "push");
    assert(arg_views(args@) =~= seq!["stash"@, "push"@]);
    push_valued(&mut args, "-m", message);
    push_flag(&mut args, include_untracked, "-u");
    args
}

/// What to do with an entry of the stash.
#[derive(Debug, Clone, Copy, PartialEq, Eq, Structural)]
pub enum StashAction {
    Pop,
    Apply,
    Drop,
}

impl StashAction {
    /// The word of the command line for this action.
    pub open spec fn word(self) -> Seq<char> {
        match self {
            StashAction::Pop => "pop"@,
            StashAction::Apply => "apply"@,
            StashAction::Drop => "drop"@,
        }
    }
}

/// The name of the stash entry `index` as an argument, or nothing for the
/// newest entry.
pub open spec fn stash_target(index: Option<usize>) -> Seq<Seq<char>> {
    match index {
        Some(i) => seq!["stash@{"@ + decimal(i as nat) + "}"@],
        None => Seq::empty(),
    }
}

/// The command line that pops, applies or drops an entry of the stash: the
/// entry `index`, or the newest one where no index is given.
pub fn stash_entry_args(action: StashAction, index: Option<usize>) -> (args: Vec<String>)
    ensures
        arg_views(args@) == seq!["stash"@, action.word()] + stash_target(index),
{
    let mut args: Vec<String> = Vec::new();
    assert(arg_views(args@) =~= Seq::<Seq<char>>::empty());
    push_arg(&mut args, "stash");
    match action {
        StashAction::Pop => push_arg(&mut args, "pop"),
        StashAction::Apply => push_arg(&mut args, "apply"),
        StashAction::Drop => push_arg(&mut args, "drop"),
    }
    assert(arg_views(args@) =~= seq!["stash"@, action.word()]);
    match index {
        Some(i) => {
            let name = stash_ref(i);
            push_arg(&mut args, name.as_str());
        },
        None => {},
    }
    assert(arg_views(args@) =~= seq!["stash"@, action.word()] + stash_target(index));
    args
}

/// The command line that merges `branch`, with a merge commit in any case if
/// `no_ff` holds.
pub fn merge_args(branch: &str, no_ff: bool) -> (args: Vec<String>)
    ensures
        arg_views(args@) == seq!["merge"@] + flag(no_ff, "--no-ff"@) + seq![branch@],
{
    let mut args: Vec<String> = Vec::new();
    assert(arg_views(args@) =~= Seq::<Seq<char>>::empty());
    push_arg(&mut args, "merge");
    assert(arg_views(args@) =~= seq!["merge"@]);
    push_flag(&mut args, no_ff, "--no-ff");
    push_arg(&mut args, branch);
    assert(arg_views(args@) =~= seq!["merge"@] + flag(no_ff, "--no-ff"@) + seq![branch@]);
    args
}

/// The command line that resets the current branch to `commit` in the mode
/// `mode`, which is `soft`, `mixed` or `hard`.
pub fn reset_args(commit: &str, mode: &str) -> (args: Vec<String>)
    ensures
        arg_views(args@) == seq!["reset"@, "--"@ + mode@, commit@],
{
    let mut args: Vec<String> = Vec::new();
    assert(arg_views(args@) =~= Seq::<Seq<char>>::empty());
    push_arg(&mut args, "reset");
    let mut mode_flag = String::from_str("--");
    mode_flag.append(mode);
    push_arg(&mut args, mode_flag.as_str());
    push_arg(&mut args, commit);
    assert(arg_views(args@) =~= seq!["reset"@, "--"@ + mode@, commit@]);
    args
}

/// A commit as an argument, or nothing where none is given.
pub open spec fn optional(value: Option<&str>) -> Seq<Seq<char>> {
    match value {
        Some(text) => seq![text@],
        None => Seq::empty(),
    }
}

/// The command line that creates the tag `name`: annotated if there is a
/// message and lightweight if not, on `commit` or, where none is given, on
/// the current commit.
pub fn create_tag_args(name: &str, message: Option<&str>, commit: Option<&str>) -> (args: Vec<
    String,
>)
    ensures
        arg_views(args@) == seq!["tag"@] + (match message {
            Some(text) => seq!["-a"@, "-m"@, text@],
            None => Seq::empty(),
        }) + seq![name@] + optional(commit),
{
    let mut args: Vec<String> = Vec::new();
    assert(arg_views(args@) =~= Seq::<Seq<char>>::empty());
    push_arg(&mut args, "tag");
    assert(arg_views(args@) =~= seq!["tag"@]);
    let ghost head = arg_views(args@);
    match message {
        Some(text) => {
            push_arg(&mut args, "-a");
            push_arg(&mut args, "-m");
            push_arg(&mut args, text);
            assert(arg_views(args@) =~= head + seq!["-a"@, "-m"@, text@]);
        },
        None => {
            assert(arg_views(args@) =~= head + Seq::<Seq<char>>::empty());
        },
    }
    let ghost annotated = arg_views(args@);
    push_arg(&mut args, name);
    match commit {
        Some(text) => {
            push_arg(&mut args, text);
        },
        None => {},
    }
    assert(arg_views(args@) =~= annotated + seq![name@] + optional(commit));
    args
}

/// The command line that applies a patch read from standard input: to the
/// index only if `cached` holds, and backwards if `reverse` holds.
pub fn apply_args(cached: bool, reverse: bool) -> (args: Vec<String>)
    ensures
        arg_views(args@) == seq!["apply"@] + flag(cached, "--cached"@) + flag(
            reverse,
            "--reverse"@,
        ) + seq!["-"@],
{
    let mut args: Vec<String> = Vec::new();
    assert(arg_views(args@) =~= Seq::<Seq<char>>::empty());
    push_arg(&mut args, "apply");
    assert(arg_views(args@) =~= seq!["apply"@]);
    push_flag(&mut args, cached, "--cached");
    push_flag(&mut args, reverse, "--reverse");
    push_arg(&mut args, "-");
    assert(arg_views(args@) =~= seq!["apply"@] + flag(cached, "--cached"@) + flag(
        reverse,
        "--reverse"@,
    ) + seq!["-"@]);
    args
}

/// The command line that updates the submodules, nested ones too if
/// `recursive` holds.
pub fn submodule_update_args(recursive: bool) -> (args: Vec<String>)
    ensures
        arg_views(args@) == seq!["submodule"@, "update"@] + flag(recursive, "--recursive"@),
{
    let mut args: Vec<String> = Vec::new();
    assert(arg_views(args@) =~= Seq::<Seq<char>>::empty());
    push_arg(&mut args, "submodule");
    push_arg(&mut args, "update");
    assert(arg_views(args@) =~= seq!["submodule"@, "update"@]);
    push_flag(&mut args, recursive, "--recursive");
    args
}

/// The view of the result of a command.
pub open spec fn outcome_view(outcome: Result<String, String>) -> Result<Seq<char>, Seq<char>> {
    match outcome {
        Ok(text) => Ok(text@),
        Err(text) => Err(text@),
    }
}

/// What a finished command means: its output, decoded leniently, if it
/// succeeded, and else what it wrote to its error stream, decoded leniently
/// and otherwise unchanged.
pub fn command_outcome(success: bool, stdout: &[u8], stderr: &[u8]) -> (outcome: Result<
    String,
    String,
>)
    ensures
        outcome_view(outcome) == (if success {
            Ok::<Seq<char>, Seq<char>>(utf8_lossy(stdout@))
        } else {
            Err::<Seq<char>, Seq<char>>(utf8_lossy(stderr@))
        }),
{
    if success {
        Ok(decode_lossy(stdout))
    } else {
        Err(decode_lossy(stderr))
    }
}

/// The text to append to an ignore file so that it gains the line
/// `pattern`: the pattern and a line feed, after a line feed of its own
/// where the file is not empty and its last line is not ended.
pub open spec fn ignore_line(existing: Option<&str>, pattern: Seq<char>) -> Seq<char> {
    match existing {
        Some(content) => if content@.len() > 0 && !ends_with_newline(content@) {
            "\n"@ + pattern + "\n"@
        } else {
            pattern + "\n"@
        },
        None => pattern + "\n"@,
    }
}

/// Makes the text to append to an ignore file, whose content so far is
/// `existing` (`None` where there is no file yet), so that it gains the line
/// `pattern`.
pub fn gitignore_line(existing: Option<&str>, pattern: &str) -> (line: String)
    ensures
        line@ == ignore_line(existing, pattern@),
{
    let needs_newline = match existing {
        Some(content) => content.unicode_len() > 0 && !has_final_newline(content),
        None => false,
    };
    let mut line = String::new();
    if needs_newline {
        line.append("\n");
    }
    line.append(pattern);
    line.append("\n");
    assert(line@ =~= ignore_line(existing, pattern@));
    line
}

} // verus!
