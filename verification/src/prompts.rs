//! The texts that ask a language model for a commit message or a summary.

use vstd::prelude::*;

verus! {

/// The system prompt for writing a commit message.
pub const COMMIT_MESSAGE_SYSTEM: &'static str =
    "You are an expert at writing clear, concise git commit messages.\nFollow these rules:\n1. Write a short summary line (max 72 characters)\n2. If needed, add a blank line followed by a more detailed description\n3. Use the imperative mood (\"Add feature\" not \"Added feature\")\n4. Focus on WHY the change was made, not just WHAT changed\n5. Reference any relevant issue numbers if mentioned in the context\n\nThe user will provide you with:\n- The git diff of staged changes\n- Recent commit messages (for style reference)\n- Optional: a commit message template\n";

/// The system prompt for summarizing changes.
pub const CHANGE_SUMMARY_SYSTEM: &'static str =
    "You are a helpful assistant that summarizes code changes.\nGiven a git diff, provide a clear, human-readable summary of what was changed and why it matters.\nKeep the summary concise but informative.\nUse bullet points for multiple changes.\n";

/// How many recent commit messages a prompt quotes at most.
pub const MAX_QUOTED_COMMITS: usize = 5;

/// One line for each message: a dash, a space, the message and a line feed.
pub open spec fn bullet_list(messages: Seq<String>) -> Seq<char>
    decreases messages.len(),
{
    if messages.len() == 0 {
        Seq::empty()
    } else {
        bullet_list(messages.drop_last()) + "- "@ + messages.last()@ + "\n"@
    }
}

/// The part of the prompt that quotes recent commit messages: nothing where
/// there are none, and else a heading, the first five at most as a list, and
/// an empty line.
pub open spec fn recent_commits_text(recent_commits: Seq<String>) -> Seq<char> {
    if recent_commits.len() == 0 {
        Seq::empty()
    } else {
        let quoted = if recent_commits.len() <= MAX_QUOTED_COMMITS {
            recent_commits
        } else {
            recent_commits.take(MAX_QUOTED_COMMITS as int)
        };
        "Recent commit messages (for style reference):\n"@ + bullet_list(quoted) + "\n"@
    }
}

/// The part of the prompt that holds the template, if there is one.
pub open spec fn template_text(template: Option<&str>) -> Seq<char> {
    match template {
        Some(text) => "Commit message template:\n"@ + text@ + "\n\n"@,
        None => Seq::empty(),
    }
}

/// The prompt that asks for a commit message.
pub open spec fn commit_prompt_text(
    diff: Seq<char>,
    recent_commits: Seq<String>,
    template: Option<&str>,
) -> Seq<char> {
    "Generate a commit message for the following changes.\n\n"@ + recent_commits_text(
        recent_commits,
    ) + template_text(template) + "Diff:\n```\n"@ + diff + "\n```"@
}

/// The prompt that asks for a summary of changes.
pub open spec fn summary_prompt_text(diff: Seq<char>) -> Seq<char> {
    "Summarize the following code changes in a clear, concise way:\n\n```\n"@ + diff + "\n```"@
}

/// Builds the prompt that asks for a commit message for `diff`.
///
/// After the opening line come, where there are any, the first five recent
/// commit messages as a list, then the template where there is one, and last
/// the diff in a fenced block.
pub fn build_commit_prompt(diff: &str, recent_commits: &[String], template: Option<&str>) -> (prompt:
    String)
    ensures
        prompt@ == commit_prompt_text(diff@, recent_commits@, template),
{
    let mut prompt = String::from_str("Generate a commit message for the following changes.\n\n");
    let ghost opening = prompt@;
    if recent_commits.len() > 0 {
        prompt.append("Recent commit messages (for style reference):\n");
        let ghost head = prompt@;
        let quoted = if recent_commits.len() <= MAX_QUOTED_COMMITS {
            recent_commits.len()
        } else {
            MAX_QUOTED_COMMITS
        };
        let mut index: usize = 0;
        while index < quoted
            invariant
                index <= quoted <= recent_commits.len(),
                prompt@ == head + bullet_list(recent_commits@.take(index as int)),
            decreases quoted - index,
        {
            prompt.append("- ");
            prompt.append(recent_commits[index].as_str());
            prompt.append("\n");
            proof {
                assert(recent_commits@.take(index + 1).drop_last() =~= recent_commits@.take(
                    index as int,
                ));
                assert(prompt@ =~= head + bullet_list(recent_commits@.take(index + 1)));
            }
            index = index + 1;
        }
        prompt.append("\n");
        proof {
            assert(recent_commits@.take(recent_commits@.len() as int) =~= recent_commits@);
            assert(prompt@ =~= opening + recent_commits_text(recent_commits@));
        }
    } else {
        assert(prompt@ =~= opening + recent_commits_text(recent_commits@));
    }
    let ghost quoted_part = prompt@;
    match template {
        Some(text) => {
            prompt.append("Commit message template:\n");
            prompt.append(text);
            prompt.append("\n\n");
            assert(prompt@ =~= quoted_part + template_text(template));
        },
        None => {
            assert(prompt@ =~= quoted_part + template_text(template));
        },
    }
    prompt.append("Diff:\n```\n");
    prompt.append(diff);
    prompt.append("\n```");
    assert(prompt@ =~= commit_prompt_text(diff@, recent_commits@, template));
    prompt
}

/// Builds the prompt that asks for a summary of `diff`: one sentence, then
/// the diff in a fenced block.
pub fn build_summary_prompt(diff: &str) -> (prompt: String)
    ensures
        prompt@ == summary_prompt_text(diff@),
{
    let mut prompt = String::from_str(
        "Summarize the following code changes in a clear, concise way:\n\n```\n",
    );
    prompt.append(diff);
    prompt.append("\n```");
    assert(prompt@ =~= summary_prompt_text(diff@));
    prompt
}

} // verus!
