use gitsage::config::{AppConfig, ThemeMode};
use gitsage::prompts::{
    build_commit_prompt, build_summary_prompt, CHANGE_SUMMARY_SYSTEM, COMMIT_MESSAGE_SYSTEM,
};
use gitsage::provider::ProviderKind;

#[test]
fn commit_prompt_with_diff_only() {
    let prompt = build_commit_prompt("+x", &[], None);
    assert_eq!(
        prompt,
        "Generate a commit message for the following changes.\n\nDiff:\n```\n+x\n```"
    );
}

#[test]
fn commit_prompt_with_everything() {
    let recent = vec!["Fix a".to_string(), "Add b".to_string()];
    let prompt = build_commit_prompt("-y", &recent, Some("type: subject"));
    assert_eq!(
        prompt,
        "Generate a commit message for the following changes.\n\n\
Recent commit messages (for style reference):\n- Fix a\n- Add b\n\n\
Commit message template:\ntype: subject\n\n\
Diff:\n```\n-y\n```"
    );
}

#[test]
fn commit_prompt_quotes_five_commits_at_most() {
    let recent: Vec<String> = (1..=7).map(|n| format!("c{}", n)).collect();
    let prompt = build_commit_prompt("d", &recent, None);
    assert!(prompt.contains("- c1\n- c2\n- c3\n- c4\n- c5\n\nDiff:"));
    assert!(!prompt.contains("c6"));
    let five: Vec<String> = (1..=5).map(|n| format!("c{}", n)).collect();
    assert_eq!(build_commit_prompt("d", &five, None), prompt);
}

#[test]
fn summary_prompt() {
    assert_eq!(
        build_summary_prompt("+a\n-b"),
        "Summarize the following code changes in a clear, concise way:\n\n```\n+a\n-b\n```"
    );
}

#[test]
fn system_prompts() {
    assert!(COMMIT_MESSAGE_SYSTEM.starts_with("You are an expert at writing clear, concise git commit messages.\n"));
    assert!(COMMIT_MESSAGE_SYSTEM.contains("3. Use the imperative mood (\"Add feature\" not \"Added feature\")\n"));
    assert!(COMMIT_MESSAGE_SYSTEM.ends_with("- Optional: a commit message template\n"));
    assert!(CHANGE_SUMMARY_SYSTEM.ends_with("Use bullet points for multiple changes.\n"));
}

#[test]
fn default_config() {
    let config = AppConfig::default();
    assert_eq!(config.theme, ThemeMode::System);
    assert_eq!(config.locale, "zh-CN");
    assert!(config.ai.enabled);
    assert_eq!(config.ai.provider, ProviderKind::OpenAI);
    assert_eq!(config.ai.model, "gpt-4o");
    assert_eq!(config.ai.base_url, None);
}
