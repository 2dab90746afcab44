use gitsage::github::{
    auth_status, choose_remote, detect_github_repo, failure_message, gh_token, is_success_status,
    label_is_removed, merge_search_results, parse_github_remote, scoped_query, search_scopes,
    AuthSource, AuthStatus, GitHubRepo, GitHubRepoInfo, OrgInfo, UserInfo,
};
use gitsage::repository::RemoteInfo;

fn repo(owner: &str, name: &str) -> Option<GitHubRepo> {
    Some(GitHubRepo { owner: owner.to_string(), repo: name.to_string() })
}

fn remote(name: &str, url: &str) -> RemoteInfo {
    RemoteInfo { name: name.to_string(), url: url.to_string(), fetch_url: None }
}

fn found(full_name: &str, description: &str) -> GitHubRepoInfo {
    GitHubRepoInfo {
        name: full_name.rsplit('/').next().unwrap().to_string(),
        full_name: full_name.to_string(),
        description: Some(description.to_string()),
        clone_url: format!("https://github.com/{}.git", full_name),
        updated_at: "2024-01-01T00:00:00Z".to_string(),
        private: false,
        fork: false,
    }
}

#[test]
fn ssh_remotes() {
    assert_eq!(parse_github_remote("git@github.com:owner/repo.git"), repo("owner", "repo"));
    assert_eq!(parse_github_remote("git@github.com:owner/repo"), repo("owner", "repo"));
    assert_eq!(parse_github_remote("git@github.com:owner/group/repo.git"), repo("owner", "group/repo"));
    assert_eq!(parse_github_remote("git@github.com:/repo"), repo("", "repo"));
}

#[test]
fn web_remotes() {
    assert_eq!(parse_github_remote("https://github.com/owner/repo.git"), repo("owner", "repo"));
    assert_eq!(parse_github_remote("https://github.com/owner/repo"), repo("owner", "repo"));
    assert_eq!(parse_github_remote("ssh://git@github.com/o/r.git"), repo("o", "r"));
    assert_eq!(parse_github_remote("github.com/r"), repo("github.com", "r"));
    assert_eq!(parse_github_remote("https://github.com/owner/repo/"), repo("repo", ""));
}

#[test]
fn ssh_remote_without_slash_is_read_as_web_remote() {
    assert_eq!(parse_github_remote("git@github.com:repo.git"), None);
    assert_eq!(parse_github_remote("x/git@github.com:repo"), repo("x", "git@github.com:repo"));
}

#[test]
fn other_remotes() {
    assert_eq!(parse_github_remote("https://gitlab.com/owner/repo.git"), None);
    assert_eq!(parse_github_remote(""), None);
    assert_eq!(parse_github_remote("github.com"), None);
    assert_eq!(parse_github_remote("git@github.com:"), None);
}

#[test]
fn origin_is_the_main_remote() {
    let remotes = vec![
        remote("upstream", "https://github.com/up/stream.git"),
        remote("origin", "git@github.com:me/mine.git"),
        remote("origin", "git@github.com:other/one.git"),
    ];
    assert_eq!(choose_remote(&remotes), Some(&remotes[1]));
    assert_eq!(detect_github_repo(&remotes), repo("me", "mine"));
    let no_origin = vec![remote("a", "https://example.org/x"), remote("b", "git@github.com:o/r")];
    assert_eq!(choose_remote(&no_origin), Some(&no_origin[0]));
    assert_eq!(detect_github_repo(&no_origin), None);
    assert_eq!(choose_remote(&[]), None);
    assert_eq!(detect_github_repo(&[]), None);
}

#[test]
fn auth_sources_are_asked_in_order() {
    assert_eq!(AuthSource::next(None), Some(AuthSource::Cached));
    assert_eq!(AuthSource::next(Some(AuthSource::Cached)), Some(AuthSource::Keyring));
    assert_eq!(AuthSource::next(Some(AuthSource::Keyring)), Some(AuthSource::GhCli));
    assert_eq!(AuthSource::next(Some(AuthSource::GhCli)), None);
    assert!(AuthSource::GhCli.stores_token());
    assert!(!AuthSource::Keyring.stores_token());
    assert!(!AuthSource::Cached.stores_token());
}

#[test]
fn auth_statuses() {
    assert_eq!(
        auth_status(Some(AuthSource::Cached), true),
        AuthStatus { authenticated: true, source: Some("cached".to_string()), gh_cli_available: true }
    );
    assert_eq!(auth_status(Some(AuthSource::Keyring), false).source, Some("keyring".to_string()));
    assert_eq!(auth_status(Some(AuthSource::GhCli), true).source, Some("gh_cli".to_string()));
    assert_eq!(
        auth_status(None, false),
        AuthStatus { authenticated: false, source: None, gh_cli_available: false }
    );
}

#[test]
fn gh_tokens() {
    assert_eq!(gh_token(true, b"gho_abc\n"), Some("gho_abc".to_string()));
    assert_eq!(gh_token(true, b"  tok en \r\n"), Some("tok en".to_string()));
    assert_eq!(gh_token(true, b" \n"), None);
    assert_eq!(gh_token(true, b""), None);
    assert_eq!(gh_token(false, b"gho_abc\n"), None);
}

#[test]
fn http_statuses() {
    assert!(is_success_status(200));
    assert!(is_success_status(299));
    assert!(!is_success_status(199));
    assert!(!is_success_status(300));
    assert!(!is_success_status(404));
    assert!(label_is_removed(204));
    assert!(label_is_removed(404));
    assert!(!label_is_removed(403));
    assert_eq!(failure_message("merge PR", "{\"message\":\"no\"}"), "Failed to merge PR: {\"message\":\"no\"}");
}

#[test]
fn search_scope_queries() {
    let user = Some(UserInfo { login: "me".to_string(), avatar_url: String::new() });
    let orgs = Some(vec![OrgInfo { login: "acme".to_string() }, OrgInfo { login: "beta".to_string() }]);
    let scopes = search_scopes(&user, &orgs);
    assert_eq!(scopes, vec!["user:me".to_string(), "org:acme".to_string(), "org:beta".to_string()]);
    assert_eq!(scoped_query("tool", &scopes), Some("tool user:me org:acme org:beta".to_string()));
    assert_eq!(search_scopes(&None, &orgs), vec!["org:acme".to_string(), "org:beta".to_string()]);
    assert_eq!(search_scopes(&user, &None), vec!["user:me".to_string()]);
    assert_eq!(search_scopes(&None, &None), Vec::<String>::new());
    assert_eq!(search_scopes(&None, &Some(vec![])), Vec::<String>::new());
    assert_eq!(scoped_query("tool", &[]), None);
}

#[test]
fn search_results_are_merged_without_repeats() {
    let scoped = vec![found("me/a", "scoped a"), found("acme/b", "scoped b")];
    let global = vec![
        found("x/c", "global c"),
        found("me/a", "global a"),
        found("x/c", "global c again"),
        found("y/d", "global d"),
    ];
    let merged = merge_search_results(Some(scoped.clone()), Some(global.clone()), 10);
    assert_eq!(
        merged,
        vec![scoped[0].clone(), scoped[1].clone(), global[0].clone(), global[3].clone()]
    );
    let cut = merge_search_results(Some(scoped.clone()), Some(global.clone()), 3);
    assert_eq!(cut, vec![scoped[0].clone(), scoped[1].clone(), global[0].clone()]);
    assert_eq!(merge_search_results(None, Some(global.clone()), 10).len(), 3);
    assert_eq!(merge_search_results(Some(scoped.clone()), None, 1), vec![scoped[0].clone()]);
    assert_eq!(merge_search_results(None, None, 5), vec![]);
    assert_eq!(merge_search_results(Some(scoped), Some(global), 0), vec![]);
}

#[test]
fn repeats_within_the_scoped_results_stay() {
    let scoped = vec![found("me/a", "one"), found("me/a", "two")];
    let merged = merge_search_results(Some(scoped.clone()), Some(vec![found("me/a", "three")]), 10);
    assert_eq!(merged, scoped);
}

#[test]
fn every_white_space_character_is_trimmed() {
    let white_space = [
        '\u{9}', '\u{a}', '\u{b}', '\u{c}', '\u{d}', '\u{20}', '\u{85}', '\u{a0}', '\u{1680}',
        '\u{2000}', '\u{2001}', '\u{2002}', '\u{2003}', '\u{2004}', '\u{2005}', '\u{2006}',
        '\u{2007}', '\u{2008}', '\u{2009}', '\u{200a}', '\u{2028}', '\u{2029}', '\u{202f}',
        '\u{205f}', '\u{3000}',
    ];
    for c in white_space {
        assert!(c.is_whitespace());
        let output = format!("{}{}to ken{}", c, c, c);
        assert_eq!(gh_token(true, output.as_bytes()), Some("to ken".to_string()));
        let only = format!("{}{}", c, c);
        assert_eq!(gh_token(true, only.as_bytes()), None);
    }
    let count = (0u32..=0x10ffff).filter_map(char::from_u32).filter(|c| c.is_whitespace()).count();
    assert_eq!(count, white_space.len());
}

#[test]
fn other_characters_are_not_trimmed() {
    for c in ['\u{200b}', '\u{180e}', '\u{feff}', '\u{1f}', '_'] {
        let output = format!("{}token{}", c, c);
        assert_eq!(gh_token(true, output.as_bytes()), Some(output.clone()));
    }
}
