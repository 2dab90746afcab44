//! What the application decides about GitHub: which repository a remote
//! names, how the user is signed in, and how search results are put
//! together.

use vstd::prelude::*;
use vstd::hash_set::StringHashSet;
use vstd::slice::slice_subrange;
use crate::repository::RemoteInfo;
use crate::text::{decode_lossy, trim, trimmed, utf8_lossy};
use crate::strings::{
    chars_of, contains_text, ends_with_text, first_index, has_text, last_index, starts_with_text,
};

verus! {

/// A repository on GitHub, by owner and name.
#[derive(Debug, Clone, PartialEq, Eq)]
pub struct GitHubRepo {
    pub owner: String,
    pub repo: String,
}

/// The mathematical value of a [`GitHubRepo`].
pub struct GitHubRepoView {
    pub owner: Seq<char>,
    pub repo: Seq<char>,
}

impl View for GitHubRepo {
    type V = GitHubRepoView;

    open spec fn view(&self) -> GitHubRepoView {
        GitHubRepoView { owner: self.owner@, repo: self.repo@ }
    }
}

/// The view of an optional repository.
pub open spec fn repo_view(repo: Option<GitHubRepo>) -> Option<GitHubRepoView> {
    match repo {
        Some(r) => Some(r@),
        None => None,
    }
}

/// `text` without a final `.git`.
pub open spec fn without_git_suffix(text: Seq<char>) -> Seq<char> {
    if ".git"@.is_suffix_of(text) {
        text.take(text.len() - ".git"@.len())
    } else {
        text
    }
}

/// The part of `text` behind its last `/`, or all of it where it has none.
pub open spec fn after_last_slash(text: Seq<char>) -> Seq<char> {
    match text.index_of_last('/') {
        Some(slash) => text.skip(slash + 1),
        None => text,
    }
}

/// The repository that an address of the form `git@github.com:owner/repo`
/// names, with or without a final `.git`: the owner is what stands before
/// the first `/` behind the colon, the name all that follows it.
pub open spec fn ssh_remote(url: Seq<char>) -> Option<GitHubRepoView> {
    let rest = without_git_suffix(url.skip("git@github.com:"@.len() as int));
    if "git@github.com:"@.is_prefix_of(url) {
        match rest.index_of_first('/') {
            Some(slash) => Some(
                GitHubRepoView { owner: rest.take(slash), repo: rest.skip(slash + 1) },
            ),
            None => None,
        }
    } else {
        None
    }
}

/// The repository that any other address with `github.com` in it names, with
/// or without a final `.git`: the name is what follows the last `/`, the
/// owner what stands between the `/` before that and the last one.
pub open spec fn web_remote(url: Seq<char>) -> Option<GitHubRepoView> {
    let trimmed = without_git_suffix(url);
    if contains_text(url, "github.com"@) {
        match trimmed.index_of_last('/') {
            Some(slash) => Some(
                GitHubRepoView {
                    owner: after_last_slash(trimmed.take(slash)),
                    repo: trimmed.skip(slash + 1),
                },
            ),
            None => None,
        }
    } else {
        None
    }
}

/// The repository that a remote address names, if it is one on GitHub.
pub open spec fn parsed_remote(url: Seq<char>) -> Option<GitHubRepoView> {
    match ssh_remote(url) {
        Some(repo) => Some(repo),
        None => web_remote(url),
    }
}

/// The characters of `text` from position `from` up to `to`, as a string.
fn text_between(text: &str, from: usize, to: usize) -> (part: String)
    requires
        from <= to <= text@.len(),
    ensures
        part@ == text@.subrange(from as int, to as int),
{
    String::from_str(text.substring_char(from, to))
}

/// Where `text` ends once a final `.git` is left out.
fn end_without_git_suffix(text: &[char]) -> (end: usize)
    ensures
        end <= text@.len(),
        text@.take(end as int) == without_git_suffix(text@),
{
    let suffix = chars_of(".git");
    if ends_with_text(text, suffix.as_slice()) {
        text.len() - suffix.len()
    } else {
        assert(text@.take(text@.len() as int) =~= text@);
        text.len()
    }
}

/// Parses the address of a remote into the owner and the name of a
/// repository on GitHub.
///
/// Both `git@github.com:owner/repo.git` and
/// `https://github.com/owner/repo.git` give `owner` and `repo`; the final
/// `.git` may be missing. An address that has neither form gives `None`.
pub fn parse_github_remote(url: &str) -> (repo: Option<GitHubRepo>)
    ensures
        repo_view(repo) == parsed_remote(url@),
{
    let chars = chars_of(url);
    let all = chars.as_slice();
    let ssh = chars_of("git@github.com:");
    if starts_with_text(all, ssh.as_slice()) {
        let start = ssh.len();
        let behind = slice_subrange(all, start, all.len());
        assert(behind@ =~= url@.skip(start as int));
        let length = end_without_git_suffix(behind);
        let rest = slice_subrange(behind, 0, length);
        assert(rest@ =~= without_git_suffix(url@.skip(start as int)));
        match first_index(rest, '/') {
            Some(slash) => {
                proof {
                    rest@.index_of_first_ensures('/');
                }
                let owner = text_between(url, start, start + slash);
                let name = text_between(url, start + slash + 1, start + length);
                assert(owner@ =~= rest@.take(slash as int));
                assert(name@ =~= rest@.skip(slash + 1));
                return Some(GitHubRepo { owner, repo: name });
            },
            None => {},
        }
    }
    assert(ssh_remote(url@) is None);
    let host = chars_of("github.com");
    if has_text(all, host.as_slice()) {
        let end = end_without_git_suffix(all);
        let trimmed = slice_subrange(all, 0, end);
        assert(trimmed@ =~= without_git_suffix(url@));
        match last_index(trimmed, '/') {
            Some(slash) => {
                proof {
                    trimmed@.index_of_last_ensures('/');
                }
                let head = slice_subrange(trimmed, 0, slash);
                assert(head@ =~= trimmed@.take(slash as int));
                let owner_start = match last_index(head, '/') {
                    Some(before) => {
                        proof {
                            head@.index_of_last_ensures('/');
                        }
                        before + 1
                    },
                    None => 0,
                };
                let owner = text_between(url, owner_start, slash);
                let name = text_between(url, slash + 1, end);
                assert(owner@ =~= after_last_slash(head@));
                assert(name@ =~= trimmed@.skip(slash + 1));
                return Some(GitHubRepo { owner, repo: name });
            },
            None => {},
        }
    }
    None
}

/// The remote that tells where a repository lives: the first one named
/// `origin`, or else the first of all.
pub open spec fn main_remote(remotes: Seq<RemoteInfo>) -> Option<RemoteInfo> {
    if exists|i: int| 0 <= i < remotes.len() && (#[trigger] remotes[i]).name@ == "origin"@ {
        let first = choose|i: int|
            0 <= i < remotes.len() && (#[trigger] remotes[i]).name@ == "origin"@ && forall|j: int|
                0 <= j < i ==> (#[trigger] remotes[j]).name@ != "origin"@;
        Some(remotes[first])
    } else if remotes.len() > 0 {
        Some(remotes[0])
    } else {
        None
    }
}

/// Picks the remote that tells where a repository lives: the first one
/// named `origin`, or else the first of all, or none where there is no
/// remote.
pub fn choose_remote<'a>(remotes: &'a [RemoteInfo]) -> (chosen: Option<&'a RemoteInfo>)
    ensures
        match chosen {
            Some(remote) => main_remote(remotes@) == Some(*remote),
            None => main_remote(remotes@) is None,
        },
{
    let origin = String::from_str("origin");
    let mut index: usize = 0;
    while index < remotes.len()
        invariant
            index <= remotes.len(),
            origin@ == "origin"@,
            forall|j: int| 0 <= j < index ==> (#[trigger] remotes@[j]).name@ != "origin"@,
        decreases remotes.len() - index,
    {
        if remotes[index].name == origin {
            proof {
                let first = choose|i: int|
                    0 <= i < remotes@.len() && (#[trigger] remotes@[i]).name@ == "origin"@
                        && forall|j: int|
                        0 <= j < i ==> (#[trigger] remotes@[j]).name@ != "origin"@;
                assert(remotes@[index as int].name@ == "origin"@);
                assert(first == index);
            }
            return Some(&remotes[index]);
        }
        index = index + 1;
    }
    if remotes.len() > 0 {
        Some(&remotes[0])
    } else {
        None
    }
}

/// Finds the repository on GitHub that the remotes of a repository point to:
/// the one that the address of the main remote names.
pub fn detect_github_repo(remotes: &[RemoteInfo]) -> (repo: Option<GitHubRepo>)
    ensures
        repo_view(repo) == (match main_remote(remotes@) {
            Some(remote) => parsed_remote(remote.url@),
            None => None,
        }),
{
    match choose_remote(remotes) {
        Some(remote) => parse_github_remote(remote.url.as_str()),
        None => None,
    }
}

/// Whether and how the user is signed in to GitHub.
#[derive(Debug, Clone, PartialEq, Eq)]
pub struct AuthStatus {
    pub authenticated: bool,
    pub source: Option<String>,
    pub gh_cli_available: bool,
}

/// Where a token for GitHub was found.
#[derive(Debug, Clone, Copy, PartialEq, Eq, Structural)]
pub enum AuthSource {
    /// A client made earlier is still at hand.
    Cached,
    /// The system keyring holds a token.
    Keyring,
    /// The `gh` program handed out a token.
    GhCli,
}

impl AuthSource {
    /// The name of the source as the user interface knows it.
    pub open spec fn label(self) -> Seq<char> {
        match self {
            AuthSource::Cached => "cached"@,
            AuthSource::Keyring => "keyring"@,
            AuthSource::GhCli => "gh_cli"@,
        }
    }

    /// The source to ask after `asked` gave no token: first the cache, then
    /// the keyring, then the `gh` program, and then nothing more.
    pub open spec fn following(asked: Option<AuthSource>) -> Option<AuthSource> {
        match asked {
            None => Some(AuthSource::Cached),
            Some(AuthSource::Cached) => Some(AuthSource::Keyring),
            Some(AuthSource::Keyring) => Some(AuthSource::GhCli),
            Some(AuthSource::GhCli) => None,
        }
    }

    /// The source to ask next for a token, after `asked` gave none; `None`
    /// once every source was asked.
    pub fn next(asked: Option<AuthSource>) -> (source: Option<AuthSource>)
        ensures
            source == Self::following(asked),
    {
        match asked {
            None => Some(AuthSource::Cached),
            Some(AuthSource::Cached) => Some(AuthSource::Keyring),
            Some(AuthSource::Keyring) => Some(AuthSource::GhCli),
            Some(AuthSource::GhCli) => None,
        }
    }

    /// Whether a token from this source is to be put into the keyring: only
    /// one from the `gh` program is.
    pub fn stores_token(self) -> (store: bool)
        ensures
            store == (self == AuthSource::GhCli),
    {
        match self {
            AuthSource::GhCli => true,
            _ => false,
        }
    }
}

/// The status to report once the search for a token has ended: signed in
/// from `source`, or not signed in where no source had a token.
pub fn auth_status(source: Option<AuthSource>, gh_cli_available: bool) -> (status: AuthStatus)
    ensures
        status.authenticated == source is Some,
        status.gh_cli_available == gh_cli_available,
        match source {
            Some(found) => status.source matches Some(label) && label@ == found.label(),
            None => status.source is None,
        },
{
    let label = match source {
        Some(AuthSource::Cached) => Some(String::from_str("cached")),
        Some(AuthSource::Keyring) => Some(String::from_str("keyring")),
        Some(AuthSource::GhCli) => Some(String::from_str("gh_cli")),
        None => None,
    };
    AuthStatus { authenticated: source.is_some(), source: label, gh_cli_available }
}

/// The token in the output of the `gh` program, if the program succeeded
/// and printed one.
pub open spec fn printed_token(success: bool, stdout: Seq<u8>) -> Option<Seq<char>> {
    if success && trimmed(utf8_lossy(stdout)).len() > 0 {
        Some(trimmed(utf8_lossy(stdout)))
    } else {
        None
    }
}

/// Reads the token that the `gh` program printed: its output without the
/// whitespace around it. A program that failed, or printed nothing but
/// whitespace, gave no token.
pub fn gh_token(success: bool, stdout: &[u8]) -> (token: Option<String>)
    ensures
        match token {
            Some(text) => printed_token(success, stdout@) == Some(text@),
            None => printed_token(success, stdout@) is None,
        },
{
    if !success {
        return None;
    }
    let output = decode_lossy(stdout);
    let token = trim(output.as_str());
    if token.as_str().unicode_len() == 0 {
        None
    } else {
        Some(token)
    }
}

/// Whether an HTTP status means success: it lies from 200 to 299.
pub fn is_success_status(status: u16) -> (success: bool)
    ensures
        success == (200 <= status <= 299),
{
    200 <= status && status <= 299
}

/// Whether the removal of a label is done, by the status of the answer: the
/// request succeeded, or the label was not there.
pub fn label_is_removed(status: u16) -> (removed: bool)
    ensures
        removed == (200 <= status <= 299 || status == 404),
{
    is_success_status(status) || status == 404
}

/// The message for a request that GitHub refused: what was tried, and what
/// GitHub answered.
pub fn failure_message(attempt: &str, answer: &str) -> (message: String)
    ensures
        message@ == "Failed to "@ + attempt@ + ": "@ + answer@,
{
    let mut message = String::from_str("Failed to ");
    message.append(attempt);
    message.append(": ");
    message.append(answer);
    message
}

/// A user of GitHub.
#[derive(Debug, Clone, PartialEq, Eq)]
pub struct UserInfo {
    pub login: String,
    pub avatar_url: String,
}

/// An organization on GitHub.
#[derive(Debug, Clone, PartialEq, Eq)]
pub struct OrgInfo {
    pub login: String,
}

/// A repository on GitHub as a search finds it.
#[derive(Debug, Clone, PartialEq, Eq)]
pub struct GitHubRepoInfo {
    pub name: String,
    pub full_name: String,
    pub description: Option<String>,
    pub clone_url: String,
    pub updated_at: String,
    pub private: bool,
    pub fork: bool,
}

/// The answer to a search for repositories.
#[derive(Debug, Clone, PartialEq, Eq)]
pub struct SearchReposResponse {
    pub items: Vec<GitHubRepoInfo>,
}

/// The texts of a sequence of strings.
pub open spec fn texts(strings: Seq<String>) -> Seq<Seq<char>> {
    strings.map_values(|s: String| s@)
}

/// The qualifier that limits a search to the repositories of a user.
pub open spec fn user_scope(user: Option<UserInfo>) -> Seq<Seq<char>> {
    match user {
        Some(u) => seq!["user:"@ + u.login@],
        None => Seq::empty(),
    }
}

/// The qualifiers that limit a search to the repositories of organizations.
pub open spec fn org_scopes(orgs: Seq<OrgInfo>) -> Seq<Seq<char>> {
    orgs.map_values(|o: OrgInfo| "org:"@ + o.login@)
}

/// The qualifiers of a search among the user's own repositories and those
/// of the user's organizations: the user first, then the organizations in
/// order. What could not be learned is left out.
pub open spec fn scope_texts(user: Option<UserInfo>, orgs: Option<Vec<OrgInfo>>) -> Seq<Seq<char>> {
    user_scope(user) + (match orgs {
        Some(list) => org_scopes(list@),
        None => Seq::empty(),
    })
}

/// Makes the qualifiers of a search among the user's own repositories and
/// those of the user's organizations.
pub fn search_scopes(user: &Option<UserInfo>, orgs: &Option<Vec<OrgInfo>>) -> (scopes: Vec<String>)
    ensures
        texts(scopes@) == scope_texts(*user, *orgs),
{
    let mut scopes: Vec<String> = Vec::new();
    assert(texts(scopes@) =~= Seq::<Seq<char>>::empty());
    match user {
        Some(u) => {
            let mut scope = String::from_str("user:");
            scope.append(u.login.as_str());
            scopes.push(scope);
            assert(texts(scopes@) =~= user_scope(*user));
        },
        None => {},
    }
    match orgs {
        Some(list) => {
            let ghost head = texts(scopes@);
            let mut index: usize = 0;
            while index < list.len()
                invariant
                    index <= list.len(),
                    texts(scopes@) == head + org_scopes(list@.take(index as int)),
                decreases list.len() - index,
            {
                let mut scope = String::from_str("org:");
                scope.append(list[index].login.as_str());
                let ghost so_far = texts(scopes@);
                let ghost added = scope@;
                scopes.push(scope);
                proof {
                    assert(added == "org:"@ + list@[index as int].login@);
                    assert(texts(scopes@) =~= so_far.push(added));
                    assert(org_scopes(list@.take(index + 1)) =~= org_scopes(
                        list@.take(index as int),
                    ).push(added));
                    assert(texts(scopes@) =~= head + org_scopes(list@.take(index + 1)));
                }
                index = index + 1;
            }
            assert(list@.take(list.len() as int) =~= list@);
        },
        None => {
            assert(texts(scopes@) =~= scope_texts(*user, *orgs));
        },
    }
    scopes
}

/// The texts, each with a space before it, one after the other.
pub open spec fn spaced(parts: Seq<Seq<char>>) -> Seq<char>
    decreases parts.len(),
{
    if parts.len() == 0 {
        Seq::empty()
    } else {
        spaced(parts.drop_last()) + " "@ + parts.last()
    }
}

/// The query of a search limited by `scopes`: the query and the qualifiers,
/// with single spaces between them. Without qualifiers there is no limited
/// search.
pub open spec fn scoped_text(query: Seq<char>, scopes: Seq<Seq<char>>) -> Option<Seq<char>> {
    if scopes.len() == 0 {
        None
    } else {
        Some(query + spaced(scopes))
    }
}

/// Makes the query of the search that is limited to `scopes`, or `None`
/// where there are no scopes, so that only the search among all repositories
/// is left.
pub fn scoped_query(query: &str, scopes: &[String]) -> (scoped: Option<String>)
    ensures
        match scoped {
            Some(text) => scoped_text(query@, texts(scopes@)) == Some(text@),
            None => scoped_text(query@, texts(scopes@)) is None,
        },
{
    if scopes.len() == 0 {
        return None;
    }
    let mut text = String::from_str(query);
    let mut index: usize = 0;
    assert(spaced(texts(scopes@.take(0))) =~= Seq::<char>::empty());
    while index < scopes.len()
        invariant
            index <= scopes.len(),
            text@ == query@ + spaced(texts(scopes@.take(index as int))),
        decreases scopes.len() - index,
    {
        text.append(" ");
        text.append(scopes[index].as_str());
        proof {
            let longer = texts(scopes@.take(index + 1));
            assert(longer.drop_last() =~= texts(scopes@.take(index as int)));
            assert(longer.last() == scopes@[index as int]@);
            assert(text@ =~= query@ + spaced(longer));
        }
        index = index + 1;
    }
    assert(scopes@.take(scopes.len() as int) =~= scopes@);
    Some(text)
}

/// One of `results` has the full name `full_name`.
pub open spec fn has_full_name(results: Seq<GitHubRepoInfo>, full_name: Seq<char>) -> bool {
    exists|i: int| 0 <= i < results.len() && (#[trigger] results[i]).full_name@ == full_name
}

/// `results` followed by those of `more` whose full name is not there yet.
pub open spec fn merged(results: Seq<GitHubRepoInfo>, more: Seq<GitHubRepoInfo>) -> Seq<
    GitHubRepoInfo,
>
    decreases more.len(),
{
    if more.len() == 0 {
        results
    } else {
        let before = merged(results, more.drop_last());
        if has_full_name(before, more.last().full_name@) {
            before
        } else {
            before.push(more.last())
        }
    }
}

/// The results or, where a search failed, none.
pub open spec fn found(results: Option<Vec<GitHubRepoInfo>>) -> Seq<GitHubRepoInfo> {
    match results {
        Some(list) => list@,
        None => Seq::empty(),
    }
}

/// The first `limit` of `results`, or all of them where they are fewer.
pub open spec fn first_n(results: Seq<GitHubRepoInfo>, limit: nat) -> Seq<GitHubRepoInfo> {
    if results.len() <= limit {
        results
    } else {
        results.take(limit as int)
    }
}

/// The full names of `results`.
pub open spec fn full_names(results: Seq<GitHubRepoInfo>) -> Set<Seq<char>> {
    Set::new(|name: Seq<char>| has_full_name(results, name))
}

/// Appending a result adds its full name to the full names.
proof fn lemma_full_names_push(results: Seq<GitHubRepoInfo>, repo: GitHubRepoInfo)
    ensures
        full_names(results.push(repo)) == full_names(results).insert(repo.full_name@),
{
    let longer = results.push(repo);
    assert forall|name: Seq<char>| has_full_name(longer, name) <==> (has_full_name(results, name)
        || name == repo.full_name@) by {
        if has_full_name(results, name) {
            let i = choose|i: int| 0 <= i < results.len() && (#[trigger] results[i]).full_name@ == name;
            assert(longer[i] == results[i]);
        }
        if name == repo.full_name@ {
            assert(longer[results.len() as int] == repo);
        }
        if has_full_name(longer, name) {
            let i = choose|i: int| 0 <= i < longer.len() && (#[trigger] longer[i]).full_name@ == name;
            if i < results.len() {
                assert(results[i] == longer[i]);
            }
        }
    }
    assert(full_names(longer) =~= full_names(results).insert(repo.full_name@));
}

/// Puts the results of the limited search and of the search among all
/// repositories together.
///
/// The results of the limited search come first, as they are. Then follow
/// the results of the other search, in order, each only if no result before
/// it has its full name. A search that failed counts as one without results.
/// Of all these the first `limit` are kept.
pub fn merge_search_results(
    scoped: Option<Vec<GitHubRepoInfo>>,
    global: Option<Vec<GitHubRepoInfo>>,
    limit: usize,
) -> (results: Vec<GitHubRepoInfo>)
    ensures
        results@ == first_n(merged(found(scoped), found(global)), limit as nat),
{
    let ghost first = found(scoped);
    let ghost second = found(global);
    let mut results = match scoped {
        Some(list) => list,
        None => Vec::new(),
    };
    assert(results@ =~= first);
    let mut seen = StringHashSet::new();
    let mut index: usize = 0;
    assert(full_names(results@.take(0)) =~= Set::<Seq<char>>::empty());
    while index < results.len()
        invariant
            index <= results.len(),
            results@ == first,
            seen@ == full_names(results@.take(index as int)),
        decreases results.len() - index,
    {
        proof {
            lemma_full_names_push(results@.take(index as int), results@[index as int]);
            assert(results@.take(index + 1) =~= results@.take(index as int).push(
                results@[index as int],
            ));
        }
        seen.insert(results[index].full_name.clone());
        index = index + 1;
    }
    assert(results@.take(results.len() as int) =~= results@);
    match global {
        Some(list) => {
            for repo in it: list
                invariant
                    it.seq() == second,
                    results@ == merged(first, second.take(it.index() as int)),
                    seen@ == full_names(results@),
            {
                proof {
                    assert(second.take(it.index() + 1).drop_last() =~= second.take(
                        it.index() as int,
                    ));
                    lemma_full_names_push(results@, repo);
                }
                let ghost known = seen@;
                if seen.insert(repo.full_name.clone()) {
                    results.push(repo);
                } else {
                    assert(seen@ =~= known);
                }
            }
            assert(second.take(second.len() as int) =~= second);
        },
        None => {},
    }
    if results.len() > limit {
        results.truncate(limit);
    }
    results
}

} // verus!
