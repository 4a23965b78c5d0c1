//! Read-only GitHub context: the `gh` commands that are run, in their order, and
//! what their answers show.
use std::path::PathBuf;

use vstd::prelude::*;

use crate::discovery::{
    below_each, find_existing, first_existing, join_each, join_path, joined_path, owned_path,
    path_of, text_path, the_named_binary_is_launched, ProbedPath,
};
use crate::text::{
    concatenated, decimal, decimal_text, decimal_text_is_digits, decimal_text_is_injective,
    what_stands_between_is_equal,
};

verus! {

/// Default number of open issues and pull requests to request.
pub const DEFAULT_LIMIT: usize = 10;

// ---------------------------------------------------------------------------
// The snapshot
// ---------------------------------------------------------------------------

/// A repository on GitHub.
#[derive(Clone, Debug, PartialEq, Eq)]
pub struct GithubRepo {
    pub name_with_owner: String,
    pub default_branch: Option<String>,
}

/// A minimal reference to an open issue or pull request.
#[derive(Clone, Debug, PartialEq, Eq)]
pub struct GithubRef {
    pub number: u64,
    pub title: String,
}

/// A read-only snapshot of the current repository's GitHub context.
///
/// Where `available` is false the snapshot is degraded: `status` tells why, and
/// the lists are empty.
#[derive(Clone, Debug, PartialEq, Eq)]
pub struct GithubContext {
    pub available: bool,
    pub status: Option<String>,
    pub repo: Option<GithubRepo>,
    pub issues: Vec<GithubRef>,
    pub pull_requests: Vec<GithubRef>,
}

/// What a [`GithubRepo`] stands for.
#[verifier::ext_equal]
pub struct GithubRepoModel {
    pub name_with_owner: Seq<char>,
    pub default_branch: Option<Seq<char>>,
}

impl View for GithubRepo {
    type V = GithubRepoModel;

    open spec fn view(&self) -> GithubRepoModel {
        GithubRepoModel {
            name_with_owner: self.name_with_owner@,
            default_branch: self.default_branch.deep_view(),
        }
    }
}

/// What a [`GithubContext`] stands for.
#[verifier::ext_equal]
pub struct GithubContextModel {
    pub available: bool,
    pub status: Option<Seq<char>>,
    pub repo: Option<GithubRepoModel>,
    /// Number and title of each issue.
    pub issues: Seq<(u64, Seq<char>)>,
    /// Number and title of each pull request.
    pub pull_requests: Seq<(u64, Seq<char>)>,
}

/// References as what they stand for.
pub open spec fn ref_views(refs: Seq<GithubRef>) -> Seq<(u64, Seq<char>)> {
    Seq::new(refs.len(), |i: int| (refs[i].number, refs[i].title@))
}

/// An optional repository as what it stands for.
pub open spec fn optional_repo(repo: Option<GithubRepo>) -> Option<GithubRepoModel> {
    match repo {
        Some(repo) => Some(repo@),
        None => None,
    }
}

impl View for GithubContext {
    type V = GithubContextModel;

    open spec fn view(&self) -> GithubContextModel {
        GithubContextModel {
            available: self.available,
            status: self.status.deep_view(),
            repo: optional_repo(self.repo),
            issues: ref_views(self.issues@),
            pull_requests: ref_views(self.pull_requests@),
        }
    }
}

/// A count of open things with their noun, in the plural unless it is one.
pub open spec fn open_count(count: nat, noun: Seq<char>) -> Seq<char> {
    if count == 1 {
        "1 open "@ + noun
    } else {
        decimal_text(count) + " open "@ + noun + "s"@
    }
}

/// A count of open things with their noun.
pub fn count_label(count: usize, noun: &str) -> (label: String)
    ensures
        label@ == open_count(count as nat, noun@),
{
    if count == 1 {
        concatenated("1 open ", noun)
    } else {
        let mut label = decimal(count as u64);
        label.append(" open ");
        label.append(noun);
        label.append("s");
        label
    }
}

impl GithubContextModel {
    /// The snapshot that tells why there is nothing to show.
    pub open spec fn told(status: Seq<char>) -> GithubContextModel {
        GithubContextModel {
            available: false,
            status: Some(status),
            repo: None,
            issues: Seq::empty(),
            pull_requests: Seq::empty(),
        }
    }

    /// The status, or a fallback where there is none.
    pub open spec fn status_or_fallback(self) -> Seq<char> {
        match self.status {
            Some(status) => status,
            None => "GitHub context unavailable"@,
        }
    }

    /// The line for the panel's header: the repository and the open counts where
    /// the snapshot is available, else the status.
    pub open spec fn summary(self) -> Seq<char> {
        match self.repo {
            Some(repo) => if self.available {
                repo.name_with_owner + " · "@ + open_count(self.issues.len(), "issue"@) + " · "@
                    + open_count(self.pull_requests.len(), "PR"@)
            } else {
                self.status_or_fallback()
            },
            None => self.status_or_fallback(),
        }
    }
}

impl Default for GithubContext {
    fn default() -> (context: GithubContext)
        ensures
            context@ == (GithubContextModel {
                available: false,
                status: None,
                repo: None,
                issues: Seq::empty(),
                pull_requests: Seq::empty(),
            }),
    {
        let context = GithubContext {
            available: false,
            status: None,
            repo: None,
            issues: Vec::new(),
            pull_requests: Vec::new(),
        };
        assert(context@.issues =~= Seq::empty());
        assert(context@.pull_requests =~= Seq::empty());
        context
    }
}

impl GithubContext {
    /// The snapshot that tells why there is nothing to show.
    pub fn degraded(status: &str) -> (context: GithubContext)
        ensures
            context@ == GithubContextModel::told(status@),
    {
        let context = GithubContext {
            available: false,
            status: Some(status.to_owned()),
            repo: None,
            issues: Vec::new(),
            pull_requests: Vec::new(),
        };
        assert(context@ =~= GithubContextModel::told(status@));
        context
    }

    /// One-line label for the panel header: the repository and the open counts
    /// where available, else the status.
    pub fn summary_label(&self) -> (label: String)
        ensures
            label@ == self@.summary(),
            !self.available ==> label@ == self@.status_or_fallback(),
    {
        match &self.repo {
            Some(repo) if self.available => {
                let mut label = concatenated(repo.name_with_owner.as_str(), " · ");
                label.append(count_label(self.issues.len(), "issue").as_str());
                label.append(" · ");
                label.append(count_label(self.pull_requests.len(), "PR").as_str());
                label
            },
            _ => match &self.status {
                Some(status) => status.clone(),
                None => "GitHub context unavailable".to_owned(),
            },
        }
    }
}

// ---------------------------------------------------------------------------
// The binary
// ---------------------------------------------------------------------------

/// The directories in which `gh` is looked for, in order: those of the search
/// path, and then those in which tools are usually installed.
pub open spec fn gh_dirs(search_path: Seq<PathBuf>, home: Option<PathBuf>) -> Seq<PathBuf> {
    let shared = search_path.push(text_path("/opt/homebrew/bin"@)).push(
        text_path("/usr/local/bin"@),
    );
    match home {
        Some(home) => shared.push(joined_path(home, text_path(".local/bin"@))),
        None => shared,
    }
}

/// Where `gh` is looked for, in order: its name below each of the directories.
pub fn gh_candidates(search_path: Vec<PathBuf>, home: Option<&PathBuf>) -> (candidates: Vec<PathBuf>)
    ensures
        candidates@ == below_each(gh_dirs(search_path@, owned_path(home)), "gh"@),
{
    let mut dirs = search_path;
    dirs.push(path_of("/opt/homebrew/bin".to_owned()));
    dirs.push(path_of("/usr/local/bin".to_owned()));
    if let Some(home) = home {
        dirs.push(join_path(home, &path_of(".local/bin".to_owned())));
    }
    join_each(&dirs, "gh")
}

/// The binary that is run: the given one where it is there, and where none is
/// given the first candidate that is there. A given one that is missing is not
/// replaced.
pub open spec fn chosen_gh(
    binary_override: Option<ProbedPath>,
    candidates: Seq<ProbedPath>,
) -> Option<PathBuf> {
    match binary_override {
        Some(binary) => if binary.exists {
            Some(binary.path)
        } else {
            None
        },
        None => first_existing(candidates),
    }
}

/// The binary that is run.
pub fn resolve_gh_binary(
    binary_override: Option<ProbedPath>,
    candidates: &Vec<ProbedPath>,
) -> (binary: Option<PathBuf>)
    ensures
        binary == chosen_gh(binary_override, candidates@),
{
    match binary_override {
        Some(binary) => if binary.exists {
            Some(binary.path)
        } else {
            None
        },
        None => find_existing(candidates),
    }
}

// ---------------------------------------------------------------------------
// The answers
// ---------------------------------------------------------------------------

/// A branch, as `gh repo view` tells it.
#[derive(Debug, PartialEq, Eq)]
pub struct BranchRef {
    pub name: String,
}

/// A repository, as `gh repo view` tells it.
#[derive(Debug, PartialEq, Eq)]
pub struct RepoView {
    pub name_with_owner: String,
    pub default_branch_ref: Option<BranchRef>,
}

/// An issue or a pull request, as `gh issue list` and `gh pr list` tell it.
#[derive(Debug, PartialEq, Eq)]
pub struct RefRow {
    pub number: u64,
    pub title: String,
}

/// The repository that an answer tells of.
pub open spec fn told_repo(view: Option<RepoView>) -> Option<GithubRepoModel> {
    match view {
        Some(view) => Some(
            GithubRepoModel {
                name_with_owner: view.name_with_owner@,
                default_branch: match view.default_branch_ref {
                    Some(branch) => Some(branch.name@),
                    None => None,
                },
            },
        ),
        None => None,
    }
}

/// The repository that an answer tells of. `view` is the answer, nothing where
/// none came or it could not be read.
pub fn parse_repo(view: Option<RepoView>) -> (repo: Option<GithubRepo>)
    ensures
        optional_repo(repo) == told_repo(view),
{
    match view {
        Some(view) => Some(
            GithubRepo {
                name_with_owner: view.name_with_owner,
                default_branch: match view.default_branch_ref {
                    Some(branch) => Some(branch.name),
                    None => None,
                },
            },
        ),
        None => None,
    }
}

/// The references that an answer lists.
pub open spec fn told_refs(rows: Option<Vec<RefRow>>) -> Seq<(u64, Seq<char>)> {
    match rows {
        Some(rows) => Seq::new(rows@.len(), |i: int| (rows@[i].number, rows@[i].title@)),
        None => Seq::empty(),
    }
}

/// The references that an answer lists. `rows` is the answer, nothing where none
/// came or it could not be read; then the list is empty.
pub fn parse_refs(rows: Option<Vec<RefRow>>) -> (refs: Vec<GithubRef>)
    ensures
        ref_views(refs@) == told_refs(rows),
{
    let mut refs: Vec<GithubRef> = Vec::new();
    if let Some(rows) = rows {
        for row in iter: rows
            invariant
                iter.seq() == rows@,
                refs@.len() == iter.index(),
                forall|i: int|
                    0 <= i < refs@.len() ==> (#[trigger] refs@[i]).number == rows@[i].number
                        && refs@[i].title@ == rows@[i].title@,
        {
            refs.push(GithubRef { number: row.number, title: row.title });
        }
    }
    assert(ref_views(refs@) =~= told_refs(rows));
    refs
}

// ---------------------------------------------------------------------------
// The commands
// ---------------------------------------------------------------------------

/// The arguments that ask for the repository.
pub open spec fn repo_args() -> Seq<Seq<char>> {
    seq!["repo"@, "view"@, "--json"@, "nameWithOwner,defaultBranchRef"@]
}

/// The arguments that ask for a list of open things.
pub open spec fn list_args(kind: Seq<char>, limit: nat) -> Seq<Seq<char>> {
    seq![
        kind,
        "list"@,
        "--state"@,
        "open"@,
        "--limit"@,
        decimal_text(limit),
        "--json"@,
        "number,title"@,
    ]
}

/// The arguments that ask for the repository.
fn repo_command() -> (args: Vec<String>)
    ensures
        args.deep_view() == repo_args(),
{
    let mut args: Vec<String> = Vec::new();
    args.push("repo".to_owned());
    args.push("view".to_owned());
    args.push("--json".to_owned());
    args.push("nameWithOwner,defaultBranchRef".to_owned());
    assert(args.deep_view() =~= repo_args());
    args
}

/// The arguments that ask for a list of open things.
fn list_command(kind: &str, limit: usize) -> (args: Vec<String>)
    ensures
        args.deep_view() == list_args(kind@, limit as nat),
{
    let mut args: Vec<String> = Vec::new();
    args.push(kind.to_owned());
    args.push("list".to_owned());
    args.push("--state".to_owned());
    args.push("open".to_owned());
    args.push("--limit".to_owned());
    args.push(decimal(limit as u64));
    args.push("--json".to_owned());
    args.push("number,title".to_owned());
    assert(args.deep_view() =~= list_args(kind@, limit as nat));
    args
}

/// A snapshot in the making: `gh` is to be run for the repository.
#[derive(Debug, PartialEq, Eq)]
pub struct RepoQuery {
    gh: PathBuf,
    work_dir: PathBuf,
    args: Vec<String>,
    limit: usize,
}

/// A snapshot in the making: `gh` is to be run for the issues.
#[derive(Debug, PartialEq, Eq)]
pub struct IssueQuery {
    gh: PathBuf,
    work_dir: PathBuf,
    args: Vec<String>,
    limit: usize,
    repo: GithubRepo,
}

/// A snapshot in the making: `gh` is to be run for the pull requests.
#[derive(Debug, PartialEq, Eq)]
pub struct PullRequestQuery {
    gh: PathBuf,
    work_dir: PathBuf,
    args: Vec<String>,
    repo: GithubRepo,
    issues: Vec<GithubRef>,
}

/// Starts a snapshot. Without `gh` there is nothing to run.
pub fn fetch_github_context(gh: Option<PathBuf>, work_dir: PathBuf, limit: usize) -> (query: Result<
    RepoQuery,
    GithubContext,
>)
    ensures
        match gh {
            Some(gh) => {
                &&& query is Ok
                &&& query->Ok_0.program() == gh
                &&& query->Ok_0.directory() == work_dir
                &&& query->Ok_0.arguments() == repo_args()
                &&& query->Ok_0.requested() == limit
            },
            None => query is Err && query->Err_0@ == GithubContextModel::told(
                "GitHub CLI (`gh`) not found"@,
            ),
        },
{
    match gh {
        Some(gh) => Ok(RepoQuery { gh, work_dir, args: repo_command(), limit }),
        None => Err(GithubContext::degraded("GitHub CLI (`gh`) not found")),
    }
}

impl RepoQuery {
    /// The binary that is to be run.
    pub closed spec fn program(self) -> PathBuf {
        self.gh
    }

    /// The directory that it is to be run in.
    pub closed spec fn directory(self) -> PathBuf {
        self.work_dir
    }

    /// The arguments that it is to be run with.
    pub closed spec fn arguments(self) -> Seq<Seq<char>> {
        self.args.deep_view()
    }

    /// How many issues and pull requests are asked for.
    pub closed spec fn requested(self) -> usize {
        self.limit
    }

    /// The binary that is to be run.
    pub fn gh(&self) -> (gh: &PathBuf)
        ensures
            *gh == self.program(),
    {
        &self.gh
    }

    /// The directory that it is to be run in.
    pub fn work_dir(&self) -> (work_dir: &PathBuf)
        ensures
            *work_dir == self.directory(),
    {
        &self.work_dir
    }

    /// The arguments that it is to be run with.
    pub fn args(&self) -> (args: &Vec<String>)
        ensures
            args.deep_view() == self.arguments(),
    {
        &self.args
    }

    /// Goes on with the answer. Without a repository nothing more is run.
    pub fn answer(self, view: Option<RepoView>) -> (query: Result<IssueQuery, GithubContext>)
        ensures
            match told_repo(view) {
                Some(repo) => {
                    &&& query is Ok
                    &&& query->Ok_0.program() == self.program()
                    &&& query->Ok_0.directory() == self.directory()
                    &&& query->Ok_0.arguments() == list_args("issue"@, self.requested() as nat)
                    &&& query->Ok_0.requested() == self.requested()
                    &&& query->Ok_0.repository() == repo
                },
                None => query is Err && query->Err_0@ == GithubContextModel::told(
                    "No GitHub repository here, or `gh` is not authenticated"@,
                ),
            },
    {
        match parse_repo(view) {
            Some(repo) => {
                let args = list_command("issue", self.limit);
                Ok(
                    IssueQuery {
                        gh: self.gh,
                        work_dir: self.work_dir,
                        args,
                        limit: self.limit,
                        repo,
                    },
                )
            },
            None => Err(
                GithubContext::degraded("No GitHub repository here, or `gh` is not authenticated"),
            ),
        }
    }
}

impl IssueQuery {
    /// The binary that is to be run.
    pub closed spec fn program(self) -> PathBuf {
        self.gh
    }

    /// The directory that it is to be run in.
    pub closed spec fn directory(self) -> PathBuf {
        self.work_dir
    }

    /// The arguments that it is to be run with.
    pub closed spec fn arguments(self) -> Seq<Seq<char>> {
        self.args.deep_view()
    }

    /// How many issues and pull requests are asked for.
    pub closed spec fn requested(self) -> usize {
        self.limit
    }

    /// The repository that was found.
    pub closed spec fn repository(self) -> GithubRepoModel {
        self.repo@
    }

    /// The binary that is to be run.
    pub fn gh(&self) -> (gh: &PathBuf)
        ensures
            *gh == self.program(),
    {
        &self.gh
    }

    /// The directory that it is to be run in.
    pub fn work_dir(&self) -> (work_dir: &PathBuf)
        ensures
            *work_dir == self.directory(),
    {
        &self.work_dir
    }

    /// The arguments that it is to be run with.
    pub fn args(&self) -> (args: &Vec<String>)
        ensures
            args.deep_view() == self.arguments(),
    {
        &self.args
    }

    /// Goes on with the answer. Without one there are no issues.
    pub fn answer(self, rows: Option<Vec<RefRow>>) -> (query: PullRequestQuery)
        ensures
            query.program() == self.program(),
            query.directory() == self.directory(),
            query.arguments() == list_args("pr"@, self.requested() as nat),
            query.repository() == self.repository(),
            query.listed_issues() == told_refs(rows),
    {
        let args = list_command("pr", self.limit);
        PullRequestQuery {
            gh: self.gh,
            work_dir: self.work_dir,
            args,
            repo: self.repo,
            issues: parse_refs(rows),
        }
    }
}

impl PullRequestQuery {
    /// The binary that is to be run.
    pub closed spec fn program(self) -> PathBuf {
        self.gh
    }

    /// The directory that it is to be run in.
    pub closed spec fn directory(self) -> PathBuf {
        self.work_dir
    }

    /// The arguments that it is to be run with.
    pub closed spec fn arguments(self) -> Seq<Seq<char>> {
        self.args.deep_view()
    }

    /// The repository that was found.
    pub closed spec fn repository(self) -> GithubRepoModel {
        self.repo@
    }

    /// The issues that were listed.
    pub closed spec fn listed_issues(self) -> Seq<(u64, Seq<char>)> {
        ref_views(self.issues@)
    }

    /// The binary that is to be run.
    pub fn gh(&self) -> (gh: &PathBuf)
        ensures
            *gh == self.program(),
    {
        &self.gh
    }

    /// The directory that it is to be run in.
    pub fn work_dir(&self) -> (work_dir: &PathBuf)
        ensures
            *work_dir == self.directory(),
    {
        &self.work_dir
    }

    /// The arguments that it is to be run with.
    pub fn args(&self) -> (args: &Vec<String>)
        ensures
            args.deep_view() == self.arguments(),
    {
        &self.args
    }

    /// Ends with the answer. Without one there are no pull requests.
    pub fn answer(self, rows: Option<Vec<RefRow>>) -> (context: GithubContext)
        ensures
            context@ == (GithubContextModel {
                available: true,
                status: None,
                repo: Some(self.repository()),
                issues: self.listed_issues(),
                pull_requests: told_refs(rows),
            }),
    {
        let pull_requests = parse_refs(rows);
        GithubContext {
            available: true,
            status: None,
            repo: Some(self.repo),
            issues: self.issues,
            pull_requests,
        }
    }
}

/// The verbs with which `gh` changes something.
pub open spec fn is_mutating_verb(word: Seq<char>) -> bool {
    ||| word == "create"@
    ||| word == "edit"@
    ||| word == "comment"@
    ||| word == "close"@
    ||| word == "merge"@
    ||| word == "delete"@
    ||| word == "reopen"@
    ||| word == "lock"@
    ||| word == "transfer"@
    ||| word == "ready"@
    ||| word == "review"@
}

/// Commands that only read: none of their words is a verb that changes something,
/// and they begin with one of the three that are meant.
pub open spec fn is_read_only(args: Seq<Seq<char>>) -> bool {
    &&& args.len() >= 2
    &&& (args[0] == "repo"@ && args[1] == "view"@) || (args[0] == "issue"@ && args[1] == "list"@)
        || (args[0] == "pr"@ && args[1] == "list"@)
    &&& forall|i: int| 0 <= i < args.len() ==> !is_mutating_verb(#[trigger] args[i])
}

/// Whatever the limit, the commands that are run only read.
pub proof fn commands_only_read(limit: nat)
    ensures
        is_read_only(repo_args()),
        is_read_only(list_args("issue"@, limit)),
        is_read_only(list_args("pr"@, limit)),
{
    reveal_strlit("create");
    reveal_strlit("edit");
    reveal_strlit("comment");
    reveal_strlit("close");
    reveal_strlit("merge");
    reveal_strlit("delete");
    reveal_strlit("reopen");
    reveal_strlit("lock");
    reveal_strlit("transfer");
    reveal_strlit("ready");
    reveal_strlit("review");
    reveal_strlit("repo");
    reveal_strlit("view");
    reveal_strlit("issue");
    reveal_strlit("pr");
    reveal_strlit("list");
    reveal_strlit("--state");
    reveal_strlit("open");
    reveal_strlit("--limit");
    reveal_strlit("--json");
    reveal_strlit("number,title");
    reveal_strlit("nameWithOwner,defaultBranchRef");
    decimal_text_is_digits(limit);
    let number = decimal_text(limit);
    assert('0' <= number[0] <= '9');
    assert("issue"@[0] == 'i' && "list"@[0] == 'l' && "list"@[1] == 'i' && "open"@[0] == 'o');
    assert("repo"@[0] == 'r' && "repo"@.len() == 4 && "view"@[0] == 'v');
    assert("create"@[0] == 'c' && "edit"@[0] == 'e' && "comment"@[0] == 'c' && "close"@[0] == 'c');
    assert("merge"@[0] == 'm' && "delete"@[0] == 'd' && "reopen"@[0] == 'r' && "lock"@[0] == 'l');
    assert("lock"@[1] == 'o' && "transfer"@[0] == 't' && "ready"@[0] == 'r');
    assert("review"@[0] == 'r' && "--state"@[0] == '-' && "--limit"@[0] == '-');
    assert("--json"@[0] == '-' && "number,title"@[0] == 'n');
    assert("nameWithOwner,defaultBranchRef"@[0] == 'n' && "pr"@[0] == 'p');
}

/// A snapshot that is not available is summed up by its status, whatever else it
/// holds.
pub proof fn unavailable_snapshots_tell_their_status(context: GithubContextModel)
    requires
        !context.available,
    ensures
        context.summary() == context.status_or_fallback(),
        context.status is Some ==> context.summary() == context.status->0,
{
}

/// A snapshot without a repository shows no issues and no pull requests, and
/// tells why.
pub proof fn degraded_snapshots_are_empty(status: Seq<char>)
    ensures
        ({
            let context = GithubContextModel::told(status);
            &&& !context.available
            &&& context.repo is None
            &&& context.issues.len() == 0
            &&& context.pull_requests.len() == 0
            &&& context.summary() == status
        }),
{
}

// ---------------------------------------------------------------------------
// What the snapshot tells
// ---------------------------------------------------------------------------

/// A snapshot that is available is summed up by its repository, the number of its
/// issues and the number of its pull requests, in this order.
pub proof fn the_summary_counts_issues_and_pull_requests(context: GithubContextModel)
    requires
        context.available,
        context.repo is Some,
    ensures
        ({
            let issues = if context.issues.len() == 1 {
                "1 open issue"@
            } else {
                decimal_text(context.issues.len()) + " open issues"@
            };
            let pull_requests = if context.pull_requests.len() == 1 {
                "1 open PR"@
            } else {
                decimal_text(context.pull_requests.len()) + " open PRs"@
            };
            context.summary() == context.repo->0.name_with_owner + " · "@ + issues + " · "@
                + pull_requests
        }),
{
    reveal_strlit("1 open ");
    reveal_strlit("1 open issue");
    reveal_strlit("1 open PR");
    reveal_strlit(" open ");
    reveal_strlit(" open issues");
    reveal_strlit(" open PRs");
    reveal_strlit("issue");
    reveal_strlit("PR");
    reveal_strlit("s");
    let issues = context.issues.len();
    let pull_requests = context.pull_requests.len();
    assert("1 open "@ + "issue"@ =~= "1 open issue"@);
    assert("1 open "@ + "PR"@ =~= "1 open PR"@);
    assert(" open "@ + "issue"@ + "s"@ =~= " open issues"@);
    assert(" open "@ + "PR"@ + "s"@ =~= " open PRs"@);
    assert(decimal_text(issues) + " open "@ + "issue"@ + "s"@ =~= decimal_text(issues)
        + " open issues"@);
    assert(decimal_text(pull_requests) + " open "@ + "PR"@ + "s"@ =~= decimal_text(pull_requests)
        + " open PRs"@);
}

/// Different counts of the same thing are told differently.
pub proof fn open_counts_differ(left: nat, right: nat, noun: Seq<char>)
    requires
        open_count(left, noun) == open_count(right, noun),
    ensures
        left == right,
{
    reveal_strlit("1 open ");
    reveal_strlit(" open ");
    reveal_strlit("s");
    decimal_text_is_digits(left);
    decimal_text_is_digits(right);
    assert("1 open "@.len() == 7 && " open "@.len() == 6 && "s"@.len() == 1);
    assert(left != 1 ==> open_count(left, noun).len() >= 8 + noun.len());
    assert(right != 1 ==> open_count(right, noun).len() >= 8 + noun.len());
    if left != 1 && right != 1 {
        let end = " open "@ + noun + "s"@;
        assert(open_count(left, noun) =~= Seq::<char>::empty() + decimal_text(left) + end);
        assert(open_count(right, noun) =~= Seq::<char>::empty() + decimal_text(right) + end);
        what_stands_between_is_equal(Seq::empty(), decimal_text(left), decimal_text(right), end);
        decimal_text_is_injective(left, right);
    }
}

/// Two snapshots of a repository that differ in the number of their issues alone, or
/// in that of their pull requests alone, are summed up differently.
pub proof fn summaries_tell_snapshots_apart(
    left: GithubContextModel,
    right: GithubContextModel,
)
    requires
        left.available && right.available,
        left.repo is Some && left.repo == right.repo,
        left.summary() == right.summary(),
        left.issues.len() == right.issues.len() || left.pull_requests.len()
            == right.pull_requests.len(),
    ensures
        left.issues.len() == right.issues.len(),
        left.pull_requests.len() == right.pull_requests.len(),
{
    let start = left.repo->0.name_with_owner + " · "@;
    let issues = open_count(left.issues.len(), "issue"@);
    let pull_requests = open_count(left.pull_requests.len(), "PR"@);
    let other_issues = open_count(right.issues.len(), "issue"@);
    let other_pull_requests = open_count(right.pull_requests.len(), "PR"@);
    if left.pull_requests.len() == right.pull_requests.len() {
        let end = " · "@ + pull_requests;
        assert(left.summary() =~= start + issues + end);
        assert(right.summary() =~= start + other_issues + end);
        what_stands_between_is_equal(start, issues, other_issues, end);
        open_counts_differ(left.issues.len(), right.issues.len(), "issue"@);
    } else {
        let before = start + issues + " · "@;
        assert(left.summary() =~= before + pull_requests + Seq::<char>::empty());
        assert(right.summary() =~= before + other_pull_requests + Seq::<char>::empty());
        what_stands_between_is_equal(
            before,
            pull_requests,
            other_pull_requests,
            Seq::empty(),
        );
        open_counts_differ(left.pull_requests.len(), right.pull_requests.len(), "PR"@);
    }
}

/// A snapshot that is not available, or has no repository, is summed up by its
/// status, or by a text of its own where it has none.
pub proof fn without_a_repository_the_status_is_told(context: GithubContextModel)
    requires
        !context.available || context.repo is None,
    ensures
        context.status matches Some(status) ==> context.summary() == status,
        context.status is None ==> context.summary() == "GitHub context unavailable"@,
{
}

/// `gh` is looked for on the search path first, and then where tools are usually
/// installed.
pub proof fn gh_is_looked_for_on_the_search_path_first(
    search_path: Seq<PathBuf>,
    home: PathBuf,
    i: int,
)
    ensures
        ({
            let dirs = gh_dirs(search_path, Some(home));
            let count = search_path.len() as int;
            &&& dirs.len() == count + 3
            &&& 0 <= i < count ==> dirs[i] == search_path[i]
            &&& dirs[count] == text_path("/opt/homebrew/bin"@)
            &&& dirs[count + 1] == text_path("/usr/local/bin"@)
            &&& dirs[count + 2] == joined_path(home, text_path(".local/bin"@))
            &&& gh_dirs(search_path, None) == dirs.drop_last()
        }),
{
    assert(gh_dirs(search_path, None) =~= gh_dirs(search_path, Some(home)).drop_last());
}

/// A given `gh` is run where it is there, and nothing in its place where it is not;
/// where none is given, the first candidate that is there is run.
pub proof fn a_given_gh_is_not_replaced(
    given: ProbedPath,
    candidates: Seq<ProbedPath>,
    i: int,
)
    ensures
        given.exists ==> chosen_gh(Some(given), candidates) == Some(given.path),
        !given.exists ==> chosen_gh(Some(given), candidates) is None,
        (forall|j: int| 0 <= j < candidates.len() ==> !(#[trigger] candidates[j]).exists)
            ==> chosen_gh(None, candidates) is None,
        0 <= i < candidates.len() && candidates[i].exists && (forall|j: int|
            0 <= j < i ==> !(#[trigger] candidates[j]).exists) ==> chosen_gh(None, candidates)
            == Some(candidates[i].path),
{
    crate::discovery::the_first_that_exists_is_found(candidates);
    the_named_binary_is_launched(given.path, candidates, i);
}

/// What `gh` tells of a repository is taken over: its name, and its branch where it
/// has one.
pub proof fn repositories_are_taken_over(view: RepoView)
    ensures
        told_repo(None) is None,
        told_repo(Some(view)) matches Some(repo) && {
            &&& repo.name_with_owner == view.name_with_owner@
            &&& view.default_branch_ref is None ==> repo.default_branch is None
            &&& view.default_branch_ref matches Some(branch) ==> repo.default_branch == Some(
                branch.name@,
            )
        },
{
}

/// What `gh` lists is taken over, each with its number and its title and in the same
/// order; without a list there is nothing.
pub proof fn lists_are_taken_over(rows: Vec<RefRow>, i: int)
    ensures
        told_refs(None).len() == 0,
        told_refs(Some(rows)).len() == rows@.len(),
        0 <= i < rows@.len() ==> told_refs(Some(rows))[i] == (rows@[i].number, rows@[i].title@),
{
}

/// The repository is asked for by its name and its branch, and a list by its kind:
/// what is open, no more than the limit, with numbers and titles.
pub proof fn gh_is_asked_for_what_is_shown(kind: Seq<char>, limit: nat)
    ensures
        repo_args().len() == 4,
        repo_args()[0] == "repo"@ && repo_args()[1] == "view"@,
        repo_args()[2] == "--json"@ && repo_args()[3] == "nameWithOwner,defaultBranchRef"@,
        list_args(kind, limit).len() == 8,
        list_args(kind, limit)[0] == kind && list_args(kind, limit)[1] == "list"@,
        list_args(kind, limit)[2] == "--state"@ && list_args(kind, limit)[3] == "open"@,
        list_args(kind, limit)[4] == "--limit"@,
        crate::text::digits_value(list_args(kind, limit)[5]) == limit,
        list_args(kind, limit)[6] == "--json"@ && list_args(kind, limit)[7] == "number,title"@,
{
    crate::text::decimal_text_reads_back(limit);
}

/// Snapshots stand for what they hold.
pub proof fn snapshots_stand_for_what_they_hold(
    context: GithubContext,
    repo: GithubRepo,
    refs: Seq<GithubRef>,
    i: int,
)
    ensures
        context@.available == context.available,
        context@.status == context.status.deep_view(),
        context@.repo is Some <==> context.repo is Some,
        context.repo matches Some(held) ==> context@.repo == Some(held@),
        context@.issues == ref_views(context.issues@),
        context@.pull_requests == ref_views(context.pull_requests@),
        repo@.name_with_owner == repo.name_with_owner@,
        repo@.default_branch == repo.default_branch.deep_view(),
        optional_repo(None) is None,
        optional_repo(Some(repo)) == Some(repo@),
        ref_views(refs).len() == refs.len(),
        0 <= i < refs.len() ==> ref_views(refs)[i] == (refs[i].number, refs[i].title@),
{
}

} // verus!
