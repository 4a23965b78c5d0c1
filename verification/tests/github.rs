use std::path::PathBuf;

use omp::discovery::ProbedPath;
use omp::github::{
    count_label, fetch_github_context, gh_candidates, parse_refs, parse_repo, resolve_gh_binary,
    BranchRef, GithubContext, GithubRef, GithubRepo, RefRow, RepoView, DEFAULT_LIMIT,
};
use omp::github_view::{GithubContextView, GithubControl, GithubLoad, GithubPanel};
use omp::ui::{Color, Icon, IconName, LabelSize};

fn reference(number: u64, title: &str) -> GithubRef {
    GithubRef { number, title: title.to_string() }
}

fn row(number: u64, title: &str) -> RefRow {
    RefRow { number, title: title.to_string() }
}

fn demo() -> RepoView {
    RepoView {
        name_with_owner: "octo/demo".to_string(),
        default_branch_ref: Some(BranchRef { name: "main".to_string() }),
    }
}

fn fetched() -> (GithubContext, Vec<String>) {
    let mut recorded = Vec::new();
    let work_dir = PathBuf::from("/w");
    let query =
        fetch_github_context(Some(PathBuf::from("/bin/gh")), work_dir.clone(), DEFAULT_LIMIT)
            .expect("`gh` is there");
    assert_eq!(query.gh(), &PathBuf::from("/bin/gh"));
    assert_eq!(query.work_dir(), &work_dir);
    recorded.push(query.args().join(" "));
    let query = query.answer(Some(demo())).expect("a repository");
    assert_eq!(query.gh(), &PathBuf::from("/bin/gh"));
    assert_eq!(query.work_dir(), &work_dir);
    recorded.push(query.args().join(" "));
    let query = query.answer(Some(vec![row(7, "Fix the bug"), row(9, "Add a feature")]));
    assert_eq!(query.gh(), &PathBuf::from("/bin/gh"));
    assert_eq!(query.work_dir(), &work_dir);
    recorded.push(query.args().join(" "));
    (query.answer(Some(vec![row(12, "Implement bridge")])), recorded)
}

#[test]
fn fetch_parses_repo_issues_and_prs() {
    let (ctx, _) = fetched();
    assert!(ctx.available);
    assert_eq!(ctx.status, None);
    let repo = ctx.repo.as_ref().expect("repo resolved");
    assert_eq!(repo.name_with_owner, "octo/demo");
    assert_eq!(repo.default_branch.as_deref(), Some("main"));
    assert_eq!(
        ctx.issues,
        vec![reference(7, "Fix the bug"), reference(9, "Add a feature")]
    );
    assert_eq!(ctx.pull_requests, vec![reference(12, "Implement bridge")]);
    assert_eq!(ctx.summary_label(), "octo/demo · 2 open issues · 1 open PR");
}

#[test]
fn no_repo_fails_closed_to_degraded() {
    let query = fetch_github_context(
        Some(PathBuf::from("/bin/gh")),
        PathBuf::from("/w"),
        DEFAULT_LIMIT,
    )
    .expect("`gh` is there");
    assert_eq!(
        query.args().join(" "),
        "repo view --json nameWithOwner,defaultBranchRef"
    );
    let ctx = query.answer(None).expect_err("no repository");
    assert!(!ctx.available);
    assert!(ctx.repo.is_none());
    assert!(ctx.issues.is_empty());
    assert!(ctx.pull_requests.is_empty());
    let summary = ctx.summary_label();
    let status = ctx.status.expect("degraded status");
    assert_eq!(summary, status);
    assert_eq!(status, "No GitHub repository here, or `gh` is not authenticated");
}

#[test]
fn missing_gh_degrades() {
    let missing = ProbedPath { path: PathBuf::from("does-not-exist-gh"), exists: false };
    let present = vec![ProbedPath { path: PathBuf::from("/bin/gh"), exists: true }];
    let gh = resolve_gh_binary(Some(missing), &present);
    assert_eq!(gh, None);
    let ctx =
        fetch_github_context(gh, PathBuf::from("/w"), DEFAULT_LIMIT).expect_err("no `gh`");
    assert!(!ctx.available);
    assert!(ctx.repo.is_none());
    assert!(ctx.status.is_some());
    assert_eq!(ctx.summary_label(), "GitHub CLI (`gh`) not found");
}

#[test]
fn only_read_only_subcommands_are_invoked() {
    let (_, recorded) = fetched();
    assert_eq!(recorded.len(), 3);
    let recorded = recorded.join("\n");
    assert!(recorded.contains("repo view"));
    assert!(recorded.contains("issue list --state open"));
    assert!(recorded.contains("pr list --state open"));
    for forbidden in [
        "create", "edit", "comment", "close", "merge", "delete", "reopen", "lock", "transfer",
        "ready", "review",
    ] {
        assert!(
            !recorded.contains(forbidden),
            "read-only invariant violated: `gh` argv contained `{forbidden}`:\n{recorded}"
        );
    }
    assert!(recorded.contains("issue list --state open --limit 10 --json number,title"));
}

#[test]
fn summary_label_singular_and_zero() {
    let ctx = GithubContext {
        available: true,
        status: None,
        repo: Some(GithubRepo {
            name_with_owner: "octo/demo".to_string(),
            default_branch: None,
        }),
        issues: vec![reference(1, "only")],
        pull_requests: Vec::new(),
    };
    assert_eq!(ctx.summary_label(), "octo/demo · 1 open issue · 0 open PRs");
}

#[test]
fn degraded_summary_uses_status() {
    let ctx = GithubContext::degraded("nope");
    assert_eq!(ctx.summary_label(), "nope");
}

#[test]
fn unavailable_snapshots_tell_their_status() {
    let (mut ctx, _) = fetched();
    ctx.available = false;
    assert_eq!(ctx.summary_label(), "GitHub context unavailable");
    ctx.status = Some("stale".to_string());
    assert_eq!(ctx.summary_label(), "stale");
}

#[test]
fn a_snapshot_without_status_is_unavailable() {
    assert_eq!(GithubContext::default().summary_label(), "GitHub context unavailable");
    assert_eq!(count_label(1, "issue"), "1 open issue");
    assert_eq!(count_label(0, "PR"), "0 open PRs");
}

#[test]
fn failed_lists_are_empty() {
    let query = fetch_github_context(Some(PathBuf::from("/bin/gh")), PathBuf::from("/w"), 3)
        .expect("`gh` is there");
    let query = query.answer(Some(demo())).expect("a repository");
    assert!(query.args().contains(&"3".to_string()));
    let ctx = query.answer(None).answer(None);
    assert!(ctx.available);
    assert!(ctx.issues.is_empty());
    assert!(ctx.pull_requests.is_empty());
    assert!(parse_refs(None).is_empty());
    assert_eq!(parse_repo(None), None);
    assert_eq!(
        parse_repo(Some(RepoView {
            name_with_owner: "a/b".to_string(),
            default_branch_ref: None
        })),
        Some(GithubRepo { name_with_owner: "a/b".to_string(), default_branch: None })
    );
}

#[test]
fn gh_is_looked_for_in_order() {
    let home = PathBuf::from("/home/ada");
    assert_eq!(
        gh_candidates(vec![PathBuf::from("/usr/bin")], Some(&home)),
        vec![
            PathBuf::from("/usr/bin/gh"),
            PathBuf::from("/opt/homebrew/bin/gh"),
            PathBuf::from("/usr/local/bin/gh"),
            PathBuf::from("/home/ada/.local/bin/gh"),
        ]
    );
    let candidates = vec![
        ProbedPath { path: PathBuf::from("/a/gh"), exists: false },
        ProbedPath { path: PathBuf::from("/b/gh"), exists: true },
    ];
    assert_eq!(resolve_gh_binary(None, &candidates), Some(PathBuf::from("/b/gh")));
}

#[test]
fn ref_label_formats_number_and_title() {
    assert_eq!(
        GithubContextView::ref_label(&reference(42, "Fix it")),
        "#42 Fix it"
    );
}

#[test]
fn expandable_only_when_available_with_rows() {
    let repo = GithubRepo {
        name_with_owner: "octo/demo".to_string(),
        default_branch: None,
    };
    let with_rows = GithubContext {
        available: true,
        status: None,
        repo: Some(repo.clone()),
        issues: vec![reference(1, "a")],
        pull_requests: Vec::new(),
    };
    assert!(GithubContextView::is_expandable(&with_rows));

    let available_but_empty = GithubContext {
        available: true,
        status: None,
        repo: Some(repo),
        issues: Vec::new(),
        pull_requests: Vec::new(),
    };
    assert!(!GithubContextView::is_expandable(&available_but_empty));

    assert!(!GithubContextView::is_expandable(&GithubContext::default()));
}

#[test]
fn the_github_panel_opens_its_lists() {
    let (mut panel, load) = GithubContextView::new(4, Some(PathBuf::from("/w")));
    assert_eq!(panel.thread(), 4);
    assert_eq!(load, GithubLoad::Fetch(PathBuf::from("/w"), 10));
    match panel.render() {
        GithubPanel::Loading(label) => {
            assert_eq!(label.text, "Loading GitHub context…");
            assert_eq!(label.color, Color::Muted);
            assert_eq!(label.size, LabelSize::Small);
        }
        other => panic!("unexpected {:?}", other),
    }
    panel.loaded(fetched().0);
    match panel.render() {
        GithubPanel::Loaded(shown) => {
            let toggle = shown.toggle.expect("a toggle");
            assert_eq!(toggle.id, "github-context-toggle");
            assert_eq!(toggle.icon, IconName::ChevronRight);
            assert_eq!(shown.icon, Icon { name: IconName::Github, color: Color::Default });
            assert_eq!(shown.summary.text, "octo/demo · 2 open issues · 1 open PR");
            assert!(shown.sections.is_empty());
        }
        other => panic!("unexpected {:?}", other),
    }
    panel.press(GithubControl::Toggle);
    match panel.render() {
        GithubPanel::Loaded(shown) => {
            assert_eq!(shown.toggle.expect("a toggle").icon, IconName::ChevronDown);
            assert_eq!(shown.sections.len(), 2);
            assert_eq!(shown.sections[0].title.text, "Open issues");
            assert_eq!(shown.sections[0].rows[1].text, "#9 Add a feature");
            assert_eq!(shown.sections[1].title.text, "Open pull requests");
        }
        other => panic!("unexpected {:?}", other),
    }
}

#[test]
fn a_degraded_github_panel_stays_closed() {
    let (mut panel, load) = GithubContextView::new(1, None);
    assert_eq!(load, GithubLoad::Empty(GithubContext::default()));
    panel.loaded(GithubContext::degraded("nope"));
    panel.toggle_expanded();
    match panel.render() {
        GithubPanel::Loaded(shown) => {
            assert_eq!(shown.toggle, None);
            assert_eq!(shown.summary.text, "nope");
            assert_eq!(shown.summary.color, Color::Muted);
            assert!(shown.sections.is_empty());
        }
        other => panic!("unexpected {:?}", other),
    }
}
