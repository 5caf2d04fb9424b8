use gitprompt::status::{any_files_changed, any_untracked_files, head_summary, state_label, summarize};
use gitprompt::{not_repo_label, prompt_line, DirPath, DirectoryContext, Head, RepoDir, RepoState, ZshOutput};

fn comps(names: &[&str]) -> Vec<Option<String>> {
    names.iter().map(|n| Some(n.to_string())).collect()
}

fn dir(names: &[&str]) -> DirPath {
    DirPath { components: comps(names), is_dir: true }
}

fn ctx_in_repo(cwd: &[&str], root: &[&str]) -> DirectoryContext {
    DirectoryContext {
        path: dir(cwd),
        repository: Some(RepoDir { workdir: Some(dir(root)) }),
    }
}

#[test]
fn markup_plain_text() {
    let out = ZshOutput::new("main");
    assert_eq!(out.output(), "main");
    assert!(!out.is_bold);
    assert!(out.color.is_none());
}

#[test]
fn markup_colored() {
    let mut out = ZshOutput::new("main");
    out.set_color("blue");
    assert_eq!(out.output(), "%F{blue}main%f");
}

#[test]
fn markup_bold_and_colored() {
    let mut out = ZshOutput::new("(not repo)");
    out.set_color("blue");
    out.make_bold();
    assert_eq!(out.output(), "%B%F{blue}(not repo)%f%b");
}

#[test]
fn markup_bold_only() {
    let mut out = ZshOutput::new("x");
    out.make_bold();
    assert_eq!(out.output(), "%Bx%b");
}

#[test]
fn no_repository_label_is_directory_short_name() {
    let ctx = DirectoryContext { path: dir(&["home", "user", "notes"]), repository: None };
    let line = prompt_line(&ctx, &None);
    assert_eq!(line, "notes %B%F{blue}(not repo)%f%b ");
}

#[test]
fn no_repository_undecodable_name_gives_empty_label() {
    let ctx = DirectoryContext {
        path: DirPath {
            components: vec![Some("home".to_string()), None],
            is_dir: true,
        },
        repository: None,
    };
    let line = prompt_line(&ctx, &None);
    assert_eq!(line, " %B%F{blue}(not repo)%f%b ");
}

#[test]
fn no_repository_missing_directory_gives_empty_label() {
    let ctx = DirectoryContext {
        path: DirPath { components: comps(&["home", "gone"]), is_dir: false },
        repository: None,
    };
    let line = prompt_line(&ctx, &None);
    assert_eq!(line, " %B%F{blue}(not repo)%f%b ");
}

#[test]
fn clean_repository_on_main_is_blue() {
    let status = summarize(
        &RepoState::Clean,
        &Head::Branch(Some("main".to_string())),
        Some(0),
        Some(false),
    );
    assert_eq!(status.output(), "%F{blue}main%f");
    let ctx = ctx_in_repo(&["home", "user", "repo"], &["home", "user", "repo"]);
    let line = prompt_line(&ctx, &Some(status));
    assert_eq!(line, "repo %F{blue}main%f ");
}

#[test]
fn modified_repository_on_main_is_red_starred() {
    let status = summarize(
        &RepoState::Clean,
        &Head::Branch(Some("main".to_string())),
        Some(2),
        Some(false),
    );
    assert_eq!(status.output(), "%F{red}main*%f");
}

#[test]
fn untracked_only_repository_is_red_starred() {
    let status = summarize(
        &RepoState::Clean,
        &Head::Branch(Some("main".to_string())),
        Some(0),
        Some(true),
    );
    assert_eq!(status.output(), "%F{red}main*%f");
}

#[test]
fn failed_scans_count_as_clean() {
    let status = summarize(
        &RepoState::Clean,
        &Head::Branch(Some("main".to_string())),
        None,
        None,
    );
    assert_eq!(status.output(), "%F{blue}main%f");
}

#[test]
fn rebasing_is_magenta_whatever_the_tree_looks_like() {
    for state in [RepoState::Rebase, RepoState::RebaseInteractive, RepoState::RebaseMerge] {
        let status = summarize(
            &state,
            &Head::Branch(Some("main".to_string())),
            Some(7),
            Some(true),
        );
        assert_eq!(status.output(), "%F{magenta}(rebasing)%f");
        assert!(!status.is_bold);
    }
}

#[test]
fn every_unclean_state_has_its_fixed_label() {
    let cases: [(RepoState, &str); 11] = [
        (RepoState::Merge, "(merging)"),
        (RepoState::Revert, "(reverting)"),
        (RepoState::RevertSequence, "(reverting)"),
        (RepoState::CherryPick, "(cherry-picking)"),
        (RepoState::CherryPickSequence, "(cherry-picking)"),
        (RepoState::Bisect, "(bisecting)"),
        (RepoState::Rebase, "(rebasing)"),
        (RepoState::RebaseInteractive, "(rebasing)"),
        (RepoState::RebaseMerge, "(rebasing)"),
        (RepoState::ApplyMailbox, "(mailbox-applying)"),
        (RepoState::ApplyMailboxOrRebase, "(mailbox-applying)"),
    ];
    for (state, text) in cases {
        let label = state_label(&state).expect("an unclean state has a fixed label");
        assert_eq!(label.output(), format!("%F{{magenta}}{}%f", text));
    }
    assert!(state_label(&RepoState::Clean).is_none());
}

#[test]
fn no_commits_yet_is_yellow() {
    let status = summarize(&RepoState::Clean, &Head::Unborn, Some(3), Some(true));
    assert_eq!(status.output(), "%F{yellow}(no commits yet)%f");
}

#[test]
fn output_is_identical_across_two_runs() {
    let ctx = ctx_in_repo(&["home", "user", "repo", "sub"], &["home", "user", "repo"]);
    let status = summarize(
        &RepoState::Clean,
        &Head::Branch(Some("main".to_string())),
        Some(1),
        Some(false),
    );
    let first = prompt_line(&ctx, &Some(status));
    let ctx_again = ctx_in_repo(&["home", "user", "repo", "sub"], &["home", "user", "repo"]);
    let status_again = summarize(
        &RepoState::Clean,
        &Head::Branch(Some("main".to_string())),
        Some(1),
        Some(false),
    );
    let second = prompt_line(&ctx_again, &Some(status_again));
    assert_eq!(first, second);
}

#[test]
fn subdirectory_label_is_root_name_plus_relative_path() {
    let ctx = ctx_in_repo(&["home", "user", "repo", "sub", "dir"], &["home", "user", "repo"]);
    let label = ctx.path_summary().expect("a label");
    assert_eq!(label, "repo/sub/dir");
}

#[test]
fn root_of_repository_shows_short_name_only() {
    let ctx = ctx_in_repo(&["home", "user", "repo"], &["home", "user", "repo"]);
    let label = ctx.path_summary().expect("a label");
    assert_eq!(label, "repo");
}

#[test]
fn relativization_failure_omits_the_trailing_segment() {
    let ctx = ctx_in_repo(&["elsewhere", "dir"], &["home", "user", "repo"]);
    let label = ctx.path_summary().expect("a label");
    assert_eq!(label, "repo/");
}

#[test]
fn undecodable_relative_segment_is_omitted() {
    let mut cwd = comps(&["home", "user", "repo", "sub"]);
    cwd.push(None);
    let ctx = DirectoryContext {
        path: DirPath { components: cwd, is_dir: true },
        repository: Some(RepoDir { workdir: Some(dir(&["home", "user", "repo"])) }),
    };
    let label = ctx.path_summary().expect("a label");
    assert_eq!(label, "repo/");
}

#[test]
fn bare_repository_has_no_directory_label() {
    let ctx = DirectoryContext {
        path: dir(&["home", "user", "somewhere"]),
        repository: Some(RepoDir { workdir: None }),
    };
    assert!(ctx.path_summary().is_none());
}

#[test]
fn detached_head_shows_the_commit_identifier() {
    let id = "0123456789abcdef0123456789abcdef01234567";
    let status = summarize(
        &RepoState::Clean,
        &Head::Detached(id.to_string()),
        Some(0),
        Some(false),
    );
    assert_eq!(status.output(), format!("%F{{blue}}{}%f", id));
}

#[test]
fn branch_without_a_text_name_gets_the_fallback() {
    let status = head_summary(&Head::Branch(None), false);
    assert_eq!(status.output(), "%F{blue}(unknown branch)%f");
}

#[test]
fn dirtiness_defaults() {
    assert!(!any_files_changed(None));
    assert!(!any_files_changed(Some(0)));
    assert!(any_files_changed(Some(1)));
    assert!(!any_untracked_files(None));
    assert!(!any_untracked_files(Some(false)));
    assert!(any_untracked_files(Some(true)));
}

#[test]
fn not_repo_label_renders_bold_blue() {
    assert_eq!(not_repo_label().output(), "%B%F{blue}(not repo)%f%b");
}

#[test]
fn short_name_rules() {
    let ctx = DirectoryContext { path: dir(&["a"]), repository: None };
    assert_eq!(ctx.directory_short_name(&dir(&["a", "b"])), Some("b".to_string()));
    assert_eq!(ctx.directory_short_name(&dir(&[])), None);
    assert_eq!(
        ctx.directory_short_name(&DirPath { components: comps(&["a"]), is_dir: false }),
        None
    );
}

#[test]
fn paths_match_requires_a_workdir() {
    let ctx = DirectoryContext { path: dir(&["a"]), repository: None };
    assert!(!ctx.paths_match(None, &dir(&["a"])));
    assert!(ctx.paths_match(Some(&dir(&["a"])), &dir(&["a"])));
    assert!(!ctx.paths_match(Some(&dir(&["a", "b"])), &dir(&["a"])));
}
