use mood::error::AppError;
use mood::services::git::{
    pick_time_text, CommitPlan, GitCommitInfo, GitService, HeadCommit, HeadRef, IgnoreFile, RawCommit,
    Signer, Staged,
};

fn ledger() -> GitService {
    GitService::new("repo".to_string())
}

fn staged(tree: &str) -> Staged {
    Staged { tree: tree.to_string(), is_empty: false }
}

fn bot() -> Signer {
    Signer { name: "kawaii-mood-bot".to_string(), email: "moodbot@local".to_string() }
}

#[test]
fn ledger_knows_its_root_and_subtree() {
    assert_eq!(ledger().root(), "repo");
    assert_eq!(ledger().git_dir(), "repo/.git");
    assert_eq!(GitService::tracked_subtree(), "ai");
    assert_eq!(GitService::signer(), bot());
}

#[test]
fn init_leaves_existing_repository_untouched() {
    assert_eq!(ledger().init_repo_if_needed(true, false), None);
    assert_eq!(ledger().init_repo_if_needed(true, true), None);
}

#[test]
fn init_plans_ignore_list_and_first_commit() {
    let plan = ledger().init_repo_if_needed(false, false).unwrap();
    assert_eq!(plan.pathspec, ".");
    assert_eq!(plan.message, "chore: initial commit für den kawaii Moodtracker 💖");
    assert_eq!(plan.signer, bot());
    assert_eq!(
        plan.ignore,
        Some(IgnoreFile {
            path: "repo/.gitignore".to_string(),
            content: "/target\n/.env\n/node_modules\n/.idea\n/static/app.css\n/ai/cache\n".to_string(),
        })
    );
    let kept = ledger().init_repo_if_needed(false, true).unwrap();
    assert_eq!(kept.ignore, None);
    assert_eq!(kept.message, plan.message);
}

#[test]
fn ensure_gitignore_writes_only_when_absent() {
    assert_eq!(ledger().ensure_gitignore(true), None);
    assert_eq!(ledger().ensure_gitignore(false).unwrap().path, "repo/.gitignore");
}

#[test]
fn first_commit_has_no_parent() {
    let plan = ledger().commit_ai_changes("feat: check-in", &staged("t1"), None);
    assert_eq!(
        plan,
        CommitPlan::Commit {
            message: "feat: check-in".to_string(),
            tree: "t1".to_string(),
            parents: Vec::new(),
            signer: bot(),
        }
    );
}

#[test]
fn later_commit_is_parented_on_tip() {
    let tip = HeadCommit { id: "c0".to_string(), tree: "t0".to_string() };
    let plan = ledger().commit_ai_changes("settings updated", &staged("t1"), Some(&tip));
    assert_eq!(
        plan,
        CommitPlan::Commit {
            message: "settings updated".to_string(),
            tree: "t1".to_string(),
            parents: vec!["c0".to_string()],
            signer: bot(),
        }
    );
}

#[test]
fn unchanged_tree_is_a_noop() {
    let tip = HeadCommit { id: "c0".to_string(), tree: "t0".to_string() };
    assert_eq!(ledger().commit_ai_changes("m", &staged("t0"), Some(&tip)), CommitPlan::Skip);
}

#[test]
fn empty_index_is_a_noop() {
    let empty = Staged { tree: "4b825dc".to_string(), is_empty: true };
    assert_eq!(ledger().commit_ai_changes("m", &empty, None), CommitPlan::Skip);
    let tip = HeadCommit { id: "c0".to_string(), tree: "t0".to_string() };
    assert_eq!(ledger().commit_ai_changes("m", &empty, Some(&tip)), CommitPlan::Skip);
}

#[test]
fn second_commit_without_change_is_a_noop() {
    let s = staged("t1");
    let mut head: Option<HeadCommit> = None;
    let mut commits = 0;
    for round in 0..2 {
        match ledger().commit_ai_changes("feat: check-in", &s, head.as_ref()) {
            CommitPlan::Commit { tree, .. } => {
                commits += 1;
                head = Some(HeadCommit { id: format!("c{}", round), tree });
            }
            CommitPlan::Skip => {}
        }
    }
    assert_eq!(commits, 1);
    assert_eq!(head, Some(HeadCommit { id: "c0".to_string(), tree: "t1".to_string() }));
}

#[test]
fn pending_follows_changed_paths() {
    assert!(!GitService::has_pending(&Vec::new()));
    assert!(GitService::has_pending(&vec!["ai/users/u1/config.json".to_string()]));
    assert!(GitService::has_pending(&vec!["src/main.rs".to_string(), "ai/config.json".to_string()]));
    assert!(!GitService::has_pending(&vec!["src/main.rs".to_string(), "a".to_string()]));
}

#[test]
fn status_without_head_is_detached() {
    let st = ledger().status(None, &Vec::new());
    assert_eq!(st.branch, "detached");
    assert_eq!(st.head, None);
    assert!(!st.pending_ai_changes);
    let unborn = ledger().status(Some(HeadRef { shorthand: None, commit: None }), &Vec::new());
    assert_eq!(unborn.branch, "detached");
    assert_eq!(unborn.head, None);
}

#[test]
fn status_reports_branch_commit_and_pending() {
    let head = HeadRef {
        shorthand: Some("main".to_string()),
        commit: Some(RawCommit {
            id: "abc123".to_string(),
            message: Some("feat: check-in\n".to_string()),
            seconds: 1431648000,
        }),
    };
    let st = ledger().status(Some(head), &vec!["ai/users/u1/checkins/c.json".to_string()]);
    assert_eq!(st.branch, "main");
    assert!(st.pending_ai_changes);
    let info = st.head.unwrap();
    assert_eq!(info.hash, "abc123");
    assert_eq!(info.message, "feat: check-in");
    assert_eq!(info.timestamp.len(), 16);
    assert_eq!(&info.timestamp[2..3], ".");
    assert_eq!(&info.timestamp[13..14], ":");
}

#[test]
fn commit_without_message_gets_placeholder() {
    let raw = RawCommit { id: "abc".to_string(), message: None, seconds: 0 };
    assert_eq!(
        GitService::describe_commit(&raw, "01.01.1970 00:00".to_string()),
        GitCommitInfo {
            hash: "abc".to_string(),
            message: "ohne Nachricht".to_string(),
            timestamp: "01.01.1970 00:00".to_string(),
        }
    );
}

#[test]
fn commit_time_falls_back_to_epoch() {
    assert_eq!(pick_time_text(Some("a".to_string()), Some("b".to_string())), "a");
    assert_eq!(pick_time_text(None, Some("b".to_string())), "b");
    assert_eq!(pick_time_text(None, None), "");
    assert_eq!(GitService::commit_time_text(i64::MAX), GitService::commit_time_text(0));
    assert_eq!(GitService::commit_time_text(0).len(), 16);
}

#[test]
fn ledger_failures_become_warnings() {
    assert_eq!(GitService::absorb(Ok(())), None);
    assert_eq!(
        GitService::absorb(Err(GitService::failure("index is locked".to_string()))),
        Some("index is locked".to_string())
    );
    assert_eq!(GitService::failure("x".to_string()), AppError::Git("x".to_string()));
    assert_eq!(GitService::absorb(Err(AppError::NotFound)), Some("not found".to_string()));
}
