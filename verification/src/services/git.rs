//! The version ledger: every accepted change of the document tree becomes a
//! commit. The ledger decides what to commit; the caller talks to the
//! repository and hands in what it found there.

use crate::clock::{is_datable, is_shown_locally, is_zone_offset, text_at_offset, Timestamp};
use crate::error::{AppError, AppErrorView};
use crate::services::layout::{join, join_path};
use crate::text::{has_prefix, starts_with, texts, trim, trimmed};
use vstd::prelude::*;

verus! {

/// The subtree of the repository that holds the documents. Only it is staged
/// and watched.
pub open spec fn tracked_subtree_of() -> Seq<char> {
    "ai"@
}

/// What is said of a commit without a message.
pub open spec fn no_message() -> Seq<char> {
    "ohne Nachricht"@
}

/// The branch name reported where there is no branch.
pub open spec fn detached() -> Seq<char> {
    "detached"@
}

/// The message of the first commit of a new repository.
pub open spec fn initial_message() -> Seq<char> {
    "chore: initial commit für den kawaii Moodtracker 💖"@
}

/// The ignore list written into a new repository.
pub open spec fn ignore_list() -> Seq<char> {
    "/target\n/.env\n/node_modules\n/.idea\n/static/app.css\n/ai/cache\n"@
}

/// The strftime pattern of a commit's time.
pub open spec fn commit_time_pattern() -> Seq<char> {
    "%d.%m.%Y %H:%M"@
}

/// The tip of the current branch: the commit and the tree it holds.
#[derive(Clone, Debug, PartialEq, Eq)]
pub struct HeadCommit {
    pub id: String,
    pub tree: String,
}

pub struct HeadCommitView {
    pub id: Seq<char>,
    pub tree: Seq<char>,
}

impl View for HeadCommit {
    type V = HeadCommitView;

    open spec fn view(&self) -> HeadCommitView {
        HeadCommitView { id: self.id@, tree: self.tree@ }
    }
}

/// The index after the tracked subtree was staged: the tree it would write,
/// and whether it holds no entry at all.
#[derive(Clone, Debug, PartialEq, Eq)]
pub struct Staged {
    pub tree: String,
    pub is_empty: bool,
}

pub struct StagedView {
    pub tree: Seq<char>,
    pub is_empty: bool,
}

impl View for Staged {
    type V = StagedView;

    open spec fn view(&self) -> StagedView {
        StagedView { tree: self.tree@, is_empty: self.is_empty }
    }
}

/// Who signs the ledger's commits.
#[derive(Clone, Debug, PartialEq, Eq)]
pub struct Signer {
    pub name: String,
    pub email: String,
}

pub struct SignerView {
    pub name: Seq<char>,
    pub email: Seq<char>,
}

impl View for Signer {
    type V = SignerView;

    open spec fn view(&self) -> SignerView {
        SignerView { name: self.name@, email: self.email@ }
    }
}

impl SignerView {
    pub open spec fn ledger() -> SignerView {
        SignerView { name: "kawaii-mood-bot"@, email: "moodbot@local"@ }
    }
}

/// What to do about the staged tree.
#[derive(Clone, Debug, PartialEq, Eq)]
pub enum CommitPlan {
    /// Nothing changed: no commit is made.
    Skip,
    /// Commit `tree` on `HEAD` with these parents.
    Commit { message: String, tree: String, parents: Vec<String>, signer: Signer },
}

pub enum CommitPlanView {
    Skip,
    Commit { message: Seq<char>, tree: Seq<char>, parents: Seq<Seq<char>>, signer: SignerView },
}

impl View for CommitPlan {
    type V = CommitPlanView;

    open spec fn view(&self) -> CommitPlanView {
        match self {
            CommitPlan::Skip => CommitPlanView::Skip,
            CommitPlan::Commit { message, tree, parents, signer } => CommitPlanView::Commit {
                message: message@,
                tree: tree@,
                parents: texts(parents@),
                signer: signer@,
            },
        }
    }
}

/// The ignore list to write.
#[derive(Clone, Debug, PartialEq, Eq)]
pub struct IgnoreFile {
    pub path: String,
    pub content: String,
}

/// How a new repository is set up: write the ignore list unless there is one,
/// stage the whole tree, and make the first commit, which has no parent.
#[derive(Clone, Debug, PartialEq, Eq)]
pub struct InitPlan {
    pub ignore: Option<IgnoreFile>,
    pub pathspec: String,
    pub message: String,
    pub signer: Signer,
}

/// A commit as the repository gives it.
#[derive(Clone, Debug, PartialEq, Eq)]
pub struct RawCommit {
    pub id: String,
    pub message: Option<String>,
    pub seconds: i64,
}

/// What `HEAD` points at: the short name of the branch, if it has one, and
/// the commit at its tip, if it can be found.
#[derive(Clone, Debug, PartialEq, Eq)]
pub struct HeadRef {
    pub shorthand: Option<String>,
    pub commit: Option<RawCommit>,
}

#[derive(Clone, Debug, PartialEq, Eq)]
pub struct GitCommitInfo {
    pub hash: String,
    pub message: String,
    pub timestamp: String,
}

pub struct GitCommitInfoView {
    pub hash: Seq<char>,
    pub message: Seq<char>,
    pub timestamp: Seq<char>,
}

impl View for GitCommitInfo {
    type V = GitCommitInfoView;

    open spec fn view(&self) -> GitCommitInfoView {
        GitCommitInfoView {
            hash: self.hash@,
            message: self.message@,
            timestamp: self.timestamp@,
        }
    }
}

#[derive(Clone, Debug, PartialEq, Eq)]
pub struct GitStatus {
    pub branch: String,
    pub head: Option<GitCommitInfo>,
    pub pending_ai_changes: bool,
}

pub struct GitStatusView {
    pub branch: Seq<char>,
    pub head: Option<GitCommitInfoView>,
    pub pending_ai_changes: bool,
}

impl View for GitStatus {
    type V = GitStatusView;

    open spec fn view(&self) -> GitStatusView {
        GitStatusView {
            branch: self.branch@,
            head: match self.head {
                Some(info) => Some(info@),
                None => None,
            },
            pending_ai_changes: self.pending_ai_changes,
        }
    }
}

/// What the ledger does about a staged tree, given the tip of the branch.
/// An empty index and a tree equal to the tip's tree are nothing to commit.
/// Anything else is committed on top of the tip, or without a parent where
/// there is no tip yet.
pub open spec fn commit_decision(
    message: Seq<char>,
    staged: StagedView,
    head: Option<HeadCommitView>,
) -> CommitPlanView {
    if staged.is_empty {
        CommitPlanView::Skip
    } else {
        match head {
            Some(tip) => if tip.tree == staged.tree {
                CommitPlanView::Skip
            } else {
                CommitPlanView::Commit {
                    message,
                    tree: staged.tree,
                    parents: seq![tip.id],
                    signer: SignerView::ledger(),
                }
            },
            None => CommitPlanView::Commit {
                message,
                tree: staged.tree,
                parents: Seq::empty(),
                signer: SignerView::ledger(),
            },
        }
    }
}

/// The tip of the branch after a plan was carried out, where a commit that
/// was made got the identifier `id`.
pub open spec fn tip_after(
    head: Option<HeadCommitView>,
    plan: CommitPlanView,
    id: Seq<char>,
) -> Option<HeadCommitView> {
    match plan {
        CommitPlanView::Skip => head,
        CommitPlanView::Commit { tree, .. } => Some(HeadCommitView { id, tree }),
    }
}

/// `text` is a commit's time as it is shown. Where `chrono` has the instant,
/// there is a zone offset under which it reads so, or under which it has no
/// text and the start of 1970 is shown in its place; where `chrono` has not
/// the instant, the start of 1970 is shown.
pub open spec fn is_commit_time_text(seconds: i64, text: Seq<char>) -> bool {
    let at = Timestamp { secs: seconds, nanos: 0 };
    let epoch = Timestamp { secs: 0, nanos: 0 };
    if is_datable(seconds as int, 0) {
        exists|offset: int|
            is_zone_offset(offset) && match #[trigger] text_at_offset(
                at,
                offset,
                commit_time_pattern(),
            ) {
                Some(shown) => text == shown,
                None => is_shown_locally(epoch, commit_time_pattern(), text),
            }
    } else {
        is_shown_locally(epoch, commit_time_pattern(), text)
    }
}

/// One of the paths lies in the tracked subtree.
pub open spec fn any_tracked(paths: Seq<Seq<char>>) -> bool {
    exists|i: int| 0 <= i < paths.len() && has_prefix(#[trigger] paths[i], tracked_subtree_of())
}

/// The branch name to report.
pub open spec fn branch_of(head: Option<HeadRef>) -> Seq<char> {
    match head {
        Some(h) => match h.shorthand {
            Some(name) => name@,
            None => detached(),
        },
        None => detached(),
    }
}

/// The commit to report.
pub open spec fn tip_of(head: Option<HeadRef>) -> Option<RawCommit> {
    match head {
        Some(h) => h.commit,
        None => None,
    }
}

/// The message to report for a commit.
pub open spec fn message_of(raw: RawCommit) -> Seq<char> {
    match raw.message {
        Some(m) => trimmed(m@),
        None => trimmed(no_message()),
    }
}

/// Ledger no-op. After the ledger dealt with a staged tree once, dealing
/// with the same tree again makes no commit: two calls in a row make at most
/// one.
pub proof fn lemma_second_commit_is_noop(
    first: Seq<char>,
    second: Seq<char>,
    staged: StagedView,
    head: Option<HeadCommitView>,
    id: Seq<char>,
)
    ensures
        commit_decision(
            second,
            staged,
            tip_after(head, commit_decision(first, staged, head), id),
        ) is Skip,
{
}

/// A new repository's first commit has no parent; every later commit has
/// the tip as its one parent.
pub proof fn lemma_commit_parents(
    message: Seq<char>,
    staged: StagedView,
    head: Option<HeadCommitView>,
)
    ensures
        commit_decision(message, staged, head) matches CommitPlanView::Commit {
            message: m,
            tree,
            parents,
            ..
        } ==> m == message && tree == staged.tree && parents == match head {
            Some(tip) => seq![tip.id],
            None => Seq::<Seq<char>>::empty(),
        },
{
}

/// The ledger of the repository rooted at one directory.
#[derive(Clone, Debug, PartialEq, Eq)]
pub struct GitService {
    repo_root: String,
}

impl View for GitService {
    type V = Seq<char>;

    closed spec fn view(&self) -> Seq<char> {
        self.repo_root@
    }
}

/// The text for a commit's time: the first that is there, or nothing.
pub fn pick_time_text(primary: Option<String>, fallback: Option<String>) -> (r: String)
    ensures
        r@ == match (primary, fallback) {
            (Some(p), _) => p@,
            (None, Some(f)) => f@,
            (None, None) => Seq::<char>::empty(),
        },
{
    match primary {
        Some(p) => p,
        None => match fallback {
            Some(f) => f,
            None => String::new(),
        },
    }
}

impl GitService {
    pub fn new(root: String) -> (r: GitService)
        ensures
            r@ == root@,
    {
        GitService { repo_root: root }
    }

    pub fn root(&self) -> (r: &str)
        ensures
            r@ == self@,
    {
        self.repo_root.as_str()
    }

    /// The subtree that is staged and watched.
    pub fn tracked_subtree() -> (r: &'static str)
        ensures
            r@ == tracked_subtree_of(),
    {
        "ai"
    }

    /// Who signs the commits.
    pub fn signer() -> (r: Signer)
        ensures
            r@ == SignerView::ledger(),
    {
        Signer { name: "kawaii-mood-bot".to_owned(), email: "moodbot@local".to_owned() }
    }

    /// Where the repository keeps its own data.
    pub fn git_dir(&self) -> (r: String)
        ensures
            r@ == join_path(self@, ".git"@),
    {
        join(self.root(), ".git")
    }

    /// The ignore list to write, unless one exists.
    pub fn ensure_gitignore(&self, exists: bool) -> (r: Option<IgnoreFile>)
        ensures
            exists ==> r is None,
            !exists ==> (r matches Some(f) && f.path@ == join_path(self@, ".gitignore"@)
                && f.content@ == ignore_list()),
    {
        if exists {
            None
        } else {
            Some(
                IgnoreFile {
                    path: join(self.root(), ".gitignore"),
                    content: "/target\n/.env\n/node_modules\n/.idea\n/static/app.css\n/ai/cache\n".to_owned(),
                },
            )
        }
    }

    /// How to set the repository up, or `None` where the root already is a
    /// repository: that one is left untouched.
    pub fn init_repo_if_needed(&self, is_repository: bool, ignore_exists: bool) -> (r: Option<
        InitPlan,
    >)
        ensures
            is_repository <==> r is None,
            r matches Some(plan) ==> {
                &&& plan.pathspec@ == "."@
                &&& plan.message@ == initial_message()
                &&& plan.signer@ == SignerView::ledger()
                &&& ignore_exists <==> plan.ignore is None
                &&& plan.ignore matches Some(f) ==> f.path@ == join_path(self@, ".gitignore"@)
                    && f.content@ == ignore_list()
            },
    {
        if is_repository {
            None
        } else {
            Some(
                InitPlan {
                    ignore: self.ensure_gitignore(ignore_exists),
                    pathspec: ".".to_owned(),
                    message: "chore: initial commit für den kawaii Moodtracker 💖".to_owned(),
                    signer: GitService::signer(),
                },
            )
        }
    }

    /// What to do about the staged tree: nothing where nothing changed, a
    /// commit under `message` otherwise. Safe to call after every change and
    /// far more often.
    pub fn commit_ai_changes(&self, message: &str, staged: &Staged, head: Option<&HeadCommit>) -> (r:
        CommitPlan)
        ensures
            r@ == commit_decision(
                message@,
                staged@,
                match head {
                    Some(tip) => Some(tip@),
                    None => None,
                },
            ),
    {
        if staged.is_empty {
            return CommitPlan::Skip;
        }
        match head {
            Some(tip) => {
                if tip.tree == staged.tree {
                    CommitPlan::Skip
                } else {
                    let mut parents: Vec<String> = Vec::new();
                    parents.push(tip.id.clone());
                    assert(texts(parents@) =~= seq![tip.id@]);
                    CommitPlan::Commit {
                        message: message.to_owned(),
                        tree: staged.tree.clone(),
                        parents,
                        signer: GitService::signer(),
                    }
                }
            },
            None => {
                let parents: Vec<String> = Vec::new();
                assert(texts(parents@) =~= Seq::<Seq<char>>::empty());
                CommitPlan::Commit {
                    message: message.to_owned(),
                    tree: staged.tree.clone(),
                    parents,
                    signer: GitService::signer(),
                }
            },
        }
    }

    /// What a failed ledger operation comes to. The document that set it off
    /// is saved already and stays so: the failure is a warning to log, never
    /// an error of the request.
    pub fn absorb(outcome: Result<(), AppError>) -> (warning: Option<String>)
        ensures
            outcome is Ok <==> warning is None,
            warning matches Some(text) ==> text@ == outcome->Err_0@.message(),
    {
        match outcome {
            Ok(()) => None,
            Err(e) => Some(e.message()),
        }
    }

    /// The error of a ledger operation that failed with the complaint `why`.
    pub fn failure(why: String) -> (e: AppError)
        ensures
            e@ == AppErrorView::Git(why@),
    {
        AppError::Git(why)
    }

    /// Whether one of the changed paths lies in the tracked subtree.
    pub fn has_pending(changed: &Vec<String>) -> (r: bool)
        ensures
            r == any_tracked(texts(changed@)),
    {
        let mut i: usize = 0;
        while i < changed.len()
            invariant
                i <= changed.len(),
                forall|k: int|
                    0 <= k < i ==> !has_prefix(#[trigger] texts(changed@)[k], tracked_subtree_of()),
            decreases changed.len() - i,
        {
            if starts_with(changed[i].as_str(), "ai") {
                assert(has_prefix(texts(changed@)[i as int], tracked_subtree_of()));
                return true;
            }
            i += 1;
        }
        false
    }

    /// The time of a commit as a clock in the machine's time zone reads it,
    /// day first and to the minute. A time that cannot be shown is replaced
    /// by the start of 1970, and where that cannot be shown either, by
    /// nothing. Which zone it is depends on the machine.
    pub fn commit_time_text(seconds: i64) -> (r: String)
        ensures
            is_commit_time_text(seconds, r@),
    {
        let primary = Timestamp::new(seconds, 0).format_local("%d.%m.%Y %H:%M");
        let fallback = match primary {
            Some(_) => None,
            None => Timestamp::new(0, 0).format_local("%d.%m.%Y %H:%M"),
        };
        pick_time_text(primary, fallback)
    }

    /// A commit as the status reports it, its time written as `when`.
    pub fn describe_commit(raw: &RawCommit, when: String) -> (r: GitCommitInfo)
        ensures
            r.hash@ == raw.id@,
            r.message@ == message_of(*raw),
            r.timestamp == when,
    {
        let message = match &raw.message {
            Some(m) => trim(m.as_str()),
            None => trim("ohne Nachricht"),
        };
        GitCommitInfo { hash: raw.id.clone(), message, timestamp: when }
    }

    /// The state of the ledger: the branch, or `detached` where there is
    /// none; the newest commit, if one exists; and whether the tracked
    /// subtree has changes that are not committed, which is so exactly where
    /// one of the changed paths lies in it. Only the commit's time is not
    /// determined: it is written in the machine's time zone.
    pub fn status(&self, head: Option<HeadRef>, changed: &Vec<String>) -> (r: GitStatus)
        ensures
            r.branch@ == branch_of(head),
            r.pending_ai_changes == any_tracked(texts(changed@)),
            r.head is Some <==> tip_of(head) is Some,
            r.head matches Some(info) ==> info.hash@ == tip_of(head)->Some_0.id@ && info.message@
                == message_of(tip_of(head)->Some_0),
    {
        let pending = GitService::has_pending(changed);
        let (branch, commit) = match head {
            Some(h) => {
                let name = match h.shorthand {
                    Some(name) => name,
                    None => "detached".to_owned(),
                };
                (name, h.commit)
            },
            None => ("detached".to_owned(), None),
        };
        let info = match commit {
            Some(raw) => {
                let when = GitService::commit_time_text(raw.seconds);
                Some(GitService::describe_commit(&raw, when))
            },
            None => None,
        };
        GitStatus { branch, head: info, pending_ai_changes: pending }
    }
}

} // verus!
