use std::path::Path;
use std::time::{SystemTime, UNIX_EPOCH};

use commit_draft::{
    collect_changes, compute_diff, get_combined_diff, get_structured_changes, is_no_history,
    resolve_snapshots, summarize_diff, Baseline, CoreError, Target, UNBORN_BRANCH_CODE,
};
use git2::{IndexEntry, IndexTime, Oid, Repository, Signature};

fn fresh_repo(tag: &str) -> Repository {
    let nanos = SystemTime::now().duration_since(UNIX_EPOCH).unwrap().as_nanos();
    let dir = format!("/tmp/commit_draft_{}_{}", tag, nanos);
    Repository::init(&dir).unwrap()
}

fn stage(repo: &Repository, path: &str, content: &[u8]) {
    let mut index = repo.index().unwrap();
    let entry = IndexEntry {
        ctime: IndexTime::new(0, 0),
        mtime: IndexTime::new(0, 0),
        dev: 0,
        ino: 0,
        mode: 0o100644,
        uid: 0,
        gid: 0,
        file_size: content.len() as u32,
        id: Oid::zero(),
        flags: 0,
        flags_extended: 0,
        path: path.as_bytes().to_vec(),
    };
    index.add_frombuffer(&entry, content).unwrap();
    index.write().unwrap();
}

fn unstage(repo: &Repository, path: &str) {
    let mut index = repo.index().unwrap();
    index.remove_path(Path::new(path)).unwrap();
    index.write().unwrap();
}

fn commit_index(repo: &Repository) {
    let mut index = repo.index().unwrap();
    let tree_id = index.write_tree().unwrap();
    let tree = repo.find_tree(tree_id).unwrap();
    let sig = Signature::now("Tester", "tester@example.com").unwrap();
    let parent = repo.head().ok().and_then(|h| h.peel_to_commit().ok());
    let parents: Vec<&git2::Commit> = parent.iter().collect();
    repo.commit(Some("HEAD"), &sig, &sig, "snapshot", &tree, &parents).unwrap();
}

#[test]
fn clean_repository_gives_empty_text() {
    let repo = fresh_repo("clean");
    stage(&repo, "a.txt", b"hello\n");
    commit_index(&repo);
    assert_eq!(get_structured_changes(&repo, false).ok().unwrap(), "");
}

#[test]
fn staged_added_line_is_reported() {
    let repo = fresh_repo("added");
    stage(&repo, "a.txt", b"hello\n");
    commit_index(&repo);
    stage(&repo, "a.txt", b"hello\nhello world\n");
    assert_eq!(
        get_structured_changes(&repo, false).ok().unwrap(),
        "- **a.txt**: Modified\n  - Added: hello world\n"
    );
}

#[test]
fn staged_deletion_is_reported() {
    let repo = fresh_repo("deleted");
    stage(&repo, "gone.txt", b"bye\n");
    commit_index(&repo);
    unstage(&repo, "gone.txt");
    assert_eq!(
        get_structured_changes(&repo, false).ok().unwrap(),
        "- **gone.txt**: Deleted\n  - Removed: bye\n"
    );
}

#[test]
fn repository_without_history_is_not_an_error() {
    let repo = fresh_repo("unborn");
    assert_eq!(get_structured_changes(&repo, false).ok().unwrap(), "");
    assert_eq!(get_structured_changes(&repo, true).ok().unwrap(), "");
}

#[test]
fn invalid_bytes_in_a_staged_line_are_replaced() {
    let repo = fresh_repo("lossy");
    stage(&repo, "t.txt", b"plain\n");
    commit_index(&repo);
    stage(&repo, "t.txt", b"plain\nbad \xff byte\n");
    let (diff, plan) = get_combined_diff(&repo, false).ok().unwrap();
    assert_eq!(plan.target, Target::Staged);
    assert!(!plan.include_untracked);
    let set = collect_changes(&diff).ok().unwrap();
    assert_eq!(set.len(), 1);
    assert_eq!(set.files()[0].summaries, vec!["Added: bad \u{FFFD} byte".to_string()]);
}

#[test]
fn tip_that_is_no_commit_is_a_state_error() {
    let repo = fresh_repo("broken");
    let blob = repo.blob(b"not a commit\n").unwrap();
    repo.reference("refs/heads/broken", blob, true, "point at a blob").unwrap();
    repo.set_head("refs/heads/broken").unwrap();
    assert!(matches!(
        get_structured_changes(&repo, false),
        Err(CoreError::RepositoryState(_))
    ));
    assert!(matches!(get_combined_diff(&repo, true), Err(CoreError::RepositoryState(_))));
    assert!(matches!(resolve_snapshots(&repo, false), Err(CoreError::RepositoryState(_))));
}

#[test]
fn unborn_branch_selects_staging_area_against_work_tree() {
    let repo = fresh_repo("plan_unborn");
    let (_, plan) = get_combined_diff(&repo, false).ok().unwrap();
    assert_eq!(plan.baseline, Baseline::Staged);
    assert_eq!(plan.target, Target::WorkTree);
    assert!(plan.include_untracked && plan.recurse_untracked_dirs);
    let snaps = resolve_snapshots(&repo, true).ok().unwrap();
    assert!(snaps.tree.is_none() && snaps.index.is_some());
}

#[test]
fn history_with_unstaged_compares_tip_with_work_tree() {
    let repo = fresh_repo("plan_work");
    stage(&repo, "k.txt", b"k\n");
    commit_index(&repo);
    let snaps = resolve_snapshots(&repo, true).ok().unwrap();
    assert!(snaps.tree.is_some() && snaps.index.is_none());
    assert_eq!(snaps.plan.baseline, Baseline::HeadTree);
    assert_eq!(snaps.plan.target, Target::WorkTree);
    assert!(compute_diff(&repo, &snaps).is_ok());
}

#[test]
fn summarize_diff_renders_each_delta() {
    let repo = fresh_repo("render");
    stage(&repo, "x.txt", b"x\n");
    commit_index(&repo);
    stage(&repo, "x.txt", b"y\n");
    stage(&repo, "new.txt", b"fresh\n");
    let (diff, _) = get_combined_diff(&repo, false).ok().unwrap();
    assert_eq!(
        summarize_diff(&diff).ok().unwrap(),
        "- **new.txt**: Added\n  - Added: fresh\n- **x.txt**: Modified\n  - Removed: x\n  - Added: y\n"
    );
}

#[test]
fn only_the_unborn_code_means_no_history() {
    assert!(is_no_history(UNBORN_BRANCH_CODE));
    assert!(is_no_history(-9));
    assert!(!is_no_history(-3));
    assert!(!is_no_history(-1));
    assert!(!is_no_history(0));
}
