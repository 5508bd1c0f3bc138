use vstd::prelude::*;

use git2::{Delta, Diff, DiffOptions, Index, Patch, Reference, Repository, Tree};

use crate::collect::{
    collect_spec, delta_path_spec, has_path, lemma_collect_covers_every_delta, delta_view, lines_spec, view_path, ChangeSet, DeltaInfo, DeltaView,
};
use crate::format::{format_changes_for_prompt, format_spec, views};
use crate::model::{kind_of_status, DeltaStatus};
use crate::snapshot::{plan_spec, resolve_plan, Baseline, DiffPlan, Target};

verus! {

#[verifier::external_type_specification]
#[verifier::external_body]
pub struct ExRepository(Repository);

#[verifier::external_type_specification]
#[verifier::external_body]
pub struct ExReference<'a>(Reference<'a>);

#[verifier::external_type_specification]
#[verifier::external_body]
pub struct ExTree<'a>(Tree<'a>);

#[verifier::external_type_specification]
#[verifier::external_body]
pub struct ExIndex(Index);

#[verifier::external_type_specification]
#[verifier::external_body]
pub struct ExDiff<'a>(Diff<'a>);

#[verifier::external_type_specification]
#[verifier::external_body]
pub struct ExPatch<'a>(Patch<'a>);

#[verifier::external_type_specification]
#[verifier::external_body]
pub struct ExDelta(Delta);

#[verifier::external_type_specification]
#[verifier::external_body]
pub struct ExGitError(git2::Error);

/// The file deltas of a difference, in order, as plain values (paths decoded
/// lossily).
pub uninterp spec fn diff_deltas(d: Diff<'_>) -> Seq<DeltaView>;

/// The two sides a difference was computed between, and its untracked-file
/// switches.
pub uninterp spec fn diff_plan(d: Diff<'_>) -> DiffPlan;

/// libgit2's code for "the branch HEAD names has no commit yet".
pub const UNBORN_BRANCH_CODE: i32 = -9;

/// Relies on git2's Repository::head: the reference HEAD resolves to, or why
/// it could not be resolved.
#[verifier::external_body]
fn repo_head(repo: &Repository) -> (r: Result<Reference<'_>, git2::Error>) {
    repo.head()
}

/// Relies on git2's Reference::peel_to_tree: the tree of the commit the
/// reference leads to.
#[verifier::external_body]
fn head_tree<'a>(head: &Reference<'a>) -> (r: Result<Tree<'a>, git2::Error>) {
    head.peel_to_tree()
}

/// Relies on git2's Error::raw_code: libgit2's numeric code of the failure.
#[verifier::external_body]
fn error_code(e: &git2::Error) -> (r: i32) {
    e.raw_code() as i32
}

/// Relies on git2's Repository::index: the repository's staging area.
#[verifier::external_body]
fn repo_index(repo: &Repository) -> (r: Result<Index, git2::Error>) {
    repo.index()
}

/// Relies on git2's Repository::diff_tree_to_workdir, with DiffOptions whose
/// two untracked-file switches are set as given.
#[verifier::external_body]
fn tree_to_workdir<'r>(
    repo: &'r Repository,
    tree: &Tree<'_>,
    untracked: bool,
    recurse: bool,
) -> (r: Result<Diff<'r>, git2::Error>)
    ensures
        r matches Ok(d) ==> diff_plan(d) == (DiffPlan {
            baseline: Baseline::HeadTree,
            target: Target::WorkTree,
            include_untracked: untracked,
            recurse_untracked_dirs: recurse,
        }),
{
    let mut opts = DiffOptions::new();
    opts.include_untracked(untracked).recurse_untracked_dirs(recurse);
    repo.diff_tree_to_workdir(Some(tree), Some(&mut opts))
}

/// Relies on git2's Repository::diff_tree_to_index, with DiffOptions whose
/// two untracked-file switches are set as given.
#[verifier::external_body]
fn tree_to_index<'r>(
    repo: &'r Repository,
    tree: &Tree<'_>,
    index: &Index,
    untracked: bool,
    recurse: bool,
) -> (r: Result<Diff<'r>, git2::Error>)
    ensures
        r matches Ok(d) ==> diff_plan(d) == (DiffPlan {
            baseline: Baseline::HeadTree,
            target: Target::Staged,
            include_untracked: untracked,
            recurse_untracked_dirs: recurse,
        }),
{
    let mut opts = DiffOptions::new();
    opts.include_untracked(untracked).recurse_untracked_dirs(recurse);
    repo.diff_tree_to_index(Some(tree), Some(index), Some(&mut opts))
}

/// Relies on git2's Repository::diff_index_to_workdir, with DiffOptions whose
/// two untracked-file switches are set as given.
#[verifier::external_body]
fn index_to_workdir<'r>(
    repo: &'r Repository,
    index: &Index,
    untracked: bool,
    recurse: bool,
) -> (r: Result<Diff<'r>, git2::Error>)
    ensures
        r matches Ok(d) ==> diff_plan(d) == (DiffPlan {
            baseline: Baseline::Staged,
            target: Target::WorkTree,
            include_untracked: untracked,
            recurse_untracked_dirs: recurse,
        }),
{
    let mut opts = DiffOptions::new();
    opts.include_untracked(untracked).recurse_untracked_dirs(recurse);
    repo.diff_index_to_workdir(Some(index), Some(&mut opts))
}

/// Relies on git2's Diff::deltas: the number of file deltas in the difference.
#[verifier::external_body]
fn delta_count(diff: &Diff<'_>) -> (r: usize)
    ensures
        r == diff_deltas(*diff).len(),
{
    diff.deltas().len()
}

/// Relies on git2's Delta: one status of ours per variant.
#[verifier::external_body]
fn status_of(s: Delta) -> (r: DeltaStatus) {
    match s {
        Delta::Unmodified => DeltaStatus::Unmodified,
        Delta::Added => DeltaStatus::Added,
        Delta::Deleted => DeltaStatus::Deleted,
        Delta::Modified => DeltaStatus::Modified,
        Delta::Renamed => DeltaStatus::Renamed,
        Delta::Copied => DeltaStatus::Copied,
        Delta::Ignored => DeltaStatus::Ignored,
        Delta::Untracked => DeltaStatus::Untracked,
        Delta::Typechange => DeltaStatus::Typechange,
        Delta::Unreadable => DeltaStatus::Unreadable,
        Delta::Conflicted => DeltaStatus::Conflicted,
    }
}

/// Relies on git2's Diff::get_delta and DiffFile::path_bytes: the delta at
/// `i`, with its paths decoded lossily, and `None` past the end.
#[verifier::external_body]
fn delta_at(diff: &Diff<'_>, i: usize) -> (r: Option<DeltaInfo>)
    ensures
        r.is_some() == (i < diff_deltas(*diff).len()),
        r matches Some(info) ==> delta_view(info) == diff_deltas(*diff)[i as int],
{
    let d = diff.get_delta(i)?;
    let new_path = d.new_file().path_bytes().map(|b| String::from_utf8_lossy(b).into_owned());
    let old_path = d.old_file().path_bytes().map(|b| String::from_utf8_lossy(b).into_owned());
    Some(DeltaInfo { new_path, old_path, status: status_of(d.status()) })
}

/// Relies on git2's Patch::from_diff: the hunks and lines of the delta at
/// `i`; `None` for a file with no text content to show.
#[verifier::external_body]
fn patch_at<'a>(diff: &Diff<'a>, i: usize) -> (r: Result<Option<Patch<'a>>, git2::Error>) {
    Patch::from_diff(diff, i)
}

/// Relies on git2's Patch::num_hunks.
#[verifier::external_body]
fn hunk_count(patch: &Patch<'_>) -> (r: usize) {
    patch.num_hunks()
}

/// Relies on git2's Patch::num_lines_in_hunk.
#[verifier::external_body]
fn hunk_line_count(patch: &Patch<'_>, hunk: usize) -> (r: Result<usize, git2::Error>) {
    patch.num_lines_in_hunk(hunk)
}

/// Relies on git2's Patch::line_in_hunk, DiffLine::origin and
/// DiffLine::content: a line's origin marker and raw bytes.
#[verifier::external_body]
fn line_at(
    patch: &Patch<'_>,
    hunk: usize,
    line: usize,
) -> (r: Result<(char, Vec<u8>), git2::Error>) {
    let l = patch.line_in_hunk(hunk, line)?;
    Ok((l.origin(), l.content().to_vec()))
}

/// Why no change summary could be produced.
pub enum CoreError {
    /// The repository's current state could not be resolved.
    RepositoryState(git2::Error),
    /// The difference between the two snapshots could not be computed.
    DiffComputation(git2::Error),
}

impl CoreError {
    pub open spec fn is_repository_state(&self) -> bool {
        self is RepositoryState
    }

    pub open spec fn is_diff_computation(&self) -> bool {
        self is DiffComputation
    }
}

/// Whether a failed HEAD lookup means the repository has no history yet;
/// every other failure is broken repository state.
pub fn is_no_history(code: i32) -> (b: bool)
    ensures
        b == (code == UNBORN_BRANCH_CODE),
{
    code == UNBORN_BRANCH_CODE
}

/// The snapshots a comparison needs: the tip's tree when the baseline is the
/// tip, the staging area when either side is the staging area.
pub struct Snapshots<'r> {
    pub tree: Option<Tree<'r>>,
    pub index: Option<Index>,
    pub plan: DiffPlan,
}

impl<'r> Snapshots<'r> {
    pub open spec fn wf(&self) -> bool {
        &&& (self.tree is Some) == (self.plan.baseline == Baseline::HeadTree)
        &&& (self.index is Some) == (self.plan.baseline == Baseline::Staged || self.plan.target
            == Target::Staged)
        &&& self.plan.baseline == Baseline::Staged ==> self.plan.target == Target::WorkTree
    }
}

/// Looks up the history tip and picks the comparison: no history yet (an
/// unborn branch) selects the staging area against the working tree; any
/// other failure, of the tip, its tree or the staging area, is a state error.
pub fn resolve_snapshots(repo: &Repository, include_unstaged: bool) -> (r: Result<
    Snapshots<'_>,
    CoreError,
>)
    ensures
        r matches Ok(s) ==> s.wf() && s.plan == plan_spec(
            s.plan.baseline == Baseline::HeadTree,
            include_unstaged,
        ),
        r matches Err(e) ==> e.is_repository_state(),
{
    let tree = match repo_head(repo) {
        Ok(head) => match head_tree(&head) {
            Ok(t) => Some(t),
            Err(e) => {
                return Err(CoreError::RepositoryState(e));
            },
        },
        Err(e) => {
            if is_no_history(error_code(&e)) {
                None
            } else {
                return Err(CoreError::RepositoryState(e));
            }
        },
    };
    let plan = resolve_plan(tree.is_some(), include_unstaged);
    let index = if plan.baseline == Baseline::Staged || plan.target == Target::Staged {
        match repo_index(repo) {
            Ok(i) => Some(i),
            Err(e) => {
                return Err(CoreError::RepositoryState(e));
            },
        }
    } else {
        None
    };
    Ok(Snapshots { tree, index, plan })
}

/// Computes the difference the snapshots' plan asks for.
pub fn compute_diff<'r>(repo: &'r Repository, s: &Snapshots<'_>) -> (r: Result<
    Diff<'r>,
    CoreError,
>)
    requires
        s.wf(),
    ensures
        r matches Ok(d) ==> diff_plan(d) == s.plan,
        r matches Err(e) ==> e.is_diff_computation(),
{
    let p = s.plan;
    let result = match &s.tree {
        Some(t) => match &s.index {
            Some(i) => tree_to_index(repo, t, i, p.include_untracked, p.recurse_untracked_dirs),
            None => tree_to_workdir(repo, t, p.include_untracked, p.recurse_untracked_dirs),
        },
        None => {
            let i = s.index.as_ref().unwrap();
            index_to_workdir(repo, i, p.include_untracked, p.recurse_untracked_dirs)
        },
    };
    match result {
        Ok(diff) => Ok(diff),
        Err(e) => Err(CoreError::DiffComputation(e)),
    }
}

/// Compares the two snapshots that [`resolve_plan`] picks for the
/// repository's state, and returns the difference with the plan it follows.
pub fn get_combined_diff<'r>(
    repo: &'r Repository,
    include_unstaged: bool,
) -> (r: Result<(Diff<'r>, DiffPlan), CoreError>)
    ensures
        r matches Ok((d, p)) ==> diff_plan(d) == p && p == plan_spec(
            p.baseline == Baseline::HeadTree,
            include_unstaged,
        ),
{
    let snapshots = resolve_snapshots(repo, include_unstaged)?;
    let diff = compute_diff(repo, &snapshots)?;
    Ok((diff, snapshots.plan))
}

/// Walks the difference file by file, hunk by hunk and line by line, and
/// collects one record per path: every delta opens its record, also one with
/// no changed lines, and then its lines are filed in order. A failure to
/// produce a file's lines is a failure of the difference itself.
pub fn collect_changes(diff: &Diff<'_>) -> (r: Result<ChangeSet, CoreError>)
    ensures
        r matches Ok(set) ==> set.wf() && exists|ls: Seq<Seq<(char, Seq<u8>)>>|
            ls.len() == diff_deltas(*diff).len() && set@ == collect_spec(diff_deltas(*diff), ls),
        r matches Ok(set) ==> forall|j: int|
            0 <= j < diff_deltas(*diff).len() ==> #[trigger] has_path(
                set@,
                view_path(diff_deltas(*diff)[j]),
            ),
        r matches Err(e) ==> e.is_diff_computation(),
{
    let ghost ds = diff_deltas(*diff);
    let mut set = ChangeSet::new();
    let n = delta_count(diff);
    let ghost mut ls: Seq<Seq<(char, Seq<u8>)>> = seq![];
    let mut i: usize = 0;
    while i < n
        invariant
            n == ds.len(),
            ds == diff_deltas(*diff),
            i <= n,
            ls.len() == i,
            set.wf(),
            set@ == collect_spec(ds.subrange(0, i as int), ls),
        decreases n - i,
    {
        let d = delta_at(diff, i).unwrap();
        let ghost dv = delta_view(d);
        let ghost k = kind_of_status(d.status);
        let ghost prev = set@;
        set.on_file(&d);
        let ghost start = set@;
        let ghost mut cur: Seq<(char, Seq<u8>)> = seq![];
        let patch = match patch_at(diff, i) {
            Ok(p) => p,
            Err(e) => {
                return Err(CoreError::DiffComputation(e));
            },
        };
        if let Some(p) = patch {
            let hunks = hunk_count(&p);
            let mut h: usize = 0;
            while h < hunks && set.on_hunk()
                invariant
                    set.wf(),
                    set@ == lines_spec(start, delta_path_spec(d), k, cur),
                    k == kind_of_status(d.status),
                decreases hunks - h,
            {
                let lines = match hunk_line_count(&p, h) {
                    Ok(c) => c,
                    Err(e) => {
                        return Err(CoreError::DiffComputation(e));
                    },
                };
                let mut l: usize = 0;
                while l < lines
                    invariant
                        set.wf(),
                        set@ == lines_spec(start, delta_path_spec(d), k, cur),
                        k == kind_of_status(d.status),
                    decreases lines - l,
                {
                    match line_at(&p, h, l) {
                        Ok((origin, content)) => {
                            set.on_line(&d, origin, content.as_slice());
                            proof {
                                let x = (origin, content@);
                                assert(cur.push(x).drop_last() =~= cur);
                                cur = cur.push(x);
                            }
                        },
                        Err(e) => {
                            return Err(CoreError::DiffComputation(e));
                        },
                    }
                    l = l + 1;
                }
                h = h + 1;
            }
        }
        proof {
            assert(ds.subrange(0, i as int + 1).drop_last() =~= ds.subrange(0, i as int));
            assert(ls.push(cur).drop_last() =~= ls);
            assert(ds.subrange(0, i as int + 1).last() == dv);
            assert(delta_path_spec(d) == view_path(dv));
            ls = ls.push(cur);
        }
        i = i + 1;
    }
    assert(ds.subrange(0, n as int) =~= ds);
    assert forall|j: int| 0 <= j < n implies #[trigger] has_path(set@, view_path(ds[j])) by {
        lemma_collect_covers_every_delta(ds, ls, j);
    }
    Ok(set)
}

/// The text block for a difference: the rendering of the records collected
/// from its deltas and their lines.
pub fn summarize_diff(diff: &Diff<'_>) -> (r: Result<String, CoreError>)
    ensures
        r matches Ok(s) ==> exists|ls: Seq<Seq<(char, Seq<u8>)>>|
            ls.len() == diff_deltas(*diff).len() && s@ == format_spec(
                collect_spec(diff_deltas(*diff), ls),
            ),
        r matches Err(e) ==> e.is_diff_computation(),
{
    let changes = collect_changes(diff)?;
    let s = format_changes_for_prompt(changes.files());
    assert(views(changes.files@) == changes@);
    Ok(s)
}

/// The text block describing the repository's pending changes: the rendering
/// of the records collected from the difference that the plan for the
/// repository's state selects.
pub fn get_structured_changes(
    repo: &Repository,
    include_unstaged: bool,
) -> (r: Result<String, CoreError>)
    ensures
        r matches Ok(s) ==> exists|d: Diff<'_>, ls: Seq<Seq<(char, Seq<u8>)>>|
            {
                &&& diff_plan(d) == plan_spec(diff_plan(d).baseline == Baseline::HeadTree, include_unstaged)
                &&& ls.len() == diff_deltas(d).len()
                &&& s@ == format_spec(collect_spec(diff_deltas(d), ls))
            },
{
    let (diff, _) = get_combined_diff(repo, include_unstaged)?;
    summarize_diff(&diff)
}

} // verus!
