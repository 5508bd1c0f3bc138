use vstd::prelude::*;

verus! {

/// The older side of a comparison.
#[derive(Clone, Copy, Debug, PartialEq, Eq, Structural)]
pub enum Baseline {
    /// The staging area.
    Staged,
    /// The tree of the commit at the history tip.
    HeadTree,
}

/// The newer side of a comparison.
#[derive(Clone, Copy, Debug, PartialEq, Eq, Structural)]
pub enum Target {
    WorkTree,
    Staged,
}

/// Which two snapshots to compare, and how untracked files are treated.
#[derive(Clone, Copy, Debug, PartialEq, Eq, Structural)]
pub struct DiffPlan {
    pub baseline: Baseline,
    pub target: Target,
    pub include_untracked: bool,
    pub recurse_untracked_dirs: bool,
}

/// Without history, the staging area is compared with the working tree and
/// everything untracked is shown. With history, the tip's tree is compared
/// with the working tree (untracked files shown) when unstaged changes are
/// wanted, and with the staging area (untracked files hidden) otherwise.
pub open spec fn plan_spec(has_history: bool, include_unstaged: bool) -> DiffPlan {
    if !has_history {
        DiffPlan {
            baseline: Baseline::Staged,
            target: Target::WorkTree,
            include_untracked: true,
            recurse_untracked_dirs: true,
        }
    } else if include_unstaged {
        DiffPlan {
            baseline: Baseline::HeadTree,
            target: Target::WorkTree,
            include_untracked: true,
            recurse_untracked_dirs: true,
        }
    } else {
        DiffPlan {
            baseline: Baseline::HeadTree,
            target: Target::Staged,
            include_untracked: false,
            recurse_untracked_dirs: false,
        }
    }
}

pub fn resolve_plan(has_history: bool, include_unstaged: bool) -> (p: DiffPlan)
    ensures
        p == plan_spec(has_history, include_unstaged),
{
    if !has_history {
        DiffPlan {
            baseline: Baseline::Staged,
            target: Target::WorkTree,
            include_untracked: true,
            recurse_untracked_dirs: true,
        }
    } else if include_unstaged {
        DiffPlan {
            baseline: Baseline::HeadTree,
            target: Target::WorkTree,
            include_untracked: true,
            recurse_untracked_dirs: true,
        }
    } else {
        DiffPlan {
            baseline: Baseline::HeadTree,
            target: Target::Staged,
            include_untracked: false,
            recurse_untracked_dirs: false,
        }
    }
}

/// In a repository with history, asking for staged changes only compares
/// against the staging area and leaves untracked files out altogether.
pub proof fn lemma_staged_only_hides_untracked(include_unstaged: bool)
    requires
        !include_unstaged,
    ensures
        plan_spec(true, include_unstaged).target == Target::Staged,
        !plan_spec(true, include_unstaged).include_untracked,
        !plan_spec(true, include_unstaged).recurse_untracked_dirs,
{
}

} // verus!
