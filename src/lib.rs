//! Structured summaries of a repository's pending changes.
//!
//! The library walks a repository difference file by file, hunk by hunk and
//! line by line, keeps one record per touched path with a short annotation
//! per added or removed line, and renders those records as one text block.
pub mod model;
pub mod summary;
pub mod collect;
pub mod format;
pub mod repo;
pub mod snapshot;

pub use collect::{delta_path, ChangeSet, DeltaInfo};
pub use format::format_changes_for_prompt;
pub use repo::{
    collect_changes, compute_diff, get_combined_diff, get_structured_changes, is_no_history,
    resolve_snapshots, summarize_diff, CoreError, Snapshots, UNBORN_BRANCH_CODE,
};
pub use snapshot::{resolve_plan, Baseline, DiffPlan, Target};
pub use model::{ChangeKind, DeltaStatus, FileChange};
pub use summary::{is_white_space, summarize_change, summarize_text, trim_text, truncate_text};
