use vstd::prelude::*;

verus! {

/// How a file took part in a difference.
#[derive(Clone, Copy, Debug, PartialEq, Eq, Structural)]
pub enum ChangeKind {
    Added,
    Deleted,
    Modified,
    Renamed,
    Copied,
}

/// Every status a file delta can carry in a repository difference.
#[derive(Clone, Copy, Debug, PartialEq, Eq, Structural)]
pub enum DeltaStatus {
    Unmodified,
    Added,
    Deleted,
    Modified,
    Renamed,
    Copied,
    Ignored,
    Untracked,
    Typechange,
    Unreadable,
    Conflicted,
}

/// The kind recorded for a delta status: the five named statuses keep their
/// name, every other status counts as a modification.
pub open spec fn kind_of_status(s: DeltaStatus) -> ChangeKind {
    match s {
        DeltaStatus::Added => ChangeKind::Added,
        DeltaStatus::Deleted => ChangeKind::Deleted,
        DeltaStatus::Renamed => ChangeKind::Renamed,
        DeltaStatus::Copied => ChangeKind::Copied,
        _ => ChangeKind::Modified,
    }
}

impl DeltaStatus {
    pub fn change_kind(&self) -> (k: ChangeKind)
        ensures
            k == kind_of_status(*self),
    {
        match self {
            DeltaStatus::Added => ChangeKind::Added,
            DeltaStatus::Deleted => ChangeKind::Deleted,
            DeltaStatus::Renamed => ChangeKind::Renamed,
            DeltaStatus::Copied => ChangeKind::Copied,
            _ => ChangeKind::Modified,
        }
    }
}

impl ChangeKind {
    /// The word that names the kind in the rendered text.
    pub open spec fn label_spec(self) -> Seq<char> {
        match self {
            ChangeKind::Added => "Added"@,
            ChangeKind::Deleted => "Deleted"@,
            ChangeKind::Modified => "Modified"@,
            ChangeKind::Renamed => "Renamed"@,
            ChangeKind::Copied => "Copied"@,
        }
    }

    pub fn label(&self) -> (r: String)
        ensures
            r@ == self.label_spec(),
    {
        match self {
            ChangeKind::Added => String::from_str("Added"),
            ChangeKind::Deleted => String::from_str("Deleted"),
            ChangeKind::Modified => String::from_str("Modified"),
            ChangeKind::Renamed => String::from_str("Renamed"),
            ChangeKind::Copied => String::from_str("Copied"),
        }
    }
}

/// The mathematical content of a [`FileChange`].
pub struct FileView {
    pub path: Seq<char>,
    pub kind: ChangeKind,
    pub summaries: Seq<Seq<char>>,
}

/// One record per touched path: its kind and one annotation per informative
/// changed line, in the order the lines were met.
pub struct FileChange {
    pub file_path: String,
    pub change_type: ChangeKind,
    pub summaries: Vec<String>,
}

impl View for FileChange {
    type V = FileView;

    open spec fn view(&self) -> FileView {
        FileView {
            path: self.file_path@,
            kind: self.change_type,
            summaries: self.summaries@.map_values(|s: String| s@),
        }
    }
}

impl FileChange {
    /// A record with no annotations yet.
    pub fn new(file_path: String, change_type: ChangeKind) -> (r: FileChange)
        ensures
            r@ == (FileView { path: file_path@, kind: change_type, summaries: seq![] }),
    {
        let r = FileChange { file_path, change_type, summaries: Vec::new() };
        assert(r@.summaries =~= seq![]);
        r
    }
}

} // verus!
