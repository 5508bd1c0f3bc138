use vstd::prelude::*;

use crate::model::{kind_of_status, ChangeKind, DeltaStatus, FileChange, FileView};
use crate::summary::{lossy_text, summarize_change, summary_spec};

verus! {

/// What a file delta tells about the file it belongs to: its path on each
/// side of the difference, where known, and its status.
pub struct DeltaInfo {
    pub new_path: Option<String>,
    pub old_path: Option<String>,
    pub status: DeltaStatus,
}

/// The path a delta's lines are filed under: the new path, else the old one
/// (a deletion has no new path), else a fixed placeholder.
pub open spec fn delta_path_spec(d: DeltaInfo) -> Seq<char> {
    match d.new_path {
        Some(p) => p@,
        None => match d.old_path {
            Some(p) => p@,
            None => "Unknown file"@,
        },
    }
}

pub fn delta_path(d: &DeltaInfo) -> (r: String)
    ensures
        r@ == delta_path_spec(*d),
        r@ == view_path(delta_view(*d)),
{
    match &d.new_path {
        Some(p) => p.clone(),
        None => match &d.old_path {
            Some(p) => p.clone(),
            None => String::from_str("Unknown file"),
        },
    }
}

/// A delta as plain values: new path, old path and status.
pub type DeltaView = (Option<Seq<char>>, Option<Seq<char>>, DeltaStatus);

pub open spec fn opt_view(o: Option<String>) -> Option<Seq<char>> {
    match o {
        Some(s) => Some(s@),
        None => None,
    }
}

pub open spec fn delta_view(d: DeltaInfo) -> DeltaView {
    (opt_view(d.new_path), opt_view(d.old_path), d.status)
}

/// The path a delta's lines are filed under, over its plain values.
pub open spec fn view_path(d: DeltaView) -> Seq<char> {
    match d.0 {
        Some(p) => p,
        None => match d.1 {
            Some(p) => p,
            None => "Unknown file"@,
        },
    }
}

/// The records after the lines of one delta, given as origin marker and raw
/// bytes, are filed in order under the path `p` with kind `k`.
pub open spec fn lines_spec(
    fs: Seq<FileView>,
    p: Seq<char>,
    k: ChangeKind,
    lines: Seq<(char, Seq<u8>)>,
) -> Seq<FileView>
    decreases lines.len(),
{
    if lines.len() == 0 {
        fs
    } else {
        record_line_spec(
            lines_spec(fs, p, k, lines.drop_last()),
            p,
            k,
            summary_spec(lines.last().0, lossy_text(lines.last().1)),
        )
    }
}

/// The records collected from the deltas `ds`, in order, where `ls[i]` holds
/// the lines of `ds[i]`: each delta first opens its record, then its lines
/// are filed.
pub open spec fn collect_spec(ds: Seq<DeltaView>, ls: Seq<Seq<(char, Seq<u8>)>>) -> Seq<
    FileView,
>
    decreases ds.len(),
{
    if ds.len() == 0 || ls.len() == 0 {
        seq![]
    } else {
        let d = ds.last();
        let k = kind_of_status(d.2);
        lines_spec(
            touch_spec(collect_spec(ds.drop_last(), ls.drop_last()), view_path(d), k),
            view_path(d),
            k,
            ls.last(),
        )
    }
}

/// No two records share a path.
pub open spec fn unique_paths(fs: Seq<FileView>) -> bool {
    forall|i: int, j: int| 0 <= i < j < fs.len() ==> fs[i].path != fs[j].path
}

pub open spec fn has_path(fs: Seq<FileView>, p: Seq<char>) -> bool {
    exists|i: int| 0 <= i < fs.len() && fs[i].path == p
}

/// The records after a file is seen: a path met for the first time gets a
/// record with no annotations; a known path is left as it is.
pub open spec fn touch_spec(fs: Seq<FileView>, p: Seq<char>, k: ChangeKind) -> Seq<FileView> {
    if has_path(fs, p) {
        fs
    } else {
        fs.push(FileView { path: p, kind: k, summaries: seq![] })
    }
}

/// The records after a line of the file `p` with annotation `s` is seen. An
/// empty annotation adds nothing; a non-empty one is appended to the path's
/// record, created if needed with kind `k`. A known record keeps its kind.
pub open spec fn record_line_spec(
    fs: Seq<FileView>,
    p: Seq<char>,
    k: ChangeKind,
    s: Seq<char>,
) -> Seq<FileView> {
    if s.len() == 0 {
        touch_spec(fs, p, k)
    } else if has_path(fs, p) {
        let i = choose|i: int| 0 <= i < fs.len() && fs[i].path == p;
        fs.update(i, FileView { summaries: fs[i].summaries.push(s), ..fs[i] })
    } else {
        fs.push(FileView { path: p, kind: k, summaries: seq![s] })
    }
}

/// A line that is neither an addition nor a removal adds no annotation: at
/// most it opens a record for its file, and every existing record stays as
/// it was.
pub proof fn lemma_context_line_adds_nothing(
    fs: Seq<FileView>,
    p: Seq<char>,
    k: ChangeKind,
    origin: char,
    text: Seq<char>,
)
    requires
        origin != '+',
        origin != '-',
    ensures
        record_line_spec(fs, p, k, summary_spec(origin, text)) == touch_spec(fs, p, k),
        forall|i: int|
            0 <= i < fs.len() ==> #[trigger] record_line_spec(fs, p, k, summary_spec(origin, text))[i]
                == fs[i],
{
}

/// Recording a line keeps the paths distinct, and every record keeps its
/// path and its kind: a kind is set when a path is first met, never later.
pub proof fn lemma_record_line_keeps_records(
    fs: Seq<FileView>,
    p: Seq<char>,
    k: ChangeKind,
    s: Seq<char>,
)
    requires
        unique_paths(fs),
    ensures
        unique_paths(record_line_spec(fs, p, k, s)),
        record_line_spec(fs, p, k, s).len() >= fs.len(),
        forall|i: int|
            0 <= i < fs.len() ==> {
                &&& (#[trigger] record_line_spec(fs, p, k, s)[i]).path == fs[i].path
                &&& record_line_spec(fs, p, k, s)[i].kind == fs[i].kind
            },
        has_path(record_line_spec(fs, p, k, s), p),
{
    let r = record_line_spec(fs, p, k, s);
    if !has_path(fs, p) {
        assert(r[fs.len() as int].path == p);
    } else {
        let i = choose|i: int| 0 <= i < fs.len() && fs[i].path == p;
        assert(r[i].path == p);
    }
}

/// Recording a line loses no path that already has a record.
pub proof fn lemma_record_line_keeps_paths(
    fs: Seq<FileView>,
    p: Seq<char>,
    k: ChangeKind,
    s: Seq<char>,
    q: Seq<char>,
)
    requires
        unique_paths(fs),
        has_path(fs, q),
    ensures
        has_path(record_line_spec(fs, p, k, s), q),
{
    lemma_record_line_keeps_records(fs, p, k, s);
    let i = choose|i: int| 0 <= i < fs.len() && fs[i].path == q;
    assert(record_line_spec(fs, p, k, s)[i].path == q);
}

/// Filing a delta's lines keeps the paths distinct and loses no record.
pub proof fn lemma_lines_keep_paths(
    fs: Seq<FileView>,
    p: Seq<char>,
    k: ChangeKind,
    lines: Seq<(char, Seq<u8>)>,
    q: Seq<char>,
)
    requires
        unique_paths(fs),
    ensures
        unique_paths(lines_spec(fs, p, k, lines)),
        has_path(fs, q) ==> has_path(lines_spec(fs, p, k, lines), q),
    decreases lines.len(),
{
    if lines.len() > 0 {
        lemma_lines_keep_paths(fs, p, k, lines.drop_last(), q);
        let prev = lines_spec(fs, p, k, lines.drop_last());
        let s = summary_spec(lines.last().0, lossy_text(lines.last().1));
        lemma_record_line_keeps_records(prev, p, k, s);
        if has_path(fs, q) {
            lemma_record_line_keeps_paths(prev, p, k, s, q);
        }
    }
}

/// Collecting a difference gives records with distinct paths, and every
/// delta's path has a record, also a delta with no lines.
pub proof fn lemma_collect_covers_every_delta(
    ds: Seq<DeltaView>,
    ls: Seq<Seq<(char, Seq<u8>)>>,
    j: int,
)
    requires
        ls.len() == ds.len(),
        0 <= j < ds.len(),
    ensures
        unique_paths(collect_spec(ds, ls)),
        has_path(collect_spec(ds, ls), view_path(ds[j])),
    decreases ds.len(),
{
    let d = ds.last();
    let k = kind_of_status(d.2);
    let p = view_path(d);
    let prev = collect_spec(ds.drop_last(), ls.drop_last());
    let q = view_path(ds[j]);
    if ds.len() > 1 {
        let jj = if j < ds.len() - 1 { j } else { 0 };
        lemma_collect_covers_every_delta(ds.drop_last(), ls.drop_last(), jj);
    } else {
        assert(prev == Seq::<FileView>::empty());
    }
    assert(touch_spec(prev, p, k) == record_line_spec(prev, p, k, seq![]));
    lemma_record_line_keeps_records(prev, p, k, seq![]);
    if j < ds.len() - 1 {
        assert(ds.drop_last()[j] == ds[j]);
        lemma_record_line_keeps_paths(prev, p, k, seq![], q);
    }
    lemma_lines_keep_paths(touch_spec(prev, p, k), p, k, ls.last(), q);
}

/// The records collected from a difference, one per path, in the order the
/// paths were first met.
pub struct ChangeSet {
    pub files: Vec<FileChange>,
}

impl View for ChangeSet {
    type V = Seq<FileView>;

    open spec fn view(&self) -> Seq<FileView> {
        self.files@.map_values(|f: FileChange| f@)
    }
}

impl ChangeSet {
    pub open spec fn wf(&self) -> bool {
        unique_paths(self@)
    }

    pub fn new() -> (r: ChangeSet)
        ensures
            r@ == Seq::<FileView>::empty(),
            r.wf(),
    {
        let r = ChangeSet { files: Vec::new() };
        assert(r@ =~= Seq::<FileView>::empty());
        r
    }

    pub fn len(&self) -> (n: usize)
        ensures
            n == self@.len(),
    {
        self.files.len()
    }

    pub fn is_empty(&self) -> (b: bool)
        ensures
            b == (self@.len() == 0),
    {
        self.files.len() == 0
    }

    /// The records, in the order their paths were first met.
    pub fn files(&self) -> (r: &[FileChange])
        ensures
            r@ == self.files@,
    {
        self.files.as_slice()
    }

    /// The position of the record for `path`, if there is one.
    pub fn find(&self, path: &String) -> (r: Option<usize>)
        ensures
            match r {
                Some(i) => i < self@.len() && self@[i as int].path == path@,
                None => !has_path(self@, path@),
            },
    {
        let mut i: usize = 0;
        while i < self.files.len()
            invariant
                i <= self.files@.len(),
                forall|j: int| 0 <= j < i ==> self@[j].path != path@,
            decreases self.files@.len() - i,
        {
            if self.files[i].file_path == *path {
                return Some(i);
            }
            i = i + 1;
        }
        None
    }

    /// Makes sure `path` has a record; a new one gets `kind`.
    pub fn record_file(&mut self, path: String, kind: ChangeKind)
        requires
            old(self).wf(),
        ensures
            final(self).wf(),
            final(self)@ == touch_spec(old(self)@, path@, kind),
    {
        match self.find(&path) {
            Some(_) => {},
            None => {
                let p = Ghost(path@);
                self.files.push(FileChange::new(path, kind));
                assert(self@ =~= touch_spec(old(self)@, p@, kind));
            },
        }
    }

    /// Files the annotation `summary` under `path`; an empty one only makes
    /// sure the record exists.
    pub fn record_summary(&mut self, path: String, kind: ChangeKind, summary: String)
        requires
            old(self).wf(),
        ensures
            final(self).wf(),
            final(self)@ == record_line_spec(old(self)@, path@, kind, summary@),
    {
        if summary.as_str().is_empty() {
            proof {
                assert(summary@.len() == 0);
            }
            self.record_file(path, kind);
            return;
        }
        proof {
            assert(summary@.len() != 0);
        }
        match self.find(&path) {
            Some(i) => {
                let ghost fs = self@;
                proof {
                    let c = choose|c: int| 0 <= c < fs.len() && fs[c].path == path@;
                    assert(c == i as int);
                }
                let ghost s = summary@;
                self.files[i].summaries.push(summary);
                assert(self.files@[i as int].summaries@.map_values(|t: String| t@)
                    =~= fs[i as int].summaries.push(s));
                assert(self@ =~= record_line_spec(fs, path@, kind, s));
            },
            None => {
                let ghost p = path@;
                let ghost s = summary@;
                let mut f = FileChange::new(path, kind);
                f.summaries.push(summary);
                assert(f@.summaries =~= seq![s]);
                self.files.push(f);
                assert(self@ =~= record_line_spec(old(self)@, p, kind, s));
            },
        }
    }

    /// The file hook of the traversal: every delta gets a record, also one
    /// whose content produced no changed lines.
    pub fn on_file(&mut self, d: &DeltaInfo)
        requires
            old(self).wf(),
        ensures
            final(self).wf(),
            final(self)@ == touch_spec(old(self)@, delta_path_spec(*d), kind_of_status(d.status)),
    {
        let path = delta_path(d);
        self.record_file(path, d.status.change_kind());
    }

    /// The hunk hook of the traversal: lines carry their own delta, so a hunk
    /// boundary changes nothing and the walk always goes on.
    pub fn on_hunk(&self) -> (go_on: bool)
        ensures
            go_on,
    {
        true
    }

    /// The line hook of the traversal: files the line's annotation under the
    /// path of its delta.
    pub fn on_line(&mut self, d: &DeltaInfo, origin: char, content: &[u8])
        requires
            old(self).wf(),
        ensures
            final(self).wf(),
            final(self)@ == record_line_spec(
                old(self)@,
                delta_path_spec(*d),
                kind_of_status(d.status),
                summary_spec(origin, lossy_text(content@)),
            ),
    {
        let path = delta_path(d);
        let summary = summarize_change(origin, content);
        self.record_summary(path, d.status.change_kind(), summary);
    }
}

} // verus!
