use vstd::prelude::*;

use crate::collect::collect_spec;
use crate::model::{FileChange, FileView};

verus! {

/// One indented bullet line per annotation, in order.
pub open spec fn bullets_spec(ss: Seq<Seq<char>>) -> Seq<char>
    decreases ss.len(),
{
    if ss.len() == 0 {
        seq![]
    } else {
        bullets_spec(ss.drop_last()) + "  - "@ + ss.last() + "\n"@
    }
}

/// The heading line of a record: its path in bold and its kind.
pub open spec fn heading_spec(f: FileView) -> Seq<char> {
    "- **"@ + f.path + "**: "@ + f.kind.label_spec() + "\n"@
}

/// A record's heading followed by its bullets.
pub open spec fn block_spec(f: FileView) -> Seq<char> {
    heading_spec(f) + bullets_spec(f.summaries)
}

/// The blocks of all records, in order.
pub open spec fn format_spec(fs: Seq<FileView>) -> Seq<char>
    decreases fs.len(),
{
    if fs.len() == 0 {
        seq![]
    } else {
        format_spec(fs.drop_last()) + block_spec(fs.last())
    }
}

pub open spec fn views(changes: Seq<FileChange>) -> Seq<FileView> {
    changes.map_values(|f: FileChange| f@)
}

/// Renders the records as one text block; no records give the empty text.
/// The text depends on the records' contents alone, so rendering the same
/// records twice gives the same text.
pub fn format_changes_for_prompt(changes: &[FileChange]) -> (r: String)
    ensures
        r@ == format_spec(views(changes@)),
{
    let ghost vs = views(changes@);
    let mut formatted = String::new();
    let mut i: usize = 0;
    assert(vs.subrange(0, 0) =~= Seq::<FileView>::empty());
    while i < changes.len()
        invariant
            i <= changes@.len(),
            vs == views(changes@),
            formatted@ == format_spec(vs.subrange(0, i as int)),
        decreases changes@.len() - i,
    {
        let change = &changes[i];
        let ghost before = formatted@;
        formatted.append("- **");
        formatted.append(change.file_path.as_str());
        formatted.append("**: ");
        let label = change.change_type.label();
        formatted.append(label.as_str());
        formatted.append("\n");
        let ghost f = change@;
        assert(formatted@ =~= before + heading_spec(f));
        let ghost head = formatted@;
        let mut j: usize = 0;
        assert(f.summaries.subrange(0, 0) =~= Seq::<Seq<char>>::empty());
        while j < change.summaries.len()
            invariant
                j <= change.summaries@.len(),
                f == change@,
                formatted@ == head + bullets_spec(f.summaries.subrange(0, j as int)),
            decreases change.summaries@.len() - j,
        {
            let ghost mid = formatted@;
            formatted.append("  - ");
            formatted.append(change.summaries[j].as_str());
            formatted.append("\n");
            proof {
                let sub = f.summaries.subrange(0, j as int + 1);
                assert(sub.drop_last() =~= f.summaries.subrange(0, j as int));
                assert(sub.last() == change.summaries@[j as int]@);
                assert(formatted@ =~= mid + "  - "@ + sub.last() + "\n"@);
            }
            j = j + 1;
        }
        proof {
            assert(f.summaries.subrange(0, j as int) =~= f.summaries);
            let sub = vs.subrange(0, i as int + 1);
            assert(sub.drop_last() =~= vs.subrange(0, i as int));
            assert(sub.last() == f);
            assert(formatted@ =~= before + block_spec(f));
        }
        i = i + 1;
    }
    assert(vs.subrange(0, i as int) =~= vs);
    formatted
}

/// The text is empty exactly when there are no records.
pub proof fn lemma_format_empty_iff(fs: Seq<FileView>)
    ensures
        (format_spec(fs).len() == 0) == (fs.len() == 0),
{
    reveal_strlit("- **");
    if fs.len() > 0 {
        let f = fs.last();
        assert(heading_spec(f).len() >= 4);
    }
}

/// Rendering depends on the records' contents alone: records with the same
/// contents, such as one set of records rendered twice, give the same text.
pub proof fn lemma_format_deterministic(a: Seq<FileChange>, b: Seq<FileChange>)
    requires
        views(a) == views(b),
    ensures
        format_spec(views(a)) == format_spec(views(b)),
{
}

/// A difference without deltas gives no records, and so the empty text.
pub proof fn lemma_no_deltas_empty_text(ls: Seq<Seq<(char, Seq<u8>)>>)
    ensures
        collect_spec(Seq::empty(), ls) == Seq::<FileView>::empty(),
        format_spec(collect_spec(Seq::empty(), ls)).len() == 0,
{
}

/// A record without annotations renders as its heading line alone.
pub proof fn lemma_block_without_summaries(f: FileView)
    requires
        f.summaries.len() == 0,
    ensures
        block_spec(f) == heading_spec(f),
{
    assert(block_spec(f) =~= heading_spec(f));
}

} // verus!
