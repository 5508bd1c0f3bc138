use commit_draft::{
    delta_path, format_changes_for_prompt, is_white_space, resolve_plan, summarize_change, summarize_text,
    trim_text, truncate_text, Baseline, ChangeKind, ChangeSet, DeltaInfo, DeltaStatus,
    FileChange, Target,
};

fn delta(new_path: Option<&str>, old_path: Option<&str>, status: DeltaStatus) -> DeltaInfo {
    DeltaInfo {
        new_path: new_path.map(|p| p.to_string()),
        old_path: old_path.map(|p| p.to_string()),
        status,
    }
}

fn render(set: &ChangeSet) -> String {
    format_changes_for_prompt(set.files())
}

#[test]
fn empty_change_set_renders_empty_text() {
    let set = ChangeSet::new();
    assert!(set.is_empty());
    assert_eq!(render(&set), "");
    assert_eq!(format_changes_for_prompt(&[]), "");
}

#[test]
fn added_line_in_modified_file() {
    let mut set = ChangeSet::new();
    let d = delta(Some("a.txt"), Some("a.txt"), DeltaStatus::Modified);
    set.on_file(&d);
    assert!(set.on_hunk());
    set.on_line(&d, '+', b"hello world\n");
    assert_eq!(render(&set), "- **a.txt**: Modified\n  - Added: hello world\n");
}

#[test]
fn removed_line_in_deleted_file() {
    let mut set = ChangeSet::new();
    let d = delta(None, Some("old/gone.rs"), DeltaStatus::Deleted);
    set.on_file(&d);
    set.on_line(&d, '-', b"fn gone() {}\n");
    assert_eq!(render(&set), "- **old/gone.rs**: Deleted\n  - Removed: fn gone() {}\n");
}

#[test]
fn truncation_at_the_limit() {
    let long: String = "x".repeat(81);
    let cut = truncate_text(&long);
    assert_eq!(cut.chars().count(), 80);
    assert!(cut.ends_with("..."));
    assert_eq!(cut, format!("{}...", "x".repeat(77)));
    let exact: String = "y".repeat(80);
    assert_eq!(truncate_text(&exact), exact);
    let line = format!("  {}\t\n", "z".repeat(81));
    assert_eq!(
        summarize_change('+', line.as_bytes()),
        format!("Added: {}...", "z".repeat(77))
    );
}

#[test]
fn truncation_keeps_whole_characters() {
    let wide: String = "é".repeat(90);
    let cut = truncate_text(&wide);
    assert_eq!(cut, format!("{}...", "é".repeat(77)));
}

#[test]
fn context_lines_add_no_summary() {
    let mut set = ChangeSet::new();
    let d = delta(Some("b.rs"), Some("b.rs"), DeltaStatus::Modified);
    set.on_file(&d);
    set.on_line(&d, ' ', b"unchanged\n");
    set.on_line(&d, '+', b"new\n");
    set.on_line(&d, '=', b"context\n");
    set.on_line(&d, 'F', b"diff --git a/b.rs b/b.rs\n");
    assert_eq!(set.files().len(), 1);
    assert_eq!(set.files()[0].summaries, vec!["Added: new".to_string()]);
    assert_eq!(summarize_change(' ', b"unchanged"), "");
    assert_eq!(summarize_text('H', "@@ -1 +1 @@"), "");
}

#[test]
fn formatting_twice_gives_same_text() {
    let mut set = ChangeSet::new();
    let d1 = delta(Some("one.txt"), None, DeltaStatus::Added);
    let d2 = delta(Some("two.txt"), Some("two.txt"), DeltaStatus::Modified);
    set.on_line(&d1, '+', b"first");
    set.on_line(&d2, '-', b"second");
    let a = render(&set);
    let b = render(&set);
    assert_eq!(a, b);
    assert_eq!(
        a,
        "- **one.txt**: Added\n  - Added: first\n- **two.txt**: Modified\n  - Removed: second\n"
    );
}

#[test]
fn pure_renames_show_headings_only() {
    let mut set = ChangeSet::new();
    let r1 = delta(Some("new_a.txt"), Some("a.txt"), DeltaStatus::Renamed);
    let r2 = delta(Some("new_b.txt"), Some("b.txt"), DeltaStatus::Renamed);
    set.on_file(&r1);
    set.on_file(&r2);
    assert_eq!(render(&set), "- **new_a.txt**: Renamed\n- **new_b.txt**: Renamed\n");
}

#[test]
fn invalid_bytes_are_replaced() {
    assert_eq!(summarize_change('+', &[0x66, 0xff, 0x6f]), "Added: f\u{FFFD}o");
    let mut set = ChangeSet::new();
    let d = delta(Some("bin.dat"), None, DeltaStatus::Modified);
    set.on_line(&d, '-', &[0xc3, 0x28, b'\n']);
    assert_eq!(render(&set), "- **bin.dat**: Modified\n  - Removed: \u{FFFD}(\n");
}

#[test]
fn staged_only_plan_hides_untracked_files() {
    let p = resolve_plan(true, false);
    assert_eq!(p.baseline, Baseline::HeadTree);
    assert_eq!(p.target, Target::Staged);
    assert!(!p.include_untracked);
    assert!(!p.recurse_untracked_dirs);
}

#[test]
fn plans_with_unstaged_or_without_history() {
    let p = resolve_plan(true, true);
    assert_eq!(p.baseline, Baseline::HeadTree);
    assert_eq!(p.target, Target::WorkTree);
    assert!(p.include_untracked && p.recurse_untracked_dirs);
    for unstaged in [false, true] {
        let q = resolve_plan(false, unstaged);
        assert_eq!(q.baseline, Baseline::Staged);
        assert_eq!(q.target, Target::WorkTree);
        assert!(q.include_untracked && q.recurse_untracked_dirs);
    }
}

#[test]
fn paths_fall_back_to_old_then_placeholder() {
    assert_eq!(delta_path(&delta(Some("n"), Some("o"), DeltaStatus::Renamed)), "n");
    assert_eq!(delta_path(&delta(None, Some("o"), DeltaStatus::Deleted)), "o");
    assert_eq!(delta_path(&delta(None, None, DeltaStatus::Modified)), "Unknown file");
}

#[test]
fn unknown_statuses_count_as_modified() {
    assert_eq!(DeltaStatus::Typechange.change_kind(), ChangeKind::Modified);
    assert_eq!(DeltaStatus::Untracked.change_kind(), ChangeKind::Modified);
    assert_eq!(DeltaStatus::Conflicted.change_kind(), ChangeKind::Modified);
    assert_eq!(DeltaStatus::Copied.change_kind(), ChangeKind::Copied);
    assert_eq!(ChangeKind::Copied.label(), "Copied");
}

#[test]
fn kind_is_fixed_by_first_sighting() {
    let mut set = ChangeSet::new();
    let first = delta(Some("f.txt"), None, DeltaStatus::Added);
    let later = delta(Some("f.txt"), None, DeltaStatus::Deleted);
    set.on_line(&first, '+', b"one");
    set.on_line(&later, '-', b"two");
    assert_eq!(set.len(), 1);
    assert_eq!(set.files()[0].change_type, ChangeKind::Added);
    assert_eq!(render(&set), "- **f.txt**: Added\n  - Added: one\n  - Removed: two\n");
}

#[test]
fn trimming_removes_surrounding_white_space() {
    assert_eq!(trim_text(" \t a b \r\n"), "a b");
    assert_eq!(trim_text("\u{3000}wide\u{2003}"), "wide");
    assert_eq!(trim_text("   "), "");
    assert_eq!(trim_text(""), "");
}

#[test]
fn records_render_in_first_seen_order() {
    let mut set = ChangeSet::new();
    let z = delta(Some("z.txt"), None, DeltaStatus::Added);
    let a = delta(Some("a.txt"), None, DeltaStatus::Copied);
    set.on_file(&z);
    set.on_file(&a);
    set.on_line(&z, '+', b"zz");
    let f = FileChange::new("extra".to_string(), ChangeKind::Deleted);
    assert!(f.summaries.is_empty());
    assert_eq!(render(&set), "- **z.txt**: Added\n  - Added: zz\n- **a.txt**: Copied\n");
}

#[test]
fn white_space_matches_std() {
    for code in 0u32..0x3100 {
        if let Some(c) = char::from_u32(code) {
            assert_eq!(is_white_space(c), c.is_whitespace(), "code point {:x}", code);
        }
    }
    assert!(!is_white_space('\u{feff}'));
    assert!(!is_white_space('\u{200b}'));
}
