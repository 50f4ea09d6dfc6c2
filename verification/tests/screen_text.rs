use cdx::layout::{
    compact_filter_label, compact_sort_label, compact_subagent_label, controls_variant_for_width,
    controls_width, excerpt_lines, search_field_text, status_text, table_columns,
    table_row_text, tight_filter_label, tight_sort_label, tight_subagent_label, ColumnWidth,
    ControlsVariant, SegmentRole,
};
use cdx::{
    render_cwd_with_home, truncate_chars, truncate_to_width, App, ColumnPreset, Conversation,
    FilterMode, RowMode, SortMode, SubagentMode,
};

fn conversation(
    id: &str,
    cwd: &str,
    title: &str,
    preview: &str,
    updated_at_ms: i64,
    created_at_ms: i64,
) -> Conversation {
    Conversation {
        id: id.to_string(),
        cwd: cwd.to_string(),
        rendered_cwd: render_cwd_with_home(cwd, None),
        display_title: title.to_string(),
        preview: preview.to_string(),
        updated_at_ms,
        created_at_ms,
        is_subagent: false,
    }
}

fn joined(variant: ControlsVariant, app: &App) -> String {
    variant
        .segments(app)
        .iter()
        .map(|segment| segment.text)
        .collect::<String>()
}

#[test]
fn control_variants_select_full_compact_and_tight_layouts() {
    let mut app = App::new(
        vec![conversation(
            "thread-1",
            "/tmp/api",
            "alpha",
            "preview text",
            30,
            10,
        )],
        "/tmp/api".to_string(),
    );

    assert_eq!(controls_variant_for_width(&app, 110), ControlsVariant::Full);
    assert_eq!(
        controls_variant_for_width(&app, 86),
        ControlsVariant::Compact
    );
    assert_eq!(
        controls_variant_for_width(&app, 80),
        ControlsVariant::Compact
    );

    app.query = "search".to_string();
    assert_eq!(controls_variant_for_width(&app, 50), ControlsVariant::Tight);
    assert_eq!(
        controls_variant_for_width(&app, 30),
        ControlsVariant::Minimal
    );
}

#[test]
fn controls_width_handles_empty_input() {
    assert_eq!(controls_width(&[]), 0);
}

#[test]
fn controls_width_sums_and_caps() {
    assert_eq!(controls_width(&["F:", "[A]", " "]), 6);
    let long = "x".repeat(40_000);
    assert_eq!(controls_width(&[&long, &long]), u16::MAX);
}

#[test]
fn control_variant_labels_cover_alternate_mode_values() {
    assert_eq!(
        compact_filter_label(FilterMode::CurrentDirectory),
        "[Cwd] All"
    );
    assert_eq!(compact_subagent_label(SubagentMode::Show), "Primary [All]");
    assert_eq!(compact_sort_label(SortMode::Created), "Updated [Created]");
    assert_eq!(tight_filter_label(FilterMode::CurrentDirectory), "[C]");
    assert_eq!(tight_filter_label(FilterMode::All), "[A]");
    assert_eq!(tight_subagent_label(SubagentMode::Show), "[A]");
    assert_eq!(tight_sort_label(SortMode::Created), "[C]");
}

#[test]
fn tight_controls_render_short_labels_for_alternate_modes() {
    let mut app = App::new(
        vec![conversation(
            "thread-1",
            "/tmp/api",
            "alpha",
            "preview text",
            30,
            10,
        )],
        "/tmp/api".to_string(),
    );
    app.filter_mode = FilterMode::All;
    app.subagent_mode = SubagentMode::Show;
    app.sort_mode = SortMode::Created;

    assert_eq!(ControlsVariant::Tight.width(&app), 17);
    assert_eq!(joined(ControlsVariant::Tight, &app), "F:[A] T:[A] S:[C]");
}

#[test]
fn minimal_controls_render_shortest_labels_for_default_modes() {
    let app = App::new(
        vec![conversation(
            "thread-1",
            "/tmp/api",
            "alpha",
            "preview text",
            30,
            10,
        )],
        "/tmp/api".to_string(),
    );

    assert_eq!(ControlsVariant::Minimal.width(&app), 14);
    assert_eq!(joined(ControlsVariant::Minimal, &app), "F[A] T[P] S[U]");
}

#[test]
fn full_and_compact_controls_spell_out_the_settings() {
    let app = App::new(Vec::new(), "/tmp/api".to_string());
    assert_eq!(
        joined(ControlsVariant::Full, &app),
        "Filter: Cwd [All]   Threads: [Primary] All   Sort: [Updated] Created"
    );
    assert_eq!(ControlsVariant::Full.width(&app), 68);
    assert_eq!(
        joined(ControlsVariant::Compact, &app),
        "F: Cwd [All]   T: [Primary] All   S: [Updated] Created"
    );
    assert_eq!(ControlsVariant::Compact.width(&app), 54);
    let roles = ControlsVariant::Full
        .segments(&app)
        .iter()
        .map(|segment| segment.role)
        .collect::<Vec<_>>();
    assert_eq!(
        roles,
        vec![
            SegmentRole::Caption,
            SegmentRole::Filter,
            SegmentRole::Spacing,
            SegmentRole::Caption,
            SegmentRole::Subagents,
            SegmentRole::Spacing,
            SegmentRole::Caption,
            SegmentRole::Sort,
        ]
    );
}

#[test]
fn search_field_shows_prompt_or_query() {
    let mut app = App::new(Vec::new(), "/tmp/api".to_string());
    assert_eq!(search_field_text(&app), "Type to search");
    app.query = "alpha".to_string();
    assert_eq!(search_field_text(&app), "alpha");
}

#[test]
fn table_columns_return_expected_headers_and_widths() {
    let core = table_columns(ColumnPreset::Core);
    let full = table_columns(ColumnPreset::Full);

    assert_eq!(core.len(), 3);
    assert_eq!(full.len(), 5);
    assert_eq!(core[2].header, "Excerpt");
    assert_eq!(core[2].width, ColumnWidth::Min(36));
    assert_eq!(full[0].header, "Age");
    assert_eq!(full[1].width, ColumnWidth::Length(16));
}

#[test]
fn truncate_to_width_preserves_column_width_with_ellipsis() {
    assert_eq!(truncate_to_width("abcdef", 4), "abc…");
    assert_eq!(truncate_to_width("abcdef", 1), "…");
    assert_eq!(truncate_to_width("abc", 4), "abc");
    assert_eq!(truncate_to_width("abc", 0), "");
}

#[test]
fn truncate_chars_marks_cuts() {
    assert_eq!(truncate_chars("abcdef", 3), "abc…");
    assert_eq!(truncate_chars("abc", 3), "abc");
    assert_eq!(truncate_chars("äöü", 0), "…");
}

#[test]
fn excerpt_lines_use_mode_specific_visible_lengths() {
    let compact = excerpt_lines(&"x".repeat(40), 10, RowMode::Compact);
    let comfortable = excerpt_lines(&"x".repeat(40), 10, RowMode::Comfortable);

    assert_eq!(compact.len(), 1);
    assert_eq!(compact[0].chars().count(), 10);
    assert!(compact[0].ends_with('…'));
    assert_eq!(comfortable.len(), 2);
    assert_eq!(comfortable[0].chars().count(), 10);
    assert_eq!(comfortable[1].chars().count(), 10);
    assert!(comfortable[1].ends_with('…'));
}

#[test]
fn excerpt_lines_keep_full_second_line_when_content_fits_comfortable_budget() {
    let lines = excerpt_lines("abcdefghijklmno", 10, RowMode::Comfortable);

    assert_eq!(lines, vec!["abcdefghij".to_string(), "klmno".to_string()]);
}

#[test]
fn excerpt_lines_return_empty_lines_when_comfortable_width_is_zero() {
    let lines = excerpt_lines("alpha", 0, RowMode::Comfortable);

    assert_eq!(lines, vec![String::new(), String::new()]);
}

#[test]
fn excerpt_lines_at_exactly_two_widths_keep_everything() {
    let lines = excerpt_lines("abcdefghij", 5, RowMode::Comfortable);
    assert_eq!(lines, vec!["abcde".to_string(), "fghij".to_string()]);
    let short = excerpt_lines("abc", 5, RowMode::Comfortable);
    assert_eq!(short, vec!["abc".to_string(), String::new()]);
}

#[test]
fn comfortable_table_row_handles_single_line_excerpt() {
    let row = table_row_text(
        &conversation("thread-1", "/tmp/api", "alpha", "short excerpt", 30, 10),
        RowMode::Comfortable,
        20,
    );
    assert_eq!(row.excerpt, vec!["short excerpt".to_string(), String::new()]);
}

#[test]
fn table_row_compact_full_uses_placeholder_excerpt_and_unknown_timestamp() {
    let row = table_row_text(
        &conversation("thread-1", "/tmp/api", "alpha", "", 0, 0),
        RowMode::Compact,
        8,
    );
    assert_eq!(row.excerpt, vec!["[no pre…".to_string()]);
}

#[test]
fn table_row_comfortable_full_keeps_second_excerpt_line_when_needed() {
    let row = table_row_text(
        &conversation("thread-1", "/tmp/api", "alpha", &"x".repeat(40), 30, 10),
        RowMode::Comfortable,
        10,
    );
    assert_eq!(row.excerpt.len(), 2);
    assert_eq!(row.excerpt[1], format!("{}…", "x".repeat(9)));
}

#[test]
fn table_row_cuts_long_titles_and_directories() {
    let row = table_row_text(
        &conversation(
            "thread-1",
            "/a/very/long/directory/name/that/keeps/going",
            "a title that is longer than twenty four characters",
            "p",
            30,
            10,
        ),
        RowMode::Compact,
        10,
    );
    assert_eq!(row.directory, "/a/very/long/directory/nam…");
    assert_eq!(row.title, "a title that is longer t…");
    assert_eq!(row.title_directory, "/a/very/long/directory/n…");
}

#[test]
fn status_text_reports_position_and_view() {
    let mut child = conversation("thread-2", "/tmp/child", "child", "preview", 20, 10);
    child.is_subagent = true;
    let mut app = App::new_with_options(
        vec![
            conversation("thread-1", "/tmp/api", "alpha", "preview", 30, 10),
            child,
        ],
        "/tmp/api".to_string(),
        true,
    );
    let status = status_text(&app);
    assert_eq!(status.selected_cwd, "/tmp/api");
    assert_eq!(status.counter, "1/2");
    assert_eq!(status.columns, "Cols: Core");
    assert_eq!(status.view, "View: Compact");
    assert_eq!(status.threads, "Threads: All");

    app.move_down();
    app.toggle_row_mode();
    app.toggle_column_preset();
    let status = status_text(&app);
    assert_eq!(status.selected_cwd, "/tmp/child");
    assert_eq!(status.counter, "2/2");
    assert_eq!(status.columns, "Cols: Full");
    assert_eq!(status.view, "View: Comfortable");

    let empty = App::new(Vec::new(), "/tmp/api".to_string());
    let status = status_text(&empty);
    assert_eq!(status.selected_cwd, "");
    assert_eq!(status.counter, "0/0");
    assert_eq!(status.threads, "Threads: Primary");
}
