use cdx::layout::{
    controls_variant_for_width, excerpt_column_width, row_cells, search_field_text, status_text,
    table_columns, table_row_text, CellKind, ControlsVariant, RowText, SegmentRole,
};
use cdx::time::{format_relative_time_at, Instant};
use cdx::{
    render_cwd_with_home, App, ColumnPreset, Conversation, FocusTarget, RowMode,
};

fn conversation(
    id: &str,
    cwd: &str,
    title: &str,
    preview: &str,
    updated_at_ms: i64,
    created_at_ms: i64,
) -> Conversation {
    Conversation {
        id: id.to_string(),
        cwd: cwd.to_string(),
        rendered_cwd: render_cwd_with_home(cwd, None),
        display_title: title.to_string(),
        preview: preview.to_string(),
        updated_at_ms,
        created_at_ms,
        is_subagent: false,
    }
}

/// The controls line the screen shows in a row `width` cells wide.
fn controls_line(app: &App, width: u16) -> String {
    controls_variant_for_width(app, width)
        .segments(app)
        .iter()
        .map(|segment| segment.text)
        .collect::<String>()
}

/// The rows the table shows for the visible conversations.
fn visible_rows(app: &App, width: u16) -> Vec<RowText> {
    let excerpt = excerpt_column_width(width, app.column_preset);
    app.visible
        .iter()
        .map(|&index| table_row_text(&app.conversations[index], app.row_mode, excerpt))
        .collect()
}

fn headers(preset: ColumnPreset) -> Vec<&'static str> {
    table_columns(preset).iter().map(|column| column.header).collect()
}

fn count_x(rows: &[RowText]) -> usize {
    rows.iter()
        .flat_map(|row| row.excerpt.iter())
        .map(|line| line.matches('x').count())
        .sum()
}

#[test]
fn render_shows_search_controls_and_results_table() {
    let app = App::new(
        vec![conversation("thread-1", "/tmp/api", "alpha", "preview text", 30, 10)],
        "/tmp/api".to_string(),
    );

    let controls = controls_line(&app, 140);
    assert_eq!(search_field_text(&app), "Type to search");
    assert!(controls.contains("Filter: Cwd [All]"));
    assert!(controls.contains("Threads: [Primary] All"));
    assert!(controls.contains("Sort: [Updated] Created"));
    let columns = headers(app.column_preset);
    assert!(columns.contains(&"Conversation"));
    assert!(columns.contains(&"Excerpt"));
    assert!(!columns.contains(&"Age"));
    assert!(!columns.contains(&"Updated"));
    let rows = visible_rows(&app, 140);
    assert_eq!(rows[0].title, "alpha");
    assert_eq!(rows[0].excerpt, vec!["preview text".to_string()]);
}

#[test]
fn render_keeps_sort_visible_on_narrow_terminals() {
    let app = App::new(
        vec![conversation("thread-1", "/tmp/api", "alpha", "preview text", 30, 10)],
        "/tmp/api".to_string(),
    );

    let controls = controls_line(&app, 110);

    assert!(controls.contains("Sort: [Updated] Created"), "{controls}");
}

#[test]
fn render_can_show_full_column_set() {
    let mut app = App::new(
        vec![conversation("thread-1", "/tmp/api", "alpha", "preview text", 30, 10)],
        "/tmp/api".to_string(),
    );
    app.column_preset = ColumnPreset::Full;

    let columns = headers(app.column_preset);

    assert!(columns.contains(&"Age"));
    assert!(columns.contains(&"Updated"));
}

#[test]
fn render_shows_empty_state_when_no_conversations_match() {
    let mut app = App::new(
        vec![conversation("thread-1", "/tmp/api", "alpha", "preview text", 30, 10)],
        "/tmp/api".to_string(),
    );
    app.query = "missing".to_string();
    app.refresh_visible();

    assert!(app.visible.is_empty());
    assert!(app.selected_conversation().is_none());
    let status = status_text(&app);
    assert_eq!(status.counter, "0/0");
    assert_eq!(status.selected_cwd, "");
}

#[test]
fn render_shows_active_query_status_and_no_preview_placeholder() {
    let mut app = App::new(
        vec![conversation("thread-1", "/tmp/api", "alpha", "", 30, 10)],
        "/tmp/api".to_string(),
    );
    app.query = "alpha".to_string();
    app.refresh_visible();

    let rows = visible_rows(&app, 140);
    assert_eq!(search_field_text(&app), "alpha");
    assert_eq!(rows[0].title, "alpha");
    assert_eq!(rows[0].excerpt, vec!["[no preview]".to_string()]);
    let status = status_text(&app);
    assert_eq!(status.counter, "1/1");
    assert_eq!(status.columns, "Cols: Core");
    assert_eq!(status.view, "View: Compact");
    assert_eq!(status.threads, "Threads: Primary");
}

#[test]
fn render_status_shows_all_threads_when_subagents_are_visible() {
    let mut child = conversation("thread-2", "/tmp/api", "child", "preview", 20, 10);
    child.is_subagent = true;

    let app = App::new_with_options(
        vec![
            conversation("thread-1", "/tmp/api", "alpha", "preview", 30, 10),
            child,
        ],
        "/tmp/api".to_string(),
        true,
    );

    assert_eq!(status_text(&app).threads, "Threads: All");
}

#[test]
fn render_shows_unknown_timestamp_when_date_formatting_fails() {
    let mut app = App::new(
        vec![conversation("thread-1", "/tmp/api", "alpha", "preview text", i64::MAX, 10)],
        "/tmp/api".to_string(),
    );
    app.column_preset = ColumnPreset::Full;

    let now = Instant {
        millis: 1_700_000_000_000,
        nanos: 0,
    };
    let shown = &app.conversations[app.visible[0]];
    assert_eq!(format_relative_time_at(now, shown.updated_at_ms), "unknown");
}

#[test]
fn render_covers_filter_and_sort_focus_states() {
    let mut app = App::new(
        vec![conversation("thread-1", "/tmp/api", "alpha", "preview", 30, 10)],
        "/tmp/api".to_string(),
    );
    app.focus = FocusTarget::Filter;
    assert!(controls_line(&app, 140).contains("Filter: "));

    app.focus = FocusTarget::Subagents;
    assert!(controls_line(&app, 140).contains("Threads: "));

    app.focus = FocusTarget::Sort;
    assert!(controls_line(&app, 140).contains("Sort: "));

    let roles: Vec<SegmentRole> = ControlsVariant::Full
        .segments(&app)
        .iter()
        .map(|segment| segment.role)
        .collect();
    assert_eq!(roles[1], SegmentRole::Filter);
    assert_eq!(roles[4], SegmentRole::Subagents);
    assert_eq!(roles[7], SegmentRole::Sort);
}

#[test]
fn render_uses_minimal_controls_before_truncating_sort() {
    let app = App::new(
        vec![conversation("thread-1", "/tmp/api", "alpha", "preview text", 30, 10)],
        "/tmp/api".to_string(),
    );

    let controls = controls_line(&app, 40);

    assert!(controls.contains("S:[U]"), "{controls}");
}

#[test]
fn render_comfortable_mode_shows_more_excerpt_content() {
    let mut app = App::new(
        vec![conversation("thread-1", "/tmp/api", "alpha", &"x".repeat(150), 30, 10)],
        "/tmp/api".to_string(),
    );
    app.row_mode = RowMode::Comfortable;

    assert_eq!(status_text(&app).view, "View: Comfortable");
    assert!(count_x(&visible_rows(&app, 140)) > 72);
}

#[test]
fn render_excerpt_uses_more_space_on_wider_terminals() {
    let app = App::new(
        vec![conversation("thread-1", "/tmp/api", "alpha", &"x".repeat(200), 30, 10)],
        "/tmp/api".to_string(),
    );

    let narrow = visible_rows(&app, 90);
    let wide = visible_rows(&app, 160);

    assert!(count_x(&wide) > count_x(&narrow));
}

#[test]
fn excerpt_column_width_tracks_layout_for_core_and_full_columns() {
    let core_width = excerpt_column_width(90, ColumnPreset::Core);
    let full_width = excerpt_column_width(90, ColumnPreset::Full);

    assert!(core_width > full_width);
    assert!(core_width > 0);
    assert!(full_width > 0);
}

#[test]
fn excerpt_column_takes_what_the_fixed_columns_leave() {
    // 140 cells: 2 for the highlight mark, 1 for the scrollbar, 2 between
    // columns, 28 + 26 for the fixed columns.
    assert_eq!(excerpt_column_width(140, ColumnPreset::Core), 81);
    // 160 cells: 2 + 1 + 4, then 9 + 16 + 24 + 22.
    assert_eq!(excerpt_column_width(160, ColumnPreset::Full), 82);
    assert!(excerpt_column_width(160, ColumnPreset::Core) > excerpt_column_width(90, ColumnPreset::Core));
}

fn cell_texts(row: &cdx::layout::RowCells) -> Vec<(cdx::layout::CellKind, Vec<String>)> {
    row.cells
        .iter()
        .map(|cell| (cell.kind, cell.lines.clone()))
        .collect()
}

#[test]
fn core_rows_show_directory_title_and_excerpt() {
    let now = Instant { millis: 100, nanos: 0 };
    let row = row_cells(
        &conversation("thread-1", "/tmp/api", "alpha", "preview text", 30, 10),
        ColumnPreset::Core,
        RowMode::Compact,
        20,
        now,
        Some("2024-01-01 10:00"),
    );

    assert_eq!(
        cell_texts(&row),
        vec![
            (CellKind::Directory, vec!["/tmp/api".to_string()]),
            (CellKind::Title, vec!["alpha".to_string()]),
            (CellKind::Excerpt, vec!["preview text".to_string()]),
        ]
    );
    assert_eq!(row.height, 1);
    assert_eq!(row.recency, cdx::time::RecencyBucket::Recent);
}

#[test]
fn full_comfortable_rows_add_age_and_update_time_and_two_lines() {
    let now = Instant {
        millis: 3 * 86_400_000 + 30,
        nanos: 0,
    };
    let row = row_cells(
        &conversation("thread-1", "/tmp/api", "alpha", "", 30, 10),
        ColumnPreset::Full,
        RowMode::Comfortable,
        8,
        now,
        None,
    );

    assert_eq!(
        cell_texts(&row),
        vec![
            (CellKind::Age, vec!["3d ago".to_string()]),
            (CellKind::Updated, vec!["unknown".to_string()]),
            (CellKind::Directory, vec!["/tmp/api".to_string()]),
            (CellKind::Title, vec!["alpha".to_string(), "/tmp/api".to_string()]),
            (
                CellKind::Excerpt,
                vec!["[no prev".to_string(), "iew]".to_string()]
            ),
        ]
    );
    assert_eq!(row.height, 2);

    let dated = row_cells(
        &conversation("thread-1", "/tmp/api", "alpha", "x", i64::MAX, 10),
        ColumnPreset::Full,
        RowMode::Compact,
        8,
        now,
        Some("2024-01-01 10:00"),
    );
    assert_eq!(dated.cells[0].lines, vec!["unknown".to_string()]);
    assert_eq!(dated.cells[1].lines, vec!["2024-01-01 10:00".to_string()]);
    assert_eq!(dated.recency, cdx::time::RecencyBucket::Stale);
}
