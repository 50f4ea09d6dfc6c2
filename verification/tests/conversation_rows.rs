use cdx::conversation::{
    child_thread_ids_from, join_path, render_cwd_below_developer, SessionIndexEntry,
};
use cdx::{
    conversations_for_picker, conversations_from_rows, decode_child_thread_ids,
    deduplicate_conversations, default_session_index_path_from_home,
    default_state_db_path_from_home, display_title, effective_updated_at_ms,
    normalize_search_text, preview_text, render_cwd_with_home, thread_name_for,
    thread_names_from_entries, thread_query_sql, CdxError, Conversation, ThreadRow,
    PREVIEW_LIMIT,
};

fn conversation(
    id: &str,
    cwd: &str,
    title: &str,
    preview: &str,
    updated_at_ms: i64,
    created_at_ms: i64,
) -> Conversation {
    Conversation {
        id: id.to_string(),
        cwd: cwd.to_string(),
        rendered_cwd: render_cwd_with_home(cwd, None),
        display_title: title.to_string(),
        preview: preview.to_string(),
        updated_at_ms,
        created_at_ms,
        is_subagent: false,
    }
}

fn row(id: &str, source: Option<&str>, thread_source: Option<&str>) -> ThreadRow {
    ThreadRow {
        id: id.to_string(),
        cwd: "/tmp/example".to_string(),
        title: None,
        preview: None,
        first_user_message: None,
        recency_at_ms: 1,
        updated_at_ms: 1,
        created_at_ms: 1,
        source: source.map(str::to_string),
        thread_source: thread_source.map(str::to_string),
    }
}

#[test]
fn falls_back_to_id_when_title_missing() {
    assert_eq!(
        display_title("0199-thread", None, Some("   ")),
        "0199-thread".to_string()
    );
}

#[test]
fn prefers_thread_name_when_available() {
    assert_eq!(
        display_title("0199-thread", Some("woodpecker"), Some("long prompt title")),
        "woodpecker".to_string()
    );
}

#[test]
fn prefers_id_over_long_prompt_title_when_thread_name_missing() {
    assert_eq!(
        display_title("0199-thread", None, Some("very long prompt title")),
        "0199-thread".to_string()
    );
}

#[test]
fn falls_back_to_title_when_id_is_blank() {
    assert_eq!(
        display_title("   ", None, Some("named conversation")),
        "named conversation".to_string()
    );
}

#[test]
fn display_title_trims_and_falls_back_to_unknown() {
    assert_eq!(display_title("  id  ", Some("  "), None), "id");
    assert_eq!(display_title("", Some("\u{3000}named\t"), None), "named");
    assert_eq!(display_title(" ", None, None), "unknown");
    assert_eq!(display_title(" ", None, Some("\n")), "unknown");
}

#[test]
fn normalizes_preview_from_first_user_message() {
    let preview = preview_text(None, Some("first line\nsecond line\tthird"));

    assert_eq!(preview, "first line second line third".to_string());
}

#[test]
fn prefers_preview_text_when_available() {
    let preview = preview_text(Some("short preview"), Some("ignored fallback"));

    assert_eq!(preview, "short preview".to_string());
}

#[test]
fn truncates_preview_to_requested_limit() {
    let preview = preview_text(None, Some(&"a".repeat(PREVIEW_LIMIT + 10)));

    assert_eq!(preview.chars().count(), PREVIEW_LIMIT + 1);
    assert!(preview.ends_with('…'));
}

#[test]
fn preview_collapses_whitespace_runs_and_edges() {
    assert_eq!(preview_text(Some("  a  \n\n b\u{a0}c  "), None), "a b c");
    assert_eq!(preview_text(Some("   "), Some("ignored")), "");
    assert_eq!(preview_text(None, None), "");
    let exact = "b".repeat(PREVIEW_LIMIT);
    assert_eq!(preview_text(Some(&exact), None), exact);
}

#[test]
fn prefers_recency_timestamp_when_available() {
    assert_eq!(effective_updated_at_ms(5_000, 1_000), Some(5_000));
}

#[test]
fn falls_back_to_updated_timestamp_when_recency_missing() {
    assert_eq!(effective_updated_at_ms(0, 1_000), Some(1_000));
}

#[test]
fn returns_none_when_all_timestamps_are_missing() {
    assert_eq!(effective_updated_at_ms(0, 0), None);
}

#[test]
fn negative_timestamps_are_not_usable() {
    assert_eq!(effective_updated_at_ms(-5, 7), Some(7));
    assert_eq!(effective_updated_at_ms(-5, -7), None);
}

#[test]
fn conversation_uses_preview_or_first_user_message() {
    let conversation = Conversation::try_from_row(
        ThreadRow {
            id: "thread-1".to_string(),
            cwd: "/tmp/example".to_string(),
            title: None,
            preview: None,
            first_user_message: Some("hello\nworld".to_string()),
            recency_at_ms: 10,
            updated_at_ms: 5,
            created_at_ms: 8,
            source: None,
            thread_source: None,
        },
        Some("thread-name"),
        false,
        Some("/home/tester"),
    )
    .unwrap_or_else(|_| unreachable!("thread should normalize"));

    assert_eq!(conversation.display_title, "thread-name");
    assert_eq!(conversation.id(), "thread-1");
    assert_eq!(conversation.preview, "hello world");
    assert_eq!(conversation.updated_at_ms, 10);
    assert_eq!(conversation.created_at_ms, 10);
    assert_eq!(conversation.rendered_cwd, "/tmp/example");
}

#[test]
fn conversation_keeps_later_creation_time() {
    let conversation = Conversation::try_from_row(
        ThreadRow {
            id: "thread-1".to_string(),
            cwd: "/home/tester/Developer/api".to_string(),
            title: Some("stored title".to_string()),
            preview: Some("stored preview".to_string()),
            first_user_message: None,
            recency_at_ms: 0,
            updated_at_ms: 5,
            created_at_ms: 8,
            source: None,
            thread_source: None,
        },
        None,
        true,
        Some("/home/tester"),
    )
    .unwrap_or_else(|_| unreachable!("thread should normalize"));

    assert_eq!(conversation.display_title, "thread-1");
    assert_eq!(conversation.preview, "stored preview");
    assert_eq!(conversation.updated_at_ms, 5);
    assert_eq!(conversation.created_at_ms, 8);
    assert_eq!(conversation.rendered_cwd, "~/Developer/api");
    assert!(conversation.is_subagent);
}

#[test]
fn conversation_errors_when_no_usable_timestamp_exists() {
    let error = Conversation::try_from_row(
        ThreadRow {
            id: "thread-1".to_string(),
            cwd: "/tmp/example".to_string(),
            title: None,
            preview: None,
            first_user_message: Some("hello".to_string()),
            recency_at_ms: 0,
            updated_at_ms: 0,
            created_at_ms: 0,
            source: None,
            thread_source: None,
        },
        Some("thread-name"),
        false,
        None,
    )
    .err()
    .unwrap_or_else(|| unreachable!("missing timestamps should fail"));

    assert!(error.message().contains("missing a usable timestamp"));
    assert_eq!(error, CdxError::MissingTimestamp("thread-1".to_string()));
}

#[test]
fn thread_row_marks_thread_source_as_subagent() {
    let row = row("thread-1", None, Some("subagent"));

    assert!(row.is_subagent(&[]));
}

#[test]
fn thread_row_marks_spawned_thread_id_as_subagent() {
    let row = row("thread-1", None, None);

    let subagent_thread_ids = vec!["thread-1".to_string()];

    assert!(row.is_subagent(&subagent_thread_ids));
}

#[test]
fn thread_row_marks_source_payload_as_subagent() {
    let row = row(
        "thread-1",
        Some(r#"{"subagent":{"thread_spawn":{"depth":1}}}"#),
        None,
    );

    assert!(row.is_subagent(&[]));
}

#[test]
fn thread_row_ignores_non_subagent_markers() {
    let row = row(
        "thread-1",
        Some(r#"{"agent":{"thread_spawn":{"depth":1}}}"#),
        Some("primary"),
    );

    assert!(!row.is_subagent(&[]));
}

#[test]
fn thread_row_source_match_ignores_case_and_punctuation() {
    assert!(row("t", Some("Sub-Agent"), None).is_subagent(&[]));
    assert!(!row("t", None, Some("Subagent")).is_subagent(&[]));
    assert!(!row("t", None, None).is_subagent(&["other".to_string()]));
}

#[test]
fn normalize_search_text_removes_case_and_punctuation() {
    assert_eq!(
        normalize_search_text("Confirma-Repair / TEST"),
        "confirmarepairtest".to_string()
    );
}

#[test]
fn normalize_search_text_drops_non_ascii_letters() {
    assert_eq!(normalize_search_text("Ünïcode 42 ÄB"), "ncode42b");
    assert_eq!(normalize_search_text(""), "");
}

#[test]
fn leaves_non_developer_paths_unchanged() {
    assert_eq!(
        render_cwd_with_home("/tmp/route53", Some("/home/tester")),
        "/tmp/route53".to_string()
    );
}

#[test]
fn renders_developer_path_with_home_prefix() {
    assert_eq!(
        render_cwd_with_home("/home/tester/Developer/route53", Some("/home/tester")),
        "~/Developer/route53"
    );
}

#[test]
fn renders_developer_root_with_home_prefix() {
    assert_eq!(
        render_cwd_with_home("/home/tester/Developer", Some("/home/tester/")),
        "~/Developer".to_string()
    );
}

#[test]
fn developer_prefix_must_match_whole_components() {
    assert_eq!(
        render_cwd_with_home("/home/tester/Developers/x", Some("/home/tester")),
        "/home/tester/Developers/x"
    );
    assert_eq!(
        render_cwd_with_home("/home/tester/Developer/", Some("/home/tester")),
        "~/Developer"
    );
}

#[test]
fn directories_render_from_what_lies_below_developer() {
    assert_eq!(render_cwd_below_developer("/tmp/api", None), "/tmp/api");
    assert_eq!(
        render_cwd_below_developer("/home/tester/Developer", Some("")),
        "~/Developer"
    );
    assert_eq!(
        render_cwd_below_developer("/home/tester/Developer/a/b", Some("a/b")),
        "~/Developer/a/b"
    );
}

#[test]
fn leaves_paths_unchanged_when_home_directory_is_unavailable() {
    assert_eq!(
        render_cwd_with_home("/tmp/route53", None),
        "/tmp/route53".to_string()
    );
}

#[test]
fn join_path_adds_one_separator() {
    assert_eq!(join_path("/home/a", "b"), "/home/a/b");
    assert_eq!(join_path("/home/a/", "b"), "/home/a/b");
    assert_eq!(join_path("", "b"), "b");
}

#[test]
fn deduplicates_conversations_by_id_keeping_first_entry() {
    let conversations = deduplicate_conversations(vec![
        conversation("same-id", "/tmp/one", "first", "preview one", 30, 10),
        conversation("same-id", "/tmp/two", "second", "preview two", 20, 9),
        conversation("other-id", "/tmp/three", "third", "preview three", 10, 8),
    ]);

    assert_eq!(conversations.len(), 2);
    assert_eq!(conversations[0].display_title, "first");
    assert_eq!(conversations[0].cwd, "/tmp/one");
    assert_eq!(conversations[1].id, "other-id");
}

#[test]
fn picker_conversations_drop_subagents_unless_included() {
    let mut child = conversation("child", "/tmp/api", "child", "preview", 20, 10);
    child.is_subagent = true;
    let all = vec![
        conversation("parent", "/tmp/api", "parent", "preview", 30, 10),
        child,
        conversation("parent", "/tmp/api", "again", "preview", 10, 10),
    ];

    let primary = conversations_for_picker(all.clone(), false);
    assert_eq!(
        primary.iter().map(|c| c.id.as_str()).collect::<Vec<_>>(),
        vec!["parent"]
    );
    assert_eq!(primary[0].display_title, "parent");

    let everything = conversations_for_picker(all, true);
    assert_eq!(everything.len(), 3);
}

#[test]
fn default_paths_fall_back_to_tilde_when_home_is_missing() {
    assert_eq!(
        default_state_db_path_from_home(None),
        "~/.codex/state_5.sqlite".to_string()
    );
    assert_eq!(
        default_session_index_path_from_home(None),
        "~/.codex/session_index.jsonl".to_string()
    );
}

#[test]
fn default_paths_resolve_inside_home_codex_directory() {
    assert_eq!(
        default_state_db_path_from_home(Some("/home/tester")),
        "/home/tester/.codex/state_5.sqlite"
    );
    assert_eq!(
        default_session_index_path_from_home(Some("/home/tester/")),
        "/home/tester/.codex/session_index.jsonl"
    );
}

fn entry(id: &str, name: Option<&str>) -> SessionIndexEntry {
    SessionIndexEntry {
        id: id.to_string(),
        thread_name: name.map(str::to_string),
    }
}

#[test]
fn thread_names_ignore_blank_entries_and_keep_the_last_name() {
    let names = thread_names_from_entries(&[
        entry("thread-1", Some("Woodpecker")),
        entry("thread-2", Some("   ")),
        entry("thread-3", None),
        entry("thread-1", Some("  Heron ")),
        entry("thread-1", Some(" ")),
    ]);

    assert_eq!(names.len(), 1);
    assert_eq!(thread_name_for(&names, "thread-1"), Some("Heron"));
    assert_eq!(thread_name_for(&names, "thread-2"), None);
    assert_eq!(thread_name_for(&names, "thread-3"), None);
}

#[test]
fn conversations_from_rows_use_names_and_subagent_ids() {
    let names = thread_names_from_entries(&[entry("thread-1", Some("Woodpecker"))]);
    let mut first = row("thread-1", None, None);
    first.preview = Some("first preview".to_string());
    let second = row("thread-2", None, None);

    let conversations = conversations_from_rows(
        vec![first, second],
        &names,
        &["thread-2".to_string()],
        None,
    )
    .unwrap_or_else(|_| unreachable!("rows should convert"));

    assert_eq!(conversations.len(), 2);
    assert_eq!(conversations[0].display_title, "Woodpecker");
    assert_eq!(conversations[0].preview, "first preview");
    assert!(!conversations[0].is_subagent);
    assert_eq!(conversations[1].display_title, "thread-2");
    assert!(conversations[1].is_subagent);
}

#[test]
fn conversations_from_rows_stop_at_the_first_unusable_row() {
    let good = row("thread-1", None, None);
    let mut broken = row("thread-2", None, None);
    broken.recency_at_ms = 0;
    broken.updated_at_ms = 0;
    let mut also_broken = row("thread-3", None, None);
    also_broken.recency_at_ms = 0;
    also_broken.updated_at_ms = 0;

    let error = conversations_from_rows(vec![good, broken, also_broken], &[], &[], None)
        .err()
        .unwrap_or_else(|| unreachable!("invalid rows should fail"));

    assert_eq!(error, CdxError::MissingTimestamp("thread-2".to_string()));
    assert_eq!(error.message(), "thread thread-2 is missing a usable timestamp");
}

#[test]
fn child_thread_ids_decode_from_json_arrays() {
    let ids = decode_child_thread_ids(r#"["thread-child","other"]"#)
        .unwrap_or_else(|_| unreachable!("ids should decode"));
    assert_eq!(ids, vec!["thread-child".to_string(), "other".to_string()]);

    let empty = decode_child_thread_ids("[]").unwrap_or_else(|_| unreachable!("empty decodes"));
    assert!(empty.is_empty());

    let error = decode_child_thread_ids("[1]")
        .err()
        .unwrap_or_else(|| unreachable!("numbers should not decode"));
    assert!(error.message().contains("failed to decode"));
}

#[test]
fn thread_query_selects_optional_source_columns() {
    let with_both = thread_query_sql(true, true);
    assert!(with_both.contains("nullif(source, '')"));
    assert!(with_both.contains("nullif(thread_source, '')"));
    assert!(with_both.contains("where archived = 0"));

    let without = thread_query_sql(false, false);
    assert!(!without.contains("nullif(source, '')"));
    assert!(without.contains("null, null from threads"));
}

#[test]
fn child_thread_ids_follow_the_decoder_outcome() {
    let decoded = serde_json::from_str::<Vec<String>>(r#"["a","b"]"#);
    assert_eq!(
        child_thread_ids_from(decoded),
        Ok(vec!["a".to_string(), "b".to_string()])
    );

    let failed = serde_json::from_str::<Vec<String>>("not json");
    let error = child_thread_ids_from(failed)
        .err()
        .unwrap_or_else(|| unreachable!("decode failures should propagate"));
    assert!(matches!(error, CdxError::ChildThreadIds(_)));
    assert!(error
        .message()
        .starts_with("failed to decode thread_spawn_edges.child_thread_id values: "));
}

#[test]
fn primary_list_of_a_deduplicated_load_needs_no_second_pass() {
    let mut child = conversation("child", "/tmp/api", "child", "preview", 25, 10);
    child.is_subagent = true;
    let loaded = deduplicate_conversations(vec![
        conversation("a", "/tmp/api", "first a", "preview", 30, 10),
        child,
        conversation("a", "/tmp/api", "second a", "preview", 20, 10),
        conversation("b", "/tmp/api", "b", "preview", 10, 10),
    ]);

    let primary = conversations_for_picker(loaded.clone(), false);
    let filtered: Vec<Conversation> = loaded.into_iter().filter(|c| !c.is_subagent).collect();
    assert_eq!(primary, filtered);
    assert_eq!(
        primary.iter().map(|c| c.display_title.as_str()).collect::<Vec<_>>(),
        vec!["first a", "b"]
    );
}
