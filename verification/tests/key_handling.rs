use cdx::keys::{decide_key, KeyAction};
use cdx::{
    handle_key_event, picker_step, render_cwd_with_home, App, CdxError, ColumnPreset, Conversation,
    FilterMode, FocusTarget, KeyCode, KeyEvent, PickerEvent, RowMode, SubagentMode,
};

fn conversation(
    id: &str,
    cwd: &str,
    title: &str,
    preview: &str,
    updated_at_ms: i64,
    created_at_ms: i64,
) -> Conversation {
    Conversation {
        id: id.to_string(),
        cwd: cwd.to_string(),
        rendered_cwd: render_cwd_with_home(cwd, None),
        display_title: title.to_string(),
        preview: preview.to_string(),
        updated_at_ms,
        created_at_ms,
        is_subagent: false,
    }
}

#[test]
fn handle_key_event_ignores_non_press_events() {
    let mut app = App::new(
        vec![conversation("1", "/tmp/api", "alpha", "preview", 30, 10)],
        "/tmp/api".to_string(),
    );

    let result = handle_key_event(
        &mut app,
        KeyEvent::new_with_kind(KeyCode::Char('x'), false, false),
    );
    let result = result.unwrap_or_else(|_| unreachable!("repeat events should be ignored"));

    assert!(result.is_none());
    assert_eq!(app.query, "");
}

#[test]
fn handle_key_event_updates_app_state_and_returns_selection() {
    let mut app = App::new(
        vec![
            conversation("1", "/tmp/api", "alpha", "preview", 30, 10),
            conversation("2", "/tmp/api", "beta", "preview", 20, 9),
        ],
        "/tmp/api".to_string(),
    );

    let key_result = handle_key_event(&mut app, KeyEvent::new(KeyCode::Char('b'), false));
    let key_result = key_result.unwrap_or_else(|_| unreachable!("char input should succeed"));
    assert!(key_result.is_none());
    assert_eq!(app.query, "b");

    let key_result = handle_key_event(&mut app, KeyEvent::new(KeyCode::Backspace, false));
    let key_result = key_result.unwrap_or_else(|_| unreachable!("backspace should succeed"));
    assert!(key_result.is_none());
    assert_eq!(app.query, "");

    let key_result = handle_key_event(&mut app, KeyEvent::new(KeyCode::Tab, false));
    let key_result = key_result.unwrap_or_else(|_| unreachable!("tab should succeed"));
    assert!(key_result.is_none());
    assert_eq!(app.focus, FocusTarget::Filter);

    let key_result = handle_key_event(&mut app, KeyEvent::new(KeyCode::Right, false));
    let key_result = key_result.unwrap_or_else(|_| unreachable!("right should succeed"));
    assert!(key_result.is_none());
    assert_eq!(app.filter_mode, FilterMode::CurrentDirectory);

    let key_result = handle_key_event(&mut app, KeyEvent::new(KeyCode::Char(' '), false));
    let key_result = key_result.unwrap_or_else(|_| unreachable!("space should toggle options"));
    assert!(key_result.is_none());
    assert_eq!(app.filter_mode, FilterMode::All);
    assert_eq!(app.query, "");

    let key_result = handle_key_event(&mut app, KeyEvent::new(KeyCode::BackTab, false));
    let key_result = key_result.unwrap_or_else(|_| unreachable!("backtab should succeed"));
    assert!(key_result.is_none());
    assert_eq!(app.focus, FocusTarget::Search);

    let key_result = handle_key_event(&mut app, KeyEvent::new(KeyCode::Char('u'), true));
    let key_result = key_result.unwrap_or_else(|_| unreachable!("ctrl+u should succeed"));
    assert!(key_result.is_none());
    assert_eq!(app.query, "");

    let selection = handle_key_event(&mut app, KeyEvent::new(KeyCode::Enter, false));
    let selection = selection.unwrap_or_else(|_| unreachable!("enter should succeed"));
    let selection =
        selection.unwrap_or_else(|| unreachable!("enter should select the current conversation"));
    assert_eq!(selection.id, "1");
}

#[test]
fn handle_key_event_toggles_view_preferences() {
    let mut app = App::new(
        vec![conversation("1", "/tmp/api", "alpha", "preview", 30, 10)],
        "/tmp/api".to_string(),
    );

    handle_key_event(&mut app, KeyEvent::new(KeyCode::Char('v'), true))
        .unwrap_or_else(|_| unreachable!("ctrl+v should succeed"));
    assert_eq!(app.column_preset, ColumnPreset::Full);

    handle_key_event(&mut app, KeyEvent::new(KeyCode::Char('o'), true))
        .unwrap_or_else(|_| unreachable!("ctrl+o should succeed"));
    assert_eq!(app.row_mode, RowMode::Comfortable);
}

#[test]
fn handle_key_event_cancels_when_requested() {
    let mut app = App::new(
        vec![conversation("1", "/tmp/api", "alpha", "preview", 30, 10)],
        "/tmp/api".to_string(),
    );

    let result = handle_key_event(&mut app, KeyEvent::new(KeyCode::Char('c'), true));
    let error = result
        .err()
        .unwrap_or_else(|| unreachable!("ctrl+c should cancel"));
    assert!(error.message().contains("selection cancelled"));
}

#[test]
fn handle_key_event_esc_clears_then_cancels() {
    let mut app = App::new(
        vec![conversation("1", "/tmp/api", "alpha", "preview", 30, 10)],
        "/tmp/api".to_string(),
    );
    app.query = "alpha".to_string();

    let result = handle_key_event(&mut app, KeyEvent::new(KeyCode::Esc, false));
    let result = result.unwrap_or_else(|_| unreachable!("first esc should clear search"));
    assert!(result.is_none());
    assert_eq!(app.query, "");

    let result = handle_key_event(&mut app, KeyEvent::new(KeyCode::Esc, false));
    let Err(error) = result else {
        unreachable!("second esc should cancel");
    };
    assert!(error.message().contains("selection cancelled"));
}

#[test]
fn handle_key_event_supports_navigation_keys() {
    let mut app = App::new(
        vec![
            conversation("1", "/tmp/api", "alpha", "preview", 30, 10),
            conversation("2", "/tmp/api", "beta", "preview", 20, 9),
        ],
        "/tmp/api".to_string(),
    );

    handle_key_event(&mut app, KeyEvent::new(KeyCode::Down, false))
        .unwrap_or_else(|_| unreachable!("down should succeed"));
    assert_eq!(app.selected, 1);

    handle_key_event(&mut app, KeyEvent::new(KeyCode::Up, false))
        .unwrap_or_else(|_| unreachable!("up should succeed"));
    assert_eq!(app.selected, 0);

    app.focus = FocusTarget::Filter;
    handle_key_event(&mut app, KeyEvent::new(KeyCode::Left, false))
        .unwrap_or_else(|_| unreachable!("left should succeed"));
    assert_eq!(app.filter_mode, FilterMode::CurrentDirectory);

    app.focus = FocusTarget::Subagents;
    handle_key_event(&mut app, KeyEvent::new(KeyCode::Char(' '), false))
        .unwrap_or_else(|_| unreachable!("space should toggle subagent visibility"));
    assert_eq!(app.subagent_mode, SubagentMode::Show);
}

#[test]
fn handle_key_event_ignores_enter_without_visible_selection_and_unknown_keys() {
    let mut app = App::new(Vec::new(), "/tmp/api".to_string());

    let result = handle_key_event(&mut app, KeyEvent::new(KeyCode::Enter, false))
        .unwrap_or_else(|_| unreachable!("enter without selection should succeed"));
    assert!(result.is_none());

    let result = handle_key_event(&mut app, KeyEvent::new(KeyCode::Char('x'), false))
        .unwrap_or_else(|_| unreachable!("unknown key should succeed"));
    assert!(result.is_none());

    let result = handle_key_event(&mut app, KeyEvent::new(KeyCode::Other, false))
        .unwrap_or_else(|_| unreachable!("function key should succeed"));
    assert!(result.is_none());
}

#[test]
fn key_decisions_follow_the_key_table() {
    let press = |code, control| KeyEvent::new(code, control);
    assert_eq!(
        decide_key(FocusTarget::Search, press(KeyCode::Char(' '), false)),
        KeyAction::Type(' ')
    );
    assert_eq!(
        decide_key(FocusTarget::Sort, press(KeyCode::Char(' '), true)),
        KeyAction::OptionRight
    );
    assert_eq!(
        decide_key(FocusTarget::Search, press(KeyCode::Char('x'), true)),
        KeyAction::Ignore
    );
    assert_eq!(
        decide_key(FocusTarget::Search, press(KeyCode::Char('o'), false)),
        KeyAction::Type('o')
    );
    assert_eq!(
        decide_key(FocusTarget::Filter, KeyEvent::new_with_kind(KeyCode::Enter, false, false)),
        KeyAction::Ignore
    );
    assert_eq!(
        decide_key(FocusTarget::Filter, press(KeyCode::Other, true)),
        KeyAction::Ignore
    );
}

#[test]
fn picker_step_ignores_non_key_events() {
    let mut app = App::new(
        vec![conversation("1", "/tmp/api", "alpha", "preview", 30, 10)],
        "/tmp/api".to_string(),
    );
    assert_eq!(picker_step(&mut app, PickerEvent::Other), Ok(None));
    assert_eq!(app.query, "");
    let selected = picker_step(&mut app, PickerEvent::Key(KeyEvent::new(KeyCode::Enter, false)))
        .unwrap_or_else(|_| unreachable!("enter should select"))
        .unwrap_or_else(|| unreachable!("a conversation should be selected"));
    assert_eq!(selected.id, "1");
    assert_eq!(
        picker_step(&mut app, PickerEvent::Key(KeyEvent::new(KeyCode::Esc, false))),
        Err(CdxError::SelectionCancelled)
    );
}

fn three_conversations() -> Vec<Conversation> {
    let mut child = conversation("3", "/tmp/other", "gamma", "child work", 25, 5);
    child.is_subagent = true;
    vec![
        conversation("1", "/tmp/api", "alpha", "first", 30, 10),
        conversation("2", "/tmp/api", "beta", "second", 20, 40),
        child,
    ]
}

#[test]
fn typing_then_backspace_restores_search_and_list() {
    let mut app = App::new(three_conversations(), "/tmp/api".to_string());
    app.query = "a".to_string();
    app.refresh_visible();
    let before_ids = app.visible_ids();

    handle_key_event(&mut app, KeyEvent::new(KeyCode::Char('l'), false))
        .unwrap_or_else(|_| unreachable!("typing should succeed"));
    assert_eq!(app.visible_ids(), vec!["1".to_string()]);
    handle_key_event(&mut app, KeyEvent::new(KeyCode::Backspace, false))
        .unwrap_or_else(|_| unreachable!("backspace should succeed"));

    assert_eq!(app.query, "a");
    assert_eq!(app.visible_ids(), before_ids);
}

#[test]
fn stepping_an_option_twice_restores_settings_and_list() {
    let mut app = App::new(three_conversations(), "/tmp/api".to_string());
    let before_ids = app.visible_ids();

    for focus in [FocusTarget::Filter, FocusTarget::Subagents, FocusTarget::Sort] {
        app.focus = focus;
        handle_key_event(&mut app, KeyEvent::new(KeyCode::Right, false))
            .unwrap_or_else(|_| unreachable!("right should succeed"));
        handle_key_event(&mut app, KeyEvent::new(KeyCode::Left, false))
            .unwrap_or_else(|_| unreachable!("left should succeed"));
        assert_eq!(app.visible_ids(), before_ids);
    }
    assert_eq!(app.filter_mode, FilterMode::All);
    assert_eq!(app.subagent_mode, SubagentMode::Hide);
}

#[test]
fn every_answer_keeps_the_selection_on_the_list() {
    let mut app = App::new(three_conversations(), "/tmp/api".to_string());
    let keys = [
        KeyEvent::new(KeyCode::Down, false),
        KeyEvent::new(KeyCode::Tab, false),
        KeyEvent::new(KeyCode::Char(' '), false),
        KeyEvent::new(KeyCode::Tab, false),
        KeyEvent::new(KeyCode::Right, false),
        KeyEvent::new(KeyCode::Up, false),
        KeyEvent::new(KeyCode::BackTab, false),
        KeyEvent::new(KeyCode::BackTab, false),
        KeyEvent::new(KeyCode::Char('z'), false),
        KeyEvent::new(KeyCode::Down, false),
        KeyEvent::new(KeyCode::Char('u'), true),
        KeyEvent::new(KeyCode::Up, false),
    ];

    for key in keys {
        let _ = handle_key_event(&mut app, key);
        let listed = app.visible_ids();
        if listed.is_empty() {
            assert_eq!(app.selected, 0);
        } else {
            assert!(app.selected < listed.len());
        }
    }
}
