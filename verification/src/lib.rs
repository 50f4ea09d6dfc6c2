//! Browsing and resuming local Codex conversations: the picker's state,
//! search, filtering, ordering and key handling, and the text and layout
//! decisions behind its terminal view.
pub mod app;
pub mod conversation;
pub mod error;
pub mod keys;
pub mod layout;
pub mod laws;
pub mod modes;
pub mod session;
pub mod text;
pub mod time;

pub use app::App;
pub use conversation::{
    conversations_for_picker, conversations_from_rows, decode_child_thread_ids,
    deduplicate_conversations, default_session_index_path_from_home,
    default_state_db_path_from_home, display_title, effective_updated_at_ms, preview_text,
    render_cwd_with_home, thread_name_for, thread_names_from_entries, thread_query_sql,
    thread_row_is_subagent, Conversation, SessionIndexEntry, ThreadRow, PREVIEW_LIMIT,
};
pub use error::CdxError;
pub use keys::{handle_key_event, picker_step, KeyCode, KeyEvent, PickerEvent};
pub use modes::{ColumnPreset, FilterMode, FocusTarget, RowMode, SortMode, SubagentMode};
pub use session::{
    finish_draw, init_terminal_session, restore_terminal_session, run_with,
    select_conversation_with_session, with_terminal_session, write_dry_run_output, RunConfig,
};
pub use text::{normalize_search_text, truncate_chars, truncate_to_width};
