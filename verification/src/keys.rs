//! Keyboard input: which action each key press asks for, and how the picker
//! state answers it.
use vstd::prelude::*;

use crate::app::{
    focus_moved, moved_down, moved_up, option_stepped, query_edited, same_state, selection_of,
    view_changed, App,
};
use crate::conversation::Conversation;
use crate::error::CdxError;
use crate::modes::{columns_after, focus_after, focus_before, rows_after, FocusTarget};

verus! {

/// The key of a key event.
#[derive(Debug, Clone, Copy, PartialEq, Eq, Structural)]
pub enum KeyCode {
    Up,
    Down,
    Left,
    Right,
    Tab,
    BackTab,
    Backspace,
    Enter,
    Esc,
    Char(char),
    /// Any other key (function keys, Home, Delete, ...).
    Other,
}

/// A key event: the key, whether Control was held, and whether the key was
/// pressed (as opposed to repeated or released).
#[derive(Debug, Clone, Copy, PartialEq, Eq, Structural)]
pub struct KeyEvent {
    pub code: KeyCode,
    pub control: bool,
    pub is_press: bool,
}

impl KeyEvent {
    /// A key press.
    pub fn new(code: KeyCode, control: bool) -> (r: Self)
        ensures
            r == (KeyEvent { code, control, is_press: true }),
    {
        KeyEvent { code, control, is_press: true }
    }

    /// A key event of the given kind.
    pub fn new_with_kind(code: KeyCode, control: bool, is_press: bool) -> (r: Self)
        ensures
            r == (KeyEvent { code, control, is_press }),
    {
        KeyEvent { code, control, is_press }
    }
}

/// A terminal event as the picker sees it.
#[derive(Debug, Clone, Copy, PartialEq, Eq, Structural)]
pub enum PickerEvent {
    Key(KeyEvent),
    /// Any other terminal event (resize, mouse, focus, paste).
    Other,
}

/// What a key asks the picker to do.
#[derive(Debug, Clone, Copy, PartialEq, Eq, Structural)]
pub enum KeyAction {
    Ignore,
    MoveUp,
    MoveDown,
    OptionLeft,
    OptionRight,
    FocusNext,
    FocusPrevious,
    Backspace,
    ToggleRows,
    ClearQuery,
    ToggleColumns,
    Cancel,
    Escape,
    Select,
    Type(char),
}

/// The action a key event asks for, given the focused control.
pub open spec fn key_action(focus: FocusTarget, key: KeyEvent) -> KeyAction {
    if !key.is_press {
        KeyAction::Ignore
    } else {
        match key.code {
            KeyCode::Up => KeyAction::MoveUp,
            KeyCode::Down => KeyAction::MoveDown,
            KeyCode::Left => KeyAction::OptionLeft,
            KeyCode::Right => KeyAction::OptionRight,
            KeyCode::Tab => KeyAction::FocusNext,
            KeyCode::BackTab => KeyAction::FocusPrevious,
            KeyCode::Backspace => KeyAction::Backspace,
            KeyCode::Esc => KeyAction::Escape,
            KeyCode::Enter => KeyAction::Select,
            KeyCode::Char(ch) => if ch == ' ' && focus != FocusTarget::Search {
                KeyAction::OptionRight
            } else if key.control {
                if ch == 'o' {
                    KeyAction::ToggleRows
                } else if ch == 'u' {
                    KeyAction::ClearQuery
                } else if ch == 'v' {
                    KeyAction::ToggleColumns
                } else if ch == 'c' {
                    KeyAction::Cancel
                } else {
                    KeyAction::Ignore
                }
            } else {
                KeyAction::Type(ch)
            },
            KeyCode::Other => KeyAction::Ignore,
        }
    }
}

/// How the picker answered `action`: `a` before, `b` after, `r` returned.
pub open spec fn answered(
    a: App,
    b: App,
    action: KeyAction,
    r: Result<Option<Conversation>, CdxError>,
) -> bool {
    match action {
        KeyAction::Ignore => r == Ok::<Option<Conversation>, CdxError>(None) && same_state(a, b),
        KeyAction::MoveUp => r == Ok::<Option<Conversation>, CdxError>(None) && moved_up(a, b),
        KeyAction::MoveDown => r == Ok::<Option<Conversation>, CdxError>(None) && moved_down(a, b),
        KeyAction::OptionLeft | KeyAction::OptionRight => r == Ok::<Option<Conversation>, CdxError>(None)
            && option_stepped(a, b),
        KeyAction::FocusNext => r == Ok::<Option<Conversation>, CdxError>(None) && focus_moved(
            a,
            b,
            focus_after(a.focus),
        ),
        KeyAction::FocusPrevious => r == Ok::<Option<Conversation>, CdxError>(None) && focus_moved(
            a,
            b,
            focus_before(a.focus),
        ),
        KeyAction::Backspace => r == Ok::<Option<Conversation>, CdxError>(None) && query_edited(
            a,
            b,
            if a.query@.len() == 0 {
                a.query@
            } else {
                a.query@.drop_last()
            },
        ),
        KeyAction::ToggleRows => r == Ok::<Option<Conversation>, CdxError>(None) && view_changed(
            a,
            b,
            a.column_preset,
            rows_after(a.row_mode),
        ),
        KeyAction::ClearQuery => r == Ok::<Option<Conversation>, CdxError>(None) && query_edited(
            a,
            b,
            Seq::empty(),
        ),
        KeyAction::ToggleColumns => r == Ok::<Option<Conversation>, CdxError>(None) && view_changed(
            a,
            b,
            columns_after(a.column_preset),
            a.row_mode,
        ),
        KeyAction::Cancel => r == Err::<Option<Conversation>, CdxError>(CdxError::SelectionCancelled)
            && same_state(a, b),
        KeyAction::Escape => if a.query@.len() == 0 {
            r == Err::<Option<Conversation>, CdxError>(CdxError::SelectionCancelled) && same_state(a, b)
        } else {
            r == Ok::<Option<Conversation>, CdxError>(None) && query_edited(a, b, Seq::empty())
        },
        KeyAction::Select => r == Ok::<Option<Conversation>, CdxError>(selection_of(a)) && same_state(
            a,
            b,
        ),
        KeyAction::Type(ch) => r == Ok::<Option<Conversation>, CdxError>(None) && query_edited(
            a,
            b,
            a.query@.push(ch),
        ),
    }
}

/// The action a key event asks for, given the focused control.
pub fn decide_key(focus: FocusTarget, key: KeyEvent) -> (r: KeyAction)
    ensures
        r == key_action(focus, key),
{
    if !key.is_press {
        return KeyAction::Ignore;
    }
    match key.code {
        KeyCode::Up => KeyAction::MoveUp,
        KeyCode::Down => KeyAction::MoveDown,
        KeyCode::Left => KeyAction::OptionLeft,
        KeyCode::Right => KeyAction::OptionRight,
        KeyCode::Tab => KeyAction::FocusNext,
        KeyCode::BackTab => KeyAction::FocusPrevious,
        KeyCode::Backspace => KeyAction::Backspace,
        KeyCode::Esc => KeyAction::Escape,
        KeyCode::Enter => KeyAction::Select,
        KeyCode::Char(ch) => {
            if ch == ' ' && focus != FocusTarget::Search {
                KeyAction::OptionRight
            } else if key.control {
                if ch == 'o' {
                    KeyAction::ToggleRows
                } else if ch == 'u' {
                    KeyAction::ClearQuery
                } else if ch == 'v' {
                    KeyAction::ToggleColumns
                } else if ch == 'c' {
                    KeyAction::Cancel
                } else {
                    KeyAction::Ignore
                }
            } else {
                KeyAction::Type(ch)
            }
        },
        KeyCode::Other => KeyAction::Ignore,
    }
}

/// Applies a key event to the picker: returns the selected conversation on
/// Enter (when one is selected), an error when the user cancels, and
/// nothing otherwise.
pub fn handle_key_event(app: &mut App, key: KeyEvent) -> (r: Result<Option<Conversation>, CdxError>)
    ensures
        answered(*old(app), *final(app), key_action(old(app).focus, key), r),
{
    let action = decide_key(app.focus, key);
    match action {
        KeyAction::Ignore => {},
        KeyAction::MoveUp => app.move_up(),
        KeyAction::MoveDown => app.move_down(),
        KeyAction::OptionLeft => app.change_current_option_left(),
        KeyAction::OptionRight => app.change_current_option_right(),
        KeyAction::FocusNext => app.cycle_focus_forward(),
        KeyAction::FocusPrevious => app.cycle_focus_backward(),
        KeyAction::Backspace => app.backspace_query(),
        KeyAction::ToggleRows => app.toggle_row_mode(),
        KeyAction::ClearQuery => app.clear_query(),
        KeyAction::ToggleColumns => app.toggle_column_preset(),
        KeyAction::Cancel => {
            return Err(CdxError::SelectionCancelled);
        },
        KeyAction::Escape => {
            if app.escape() {
                return Err(CdxError::SelectionCancelled);
            }
        },
        KeyAction::Select => {
            return match app.selected_conversation() {
                Some(conversation) => Ok(Some(conversation.duplicate())),
                None => Ok(None),
            };
        },
        KeyAction::Type(ch) => app.append_query(ch),
    }
    Ok(None)
}

/// One step of the picker loop: a key event is handled, any other event
/// leaves the picker as it was.
pub fn picker_step(app: &mut App, event: PickerEvent) -> (r: Result<Option<Conversation>, CdxError>)
    ensures
        match event {
            PickerEvent::Key(key) => answered(*old(app), *final(app), key_action(old(app).focus, key), r),
            PickerEvent::Other => r == Ok::<Option<Conversation>, CdxError>(None) && same_state(
                *old(app),
                *final(app),
            ),
        },
{
    match event {
        PickerEvent::Key(key) => handle_key_event(app, key),
        PickerEvent::Other => Ok(None),
    }
}

} // verus!
