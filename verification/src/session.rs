//! The picker session around the terminal: setting the terminal up and
//! restoring it, running the selection inside it, and the overall flow from
//! loading conversations to resuming the chosen one. The terminal, loader,
//! selector and resumer are steps supplied by the caller.
use vstd::prelude::*;
use vstd::string::StringExecFns;

use crate::app::{visible_is_listing, App};
use crate::conversation::{
    default_session_index_path_from_home, default_state_db_path_from_home, opt_text, path_joined,
    Conversation,
};
use crate::error::CdxError;
use crate::modes::{ColumnPreset, FilterMode, FocusTarget, RowMode, SortMode, SubagentMode};
use crate::text::unicode_lowercase;

verus! {

/// Runtime configuration for the interactive flow.
#[derive(Debug, Clone, PartialEq, Eq)]
pub struct RunConfig {
    /// Optional override for the Codex SQLite thread store.
    pub db_path: Option<String>,
    /// Optional override for the Codex session index JSONL file.
    pub session_index_path: Option<String>,
    /// The binary used for `codex resume`.
    pub codex_bin: String,
    /// Prints the resume command instead of executing it.
    pub dry_run: bool,
    /// Includes spawned subagent conversations in the picker.
    pub include_subagents: bool,
}

/// Runs work inside an initialized terminal session and always attempts to
/// restore the terminal afterwards; a restore error takes precedence over
/// the work's result.
pub fn with_terminal_session<T, R, E, FInit, FRun, FRestore>(
    init: FInit,
    run: FRun,
    restore: FRestore,
) -> (r: Result<R, E>) where
    FInit: FnOnce() -> Result<T, E>,
    FRun: FnOnce(&mut T) -> Result<R, E>,
    FRestore: FnOnce(&mut T) -> Result<(), E>,

    requires
        init.requires(()),
        forall|t: &mut T| run.requires((t,)),
        forall|t: &mut T| restore.requires((t,)),
    ensures
        exists|i: Result<T, E>|
            #![trigger init.ensures((), i)]
            init.ensures((), i) && match i {
                Err(e) => r == Err::<R, E>(e),
                Ok(t0) => exists|t1: &mut T, rr: Result<R, E>, t2: &mut T, rs: Result<(), E>|
                    #![trigger run.ensures((t1,), rr), restore.ensures((t2,), rs)]
                    *t1 == t0 && run.ensures((t1,), rr) && *t2 == *final(t1) && restore.ensures(
                        (t2,),
                        rs,
                    ) && r == match rs {
                        Err(e) => Err::<R, E>(e),
                        Ok(_) => rr,
                    },
            },
{
    let mut terminal = match init() {
        Ok(terminal) => terminal,
        Err(e) => return Err(e),
    };
    let result = run(&mut terminal);
    match restore(&mut terminal) {
        Ok(()) => result,
        Err(e) => Err(e),
    }
}

/// Selects a conversation inside a terminal session: `init` sets the
/// terminal up, `run` drives the picker, `restore` is always attempted
/// afterwards and its error takes precedence.
pub fn select_conversation_with_session<T, E, FInit, FRun, FRestore>(
    app: &mut App,
    init: FInit,
    run: FRun,
    restore: FRestore,
) -> (r: Result<Conversation, E>) where
    FInit: FnOnce() -> Result<T, E>,
    FRun: FnOnce(&mut T, &mut App) -> Result<Conversation, E>,
    FRestore: FnOnce(&mut T) -> Result<(), E>,

    requires
        init.requires(()),
        forall|t: &mut T, a: &mut App| run.requires((t, a)),
        forall|t: &mut T| restore.requires((t,)),
    ensures
        exists|i: Result<T, E>|
            #![trigger init.ensures((), i)]
            init.ensures((), i) && match i {
                Err(e) => r == Err::<Conversation, E>(e),
                Ok(t0) => exists|
                    t1: &mut T,
                    a: &mut App,
                    rr: Result<Conversation, E>,
                    t2: &mut T,
                    rs: Result<(), E>,
                |
                    #![trigger run.ensures((t1, a), rr), restore.ensures((t2,), rs)]
                    *t1 == t0 && *a == *old(app) && *final(app) == *final(a) && run.ensures(
                        (t1, a),
                        rr,
                    ) && *t2 == *final(t1) && restore.ensures((t2,), rs) && r == match rs {
                        Err(e) => Err::<Conversation, E>(e),
                        Ok(_) => rr,
                    },
            },
{
    let mut terminal = match init() {
        Ok(terminal) => terminal,
        Err(e) => return Err(e),
    };
    let result = run(&mut terminal, app);
    match restore(&mut terminal) {
        Ok(()) => result,
        Err(e) => Err(e),
    }
}

/// Sets a terminal session up: enables raw mode, enters the alternate
/// screen, then builds the terminal on the backend that step produced;
/// stops at the first failure.
pub fn init_terminal_session<B, T, E, FEnable, FBackend, FTerminal>(
    enable_raw: FEnable,
    enter_alternate_screen: FBackend,
    build_terminal: FTerminal,
) -> (r: Result<T, E>) where
    FEnable: FnOnce() -> Result<(), E>,
    FBackend: FnOnce() -> Result<B, E>,
    FTerminal: FnOnce(B) -> Result<T, E>,

    requires
        enable_raw.requires(()),
        enter_alternate_screen.requires(()),
        forall|b: B| build_terminal.requires((b,)),
    ensures
        exists|er: Result<(), E>|
            #![trigger enable_raw.ensures((), er)]
            enable_raw.ensures((), er) && match er {
                Err(e) => r == Err::<T, E>(e),
                Ok(_) => exists|br: Result<B, E>|
                    #![trigger enter_alternate_screen.ensures((), br)]
                    enter_alternate_screen.ensures((), br) && match br {
                        Err(e) => r == Err::<T, E>(e),
                        Ok(b) => build_terminal.ensures((b,), r),
                    },
            },
{
    match enable_raw() {
        Ok(()) => {},
        Err(e) => return Err(e),
    }
    let backend = match enter_alternate_screen() {
        Ok(backend) => backend,
        Err(e) => return Err(e),
    };
    build_terminal(backend)
}

/// Restores a terminal: disables raw mode, leaves the alternate screen and
/// shows the cursor, in that order; stops at the first failure.
pub fn restore_terminal_session<T, E, FDisable, FLeave, FCursor>(
    terminal: &mut T,
    disable_raw: FDisable,
    leave_alternate_screen: FLeave,
    show_cursor: FCursor,
) -> (r: Result<(), E>) where
    FDisable: FnOnce() -> Result<(), E>,
    FLeave: FnOnce(&mut T) -> Result<(), E>,
    FCursor: FnOnce(&mut T) -> Result<(), E>,

    requires
        disable_raw.requires(()),
        forall|t: &mut T| leave_alternate_screen.requires((t,)),
        forall|t: &mut T| show_cursor.requires((t,)),
    ensures
        exists|dr: Result<(), E>|
            #![trigger disable_raw.ensures((), dr)]
            disable_raw.ensures((), dr) && match dr {
                Err(e) => r == Err::<(), E>(e) && *final(terminal) == *old(terminal),
                Ok(_) => exists|t1: &mut T, lr: Result<(), E>|
                    #![trigger leave_alternate_screen.ensures((t1,), lr)]
                    *t1 == *old(terminal) && leave_alternate_screen.ensures((t1,), lr) && match lr {
                        Err(e) => r == Err::<(), E>(e) && *final(terminal) == *final(t1),
                        Ok(_) => exists|t2: &mut T|
                            #![trigger show_cursor.ensures((t2,), r)]
                            *t2 == *final(t1) && show_cursor.ensures((t2,), r) && *final(terminal)
                                == *final(t2),
                    },
            },
{
    match disable_raw() {
        Ok(()) => {},
        Err(e) => return Err(e),
    }
    match leave_alternate_screen(terminal) {
        Ok(()) => {},
        Err(e) => return Err(e),
    }
    show_cursor(terminal)
}

/// Drops a draw's value and keeps its error.
pub fn finish_draw<T, E>(result: Result<T, E>) -> (r: Result<(), E>)
    ensures
        match result {
            Ok(_) => r == Ok::<(), E>(()),
            Err(e) => r == Err::<(), E>(e),
        },
{
    match result {
        Ok(_) => Ok(()),
        Err(error) => Err(error),
    }
}

/// The database and session index paths a run uses: the configured ones,
/// else the defaults under the home directory.
pub open spec fn run_paths(config: RunConfig, home: Option<Seq<char>>) -> (Seq<char>, Seq<char>) {
    let base = path_joined(
        match home {
            Some(h) => h,
            None => "~"@,
        },
        ".codex"@,
    );
    (
        match config.db_path {
            Some(p) => p@,
            None => path_joined(base, "state_5.sqlite"@),
        },
        match config.session_index_path {
            Some(p) => p@,
            None => path_joined(base, "session_index.jsonl"@),
        },
    )
}

/// `a` is the picker built for `conversations` in `cwd` (`App::new_with_options`).
pub open spec fn fresh_picker(a: App, conversations: Seq<Conversation>, cwd: Seq<char>, include_subagents: bool) -> bool {
    &&& a.conversations@ == conversations
    &&& a.current_cwd@ == cwd
    &&& a.query@.len() == 0
    &&& unicode_lowercase(a.query@).len() == 0
    &&& a.focus == FocusTarget::Search
    &&& a.column_preset == ColumnPreset::Core
    &&& a.row_mode == RowMode::Compact
    &&& a.filter_mode == FilterMode::All
    &&& a.sort_mode == SortMode::Updated
    &&& a.subagent_mode == if include_subagents {
        SubagentMode::Show
    } else {
        SubagentMode::Hide
    }
    &&& visible_is_listing(a)
    &&& a.selected == 0
}

/// The outcome once the selector returned: its error, else what resuming
/// the selected conversation with the configured binary and mode returned.
pub open spec fn selection_outcome<FResume>(
    config: RunConfig,
    resume: FResume,
    chosen: Result<Conversation, CdxError>,
    r: Result<(), CdxError>,
) -> bool where FResume: for <'a, 'b>FnOnce(&'a str, &'b str, bool) -> Result<(), CdxError> {
    match chosen {
        Err(e) => r == Err::<(), CdxError>(e),
        Ok(c) => exists|bin: &str, id: &str|
            #![trigger resume.ensures((bin, id, config.dry_run), r)]
            bin@ == config.codex_bin@ && id@ == c.id@ && resume.ensures((bin, id, config.dry_run), r),
    }
}

/// The outcome of a run: the loader's error; else the current-directory
/// error; else "no conversations" for an empty load; else the selector's
/// error; else what resuming the selected conversation returned.
pub open spec fn run_outcome<FLoad, FCwd, FSelect, FResume>(
    config: RunConfig,
    home: Option<Seq<char>>,
    load: FLoad,
    current_dir: FCwd,
    select: FSelect,
    resume: FResume,
    r: Result<(), CdxError>,
) -> bool where
    FLoad: for <'a, 'b>FnOnce(&'a str, &'b str) -> Result<Vec<Conversation>, CdxError>,
    FCwd: FnOnce() -> Result<String, String>,
    FSelect: FnOnce(&mut App) -> Result<Conversation, CdxError>,
    FResume: for <'a, 'b>FnOnce(&'a str, &'b str, bool) -> Result<(), CdxError>,
 {
    let paths = run_paths(config, home);
    exists|db: &str, index: &str, loaded: Result<Vec<Conversation>, CdxError>|
        #![trigger load.ensures((db, index), loaded)]
        db@ == paths.0 && index@ == paths.1 && load.ensures((db, index), loaded) && match loaded {
            Err(e) => r == Err::<(), CdxError>(e),
            Ok(conversations) => exists|cwd: Result<String, String>|
                #![trigger current_dir.ensures((), cwd)]
                current_dir.ensures((), cwd) && match cwd {
                    Err(cause) => r == Err::<(), CdxError>(CdxError::CurrentDirectory(cause)),
                    Ok(dir) => {
                        if conversations.len() == 0 {
                            r == Err::<(), CdxError>(CdxError::NoConversations)
                        } else {
                            exists|picker: &mut App, chosen: Result<Conversation, CdxError>|
                                #![trigger select.ensures((picker,), chosen)]
                                fresh_picker(*picker, conversations@, dir@, config.include_subagents)
                                    && select.ensures((picker,), chosen) && selection_outcome(
                                    config,
                                    resume,
                                    chosen,
                                    r,
                                )
                        }
                    },
                },
        }
}

/// Runs the picker flow with the supplied steps: loads the conversations
/// from the configured (or default) paths, determines the current
/// directory, lets the user select a conversation, then resumes it.
pub fn run_with<FLoad, FCwd, FSelect, FResume>(
    config: RunConfig,
    home_dir: Option<&str>,
    load_conversations: FLoad,
    current_dir: FCwd,
    select_conversation: FSelect,
    resume_conversation: FResume,
) -> (r: Result<(), CdxError>) where
    FLoad: for <'a, 'b>FnOnce(&'a str, &'b str) -> Result<Vec<Conversation>, CdxError>,
    FCwd: FnOnce() -> Result<String, String>,
    FSelect: FnOnce(&mut App) -> Result<Conversation, CdxError>,
    FResume: for <'a, 'b>FnOnce(&'a str, &'b str, bool) -> Result<(), CdxError>,

    requires
        forall|db: &str, index: &str| load_conversations.requires((db, index)),
        current_dir.requires(()),
        forall|a: &mut App| select_conversation.requires((a,)),
        forall|bin: &str, id: &str, dry: bool| resume_conversation.requires((bin, id, dry)),
    ensures
        run_outcome(
            config,
            opt_text(home_dir),
            load_conversations,
            current_dir,
            select_conversation,
            resume_conversation,
            r,
        ),
{
    let db_path = match &config.db_path {
        Some(p) => p.clone(),
        None => default_state_db_path_from_home(home_dir),
    };
    let session_index_path = match &config.session_index_path {
        Some(p) => p.clone(),
        None => default_session_index_path_from_home(home_dir),
    };
    let conversations = match load_conversations(db_path.as_str(), session_index_path.as_str()) {
        Ok(conversations) => conversations,
        Err(e) => return Err(e),
    };
    let current_cwd = match current_dir() {
        Ok(dir) => dir,
        Err(cause) => return Err(CdxError::CurrentDirectory(cause)),
    };
    if conversations.len() == 0 {
        return Err(CdxError::NoConversations);
    }
    let mut app = App::new_with_options(conversations, current_cwd, config.include_subagents);
    let selected = match select_conversation(&mut app) {
        Ok(selected) => selected,
        Err(e) => return Err(e),
    };
    resume_conversation(config.codex_bin.as_str(), selected.id.as_str(), config.dry_run)
}

/// The line a dry run prints instead of resuming.
pub open spec fn dry_run_text(codex_bin: Seq<char>, conversation_id: Seq<char>) -> Seq<char> {
    codex_bin + " resume "@ + conversation_id + "\n"@
}

/// `std::io::Error`, the error of a failed write.
#[verifier::external_type_specification]
#[verifier::external_body]
pub struct ExIoError(std::io::Error);

/// `write!` of a text to a writer (`Write::write_fmt`); what the writer
/// does with it, and whether it fails, depends on the writer and is not
/// stated.
#[verifier::external_body]
fn write_text<W: std::io::Write>(writer: &mut W, text: &str) -> Result<(), std::io::Error> {
    write!(writer, "{}", text)
}

/// The message of a write error (its `Display` text); nothing is stated
/// about its content.
#[verifier::external_body]
fn io_error_text(error: &std::io::Error) -> String {
    error.to_string()
}

/// The command line a dry run prints: `<codex_bin> resume <id>` and a
/// newline.
pub fn dry_run_line(codex_bin: &str, conversation_id: &str) -> (r: String)
    ensures
        r@ == dry_run_text(codex_bin@, conversation_id@),
{
    let mut line = String::from_str(codex_bin);
    line.append(" resume ");
    line.append(conversation_id);
    line.append("\n");
    line
}

/// Writes the dry-run command line to `writer`; a failed write is reported
/// as a dry-run output error.
pub fn write_dry_run_output<W: std::io::Write>(
    writer: &mut W,
    codex_bin: &str,
    conversation_id: &str,
) -> (r: Result<(), CdxError>)
    ensures
        r matches Err(e) ==> e is DryRunOutput,
{
    let line = dry_run_line(codex_bin, conversation_id);
    dry_run_result(write_text(writer, line.as_str()))
}

/// The outcome of a dry run from the outcome of writing its line: success,
/// or a dry-run output error carrying the write error's message.
pub fn dry_run_result(written: Result<(), std::io::Error>) -> (r: Result<(), CdxError>)
    ensures
        match written {
            Ok(_) => r == Ok::<(), CdxError>(()),
            Err(_) => r matches Err(e) && e is DryRunOutput,
        },
{
    match written {
        Ok(()) => Ok(()),
        Err(error) => Err(CdxError::DryRunOutput(io_error_text(&error))),
    }
}

/// The arguments the resume command is run with: `resume <id>`.
pub fn resume_arguments(conversation_id: &str) -> (r: Vec<String>)
    ensures
        r.len() == 2,
        r@[0]@ == "resume"@,
        r@[1]@ == conversation_id@,
{
    let mut args: Vec<String> = Vec::new();
    args.push(String::from_str("resume"));
    args.push(String::from_str(conversation_id));
    args
}

} // verus!
