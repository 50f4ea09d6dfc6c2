//! Conversations as the picker shows them, and how they are derived from
//! stored thread rows and the session index: titles, previews, timestamps,
//! subagent detection, de-duplication and the default storage paths.
use vstd::prelude::*;
use vstd::string::StringExecFns;

use crate::error::CdxError;
use crate::text::{
    chars_of, collapse_whitespace, collapsed, normalize_search_text, normalized, occurs,
    occurs_in, trim, trimmed, truncate_chars, truncated_chars,
};

verus! {

/// The number of characters a preview keeps before it is cut.
pub const PREVIEW_LIMIT: usize = 120;

/// A local Codex conversation row rendered in the picker.
#[derive(Debug, Clone, PartialEq, Eq)]
pub struct Conversation {
    pub id: String,
    pub cwd: String,
    pub rendered_cwd: String,
    pub display_title: String,
    pub preview: String,
    pub updated_at_ms: i64,
    pub created_at_ms: i64,
    pub is_subagent: bool,
}

/// A thread as stored in the Codex state database.
#[derive(Debug, Clone, PartialEq, Eq)]
pub struct ThreadRow {
    pub id: String,
    pub cwd: String,
    pub title: Option<String>,
    pub preview: Option<String>,
    pub first_user_message: Option<String>,
    pub recency_at_ms: i64,
    pub updated_at_ms: i64,
    pub created_at_ms: i64,
    pub source: Option<String>,
    pub thread_source: Option<String>,
}

/// One line of the session index: a thread id and the name given to it.
#[derive(Debug, Clone, PartialEq, Eq)]
pub struct SessionIndexEntry {
    pub id: String,
    pub thread_name: Option<String>,
}

/// The characters of an optional text.
pub open spec fn opt_text(o: Option<&str>) -> Option<Seq<char>> {
    match o {
        Some(s) => Some(s@),
        None => None,
    }
}

/// The characters of an optional owned text.
pub open spec fn opt_string(o: Option<String>) -> Option<Seq<char>> {
    match o {
        Some(s) => Some(s@),
        None => None,
    }
}

/// The title shown for a thread: its session-index name, else its id, else
/// its stored title (each trimmed and used only when not blank), else
/// "unknown".
pub open spec fn chosen_title(
    id: Seq<char>,
    thread_name: Option<Seq<char>>,
    title: Option<Seq<char>>,
) -> Seq<char> {
    if thread_name is Some && trimmed(thread_name->0).len() > 0 {
        trimmed(thread_name->0)
    } else if trimmed(id).len() > 0 {
        trimmed(id)
    } else if title is Some && trimmed(title->0).len() > 0 {
        trimmed(title->0)
    } else {
        "unknown"@
    }
}

/// The preview shown for a thread: the stored preview, else the first user
/// message, with whitespace collapsed and cut to `PREVIEW_LIMIT` characters.
pub open spec fn chosen_preview(preview: Option<Seq<char>>, first_user_message: Option<Seq<char>>) -> Seq<
    char,
> {
    let source = match preview {
        Some(p) => p,
        None => match first_user_message {
            Some(m) => m,
            None => Seq::empty(),
        },
    };
    truncated_chars(collapsed(source), PREVIEW_LIMIT as nat)
}

/// The timestamp a thread is ordered by: its recency when positive, else its
/// update time when positive.
pub open spec fn effective_timestamp(recency_at_ms: i64, updated_at_ms: i64) -> Option<i64> {
    if recency_at_ms > 0 {
        Some(recency_at_ms)
    } else if updated_at_ms > 0 {
        Some(updated_at_ms)
    } else {
        None
    }
}

/// `part` appended to `base` as a further path component (`Path::join` for
/// a relative `part`).
pub open spec fn path_joined(base: Seq<char>, part: Seq<char>) -> Seq<char> {
    if base.len() == 0 {
        part
    } else if base.last() == '/' {
        base + part
    } else {
        base + seq!['/'] + part
    }
}

/// What `Path::strip_prefix` leaves of `path` once the components of
/// `base` are removed from its front, as text; `None` when `base` is not a
/// prefix of `path` component-wise.
pub uninterp spec fn path_strip_prefix(path: Seq<char>, base: Seq<char>) -> Option<Seq<char>>;

/// How a working directory is displayed: directories under
/// `<home>/Developer` are shown as `~/Developer/...`; every other directory,
/// and every directory when no home directory is known, as it is.
pub open spec fn rendered_directory(cwd: Seq<char>, home: Option<Seq<char>>) -> Seq<char> {
    match home {
        None => cwd,
        Some(h) => developer_rendering(cwd, path_strip_prefix(cwd, path_joined(h, "Developer"@))),
    }
}

/// How a working directory is displayed given what remains of it below
/// `<home>/Developer` (`None` when it does not lie there).
pub open spec fn developer_rendering(cwd: Seq<char>, developer_suffix: Option<Seq<char>>) -> Seq<char> {
    match developer_suffix {
        None => cwd,
        Some(suffix) => if suffix.len() == 0 {
            "~/Developer"@
        } else {
            "~/Developer/"@ + suffix
        },
    }
}

/// A thread counts as a spawned subagent when its id is a recorded child
/// thread, when its thread source is "subagent", or when its normalized
/// source mentions "subagent".
pub open spec fn row_is_subagent(row: ThreadRow, child_ids: Seq<String>) -> bool {
    ||| exists|i: int| 0 <= i < child_ids.len() && (#[trigger] child_ids[i])@ == row.id@
    ||| (row.thread_source matches Some(s) && s@ == "subagent"@)
    ||| (row.source matches Some(s) && occurs_in("subagent"@, normalized(s@)))
}

/// `c` is the conversation built from `row`.
pub open spec fn converted_from(
    c: Conversation,
    row: ThreadRow,
    thread_name: Option<Seq<char>>,
    is_subagent: bool,
    home: Option<Seq<char>>,
) -> bool {
    let updated = effective_timestamp(row.recency_at_ms, row.updated_at_ms)->0;
    &&& c.id@ == row.id@
    &&& c.cwd@ == row.cwd@
    &&& c.rendered_cwd@ == rendered_directory(row.cwd@, home)
    &&& c.display_title@ == chosen_title(row.id@, thread_name, opt_string(row.title))
    &&& c.preview@ == chosen_preview(opt_string(row.preview), opt_string(row.first_user_message))
    &&& c.updated_at_ms == updated
    &&& c.created_at_ms == if row.created_at_ms > updated {
        row.created_at_ms
    } else {
        updated
    }
    &&& c.is_subagent == is_subagent
}

/// Some earlier conversation carries the same id as the one at `i`.
pub open spec fn id_seen_before(s: Seq<Conversation>, i: int) -> bool {
    exists|j: int| 0 <= j < i && (#[trigger] s[j]).id@ == s[i].id@
}

/// The first conversation of each id, in the order they came.
pub open spec fn first_of_each_id(s: Seq<Conversation>) -> Seq<Conversation>
    decreases s.len(),
{
    if s.len() == 0 {
        s
    } else {
        let rest = first_of_each_id(s.drop_last());
        if id_seen_before(s, s.len() - 1) {
            rest
        } else {
            rest.push(s.last())
        }
    }
}

/// Some conversation of `s` carries the id `x`.
pub open spec fn has_id(s: Seq<Conversation>, x: Seq<char>) -> bool {
    exists|k: int| 0 <= k < s.len() && (#[trigger] s[k]).id@ == x
}

/// No two conversations of `s` carry the same id.
pub open spec fn ids_distinct(s: Seq<Conversation>) -> bool {
    forall|a: int, b: int| 0 <= a < b < s.len() ==> (#[trigger] s[a]).id@ != (#[trigger] s[b]).id@
}

/// The conversations the picker lists: all of them, or, unless subagents
/// are included, the primary ones with repeated ids dropped.
pub open spec fn picker_conversations(s: Seq<Conversation>, include_subagents: bool) -> Seq<
    Conversation,
> {
    if include_subagents {
        s
    } else {
        first_of_each_id(s.filter(|c: Conversation| !c.is_subagent))
    }
}

/// The name the session index gives a thread: the last entry for that id
/// whose trimmed name is not blank, trimmed.
pub open spec fn indexed_name(entries: Seq<SessionIndexEntry>, id: Seq<char>) -> Option<Seq<char>>
    decreases entries.len(),
{
    if entries.len() == 0 {
        None
    } else {
        let e = entries.last();
        if e.id@ == id && e.thread_name is Some && trimmed(e.thread_name->0@).len() > 0 {
            Some(trimmed(e.thread_name->0@))
        } else {
            indexed_name(entries.drop_last(), id)
        }
    }
}

/// The name a table of `(id, name)` pairs gives `id` (the last pair for it).
pub open spec fn table_name(table: Seq<(String, String)>, id: Seq<char>) -> Option<Seq<char>>
    decreases table.len(),
{
    if table.len() == 0 {
        None
    } else if table.last().0@ == id {
        Some(table.last().1@)
    } else {
        table_name(table.drop_last(), id)
    }
}

/// No two pairs of the table share an id.
pub open spec fn table_ids_distinct(table: Seq<(String, String)>) -> bool {
    forall|a: int, b: int|
        0 <= a < b < table.len() ==> (#[trigger] table[a]).0@ != (#[trigger] table[b]).0@
}

/// The select list of the thread query, given which optional source columns
/// the `threads` table has.
pub open spec fn thread_query_text(has_source: bool, has_thread_source: bool) -> Seq<char> {
    "select id, cwd, nullif(title, ''), nullif(preview, ''), nullif(first_user_message, ''), coalesce(recency_at_ms, 0), updated_at_ms, coalesce(nullif(created_at_ms, 0), created_at * 1000, updated_at_ms), "@
        + (if has_source {
        "nullif(source, '')"@
    } else {
        "null"@
    }) + ", "@ + (if has_thread_source {
        "nullif(thread_source, '')"@
    } else {
        "null"@
    })
        + " from threads where archived = 0 order by coalesce(nullif(recency_at_ms, 0), updated_at_ms) desc"@
}

// ---------------------------------------------------------------------------
// Lemmas
// ---------------------------------------------------------------------------

/// Keeping the first conversation of each id keeps every id, and each
/// only once.
pub proof fn lemma_first_of_each_id_ids(s: Seq<Conversation>)
    ensures
        forall|x: Seq<char>| has_id(first_of_each_id(s), x) <==> has_id(s, x),
        ids_distinct(first_of_each_id(s)),
    decreases s.len(),
{
    if s.len() > 0 {
        let p = s.drop_last();
        lemma_first_of_each_id_ids(p);
        let rest = first_of_each_id(p);
        assert forall|x: Seq<char>| has_id(p, x) implies has_id(s, x) by {
            let k = choose|k: int| 0 <= k < p.len() && (#[trigger] p[k]).id@ == x;
            assert(s[k] == p[k]);
        }
        assert forall|x: Seq<char>| has_id(s, x) && x != s.last().id@ implies has_id(p, x) by {
            let k = choose|k: int| 0 <= k < s.len() && (#[trigger] s[k]).id@ == x;
            assert(p[k] == s[k]);
        }
        if id_seen_before(s, s.len() - 1) {
            let j = choose|j: int| 0 <= j < s.len() - 1 && (#[trigger] s[j]).id@ == s[s.len() - 1].id@;
            assert(p[j] == s[j]);
            assert(has_id(p, s.last().id@));
        } else {
            let r = rest.push(s.last());
            assert forall|x: Seq<char>| has_id(r, x) <==> has_id(s, x) by {
                if has_id(r, x) {
                    let k = choose|k: int| 0 <= k < r.len() && (#[trigger] r[k]).id@ == x;
                    if k < rest.len() {
                        assert(rest[k] == r[k]);
                        assert(has_id(rest, x));
                    }
                }
                if has_id(s, x) {
                    if x == s.last().id@ {
                        assert(r[r.len() - 1] == s.last());
                    } else {
                        let k = choose|k: int| 0 <= k < rest.len() && (#[trigger] rest[k]).id@ == x;
                        assert(r[k] == rest[k]);
                    }
                }
            }
            assert forall|a: int, b: int| 0 <= a < b < r.len() implies (#[trigger] r[a]).id@
                != (#[trigger] r[b]).id@ by {
                if b == r.len() - 1 {
                    assert(r[a] == rest[a]);
                    if r[a].id@ == s.last().id@ {
                        assert(has_id(rest, s.last().id@));
                        assert(has_id(p, s.last().id@));
                        let k = choose|k: int| 0 <= k < p.len() && (#[trigger] p[k]).id@ == s.last().id@;
                        assert(s[k] == p[k]);
                        assert(id_seen_before(s, s.len() - 1));
                    }
                } else {
                    assert(r[a] == rest[a]);
                    assert(r[b] == rest[b]);
                }
            }
        }
    }
}

proof fn lemma_table_name_update(table: Seq<(String, String)>, k: int, entry: (String, String))
    requires
        0 <= k < table.len(),
        table_ids_distinct(table),
        table[k].0@ == entry.0@,
    ensures
        forall|x: Seq<char>| #[trigger]
            table_name(table.update(k, entry), x) == if x == entry.0@ {
                Some(entry.1@)
            } else {
                table_name(table, x)
            },
        table_ids_distinct(table.update(k, entry)),
    decreases table.len(),
{
    let u = table.update(k, entry);
    let n = table.len() - 1;
    let p = table.drop_last();
    if k < n {
        assert(table_ids_distinct(p)) by {
            assert forall|a: int, b: int| 0 <= a < b < p.len() implies (#[trigger] p[a]).0@
                != (#[trigger] p[b]).0@ by {
                assert(p[a] == table[a]);
                assert(p[b] == table[b]);
            }
        }
        assert(p[k] == table[k]);
        lemma_table_name_update(p, k, entry);
        assert(u.drop_last() =~= p.update(k, entry));
        assert(u.last() == table.last());
        assert(table.last().0@ != entry.0@) by {
            assert(table[k].0@ != table[n].0@);
        }
        assert forall|x: Seq<char>| #[trigger]
            table_name(u, x) == if x == entry.0@ {
                Some(entry.1@)
            } else {
                table_name(table, x)
            } by {
            if table.last().0@ == x {
                assert(table_name(u, x) == Some(u.last().1@));
                assert(table_name(table, x) == Some(table.last().1@));
            } else {
                assert(table_name(u, x) == table_name(u.drop_last(), x));
                assert(table_name(table, x) == table_name(p, x));
            }
        }
    } else {
        assert(u.drop_last() =~= p);
        assert(u.last() == entry);
        assert forall|x: Seq<char>| #[trigger]
            table_name(u, x) == if x == entry.0@ {
                Some(entry.1@)
            } else {
                table_name(table, x)
            } by {
            if x == entry.0@ {
                assert(table_name(u, x) == Some(u.last().1@));
            } else {
                assert(table_name(u, x) == table_name(p, x));
                assert(table.last().0@ == entry.0@);
                assert(table_name(table, x) == table_name(p, x));
            }
        }
    }
    assert forall|a: int, b: int| 0 <= a < b < u.len() implies (#[trigger] u[a]).0@
        != (#[trigger] u[b]).0@ by {
        assert(table[a].0@ != table[b].0@);
    }
}

// ---------------------------------------------------------------------------
// Trusted wrappers over std
// ---------------------------------------------------------------------------

/// `Path::strip_prefix`: what remains of `path` after the components of
/// `base`, as text (`Path::display`), or `None` when `base` is not a
/// component-wise prefix of `path`. The component rules are not written out
/// here; the result is named by `path_strip_prefix`.
#[verifier::external_body]
fn strip_path_prefix(path: &str, base: &str) -> (r: Option<String>)
    ensures
        opt_string(r) == path_strip_prefix(path@, base@),
{
    match std::path::Path::new(path).strip_prefix(base) {
        Ok(rest) => Some(rest.display().to_string()),
        Err(_) => None,
    }
}

/// `serde_json::Error`, the error of a failed JSON decode.
#[verifier::external_type_specification]
#[verifier::external_body]
pub struct ExJsonError(serde_json::Error);

/// What `serde_json::from_str::<Vec<String>>` decodes a text to: the list of
/// strings when the text is a JSON array of strings, `None` otherwise.
pub uninterp spec fn json_string_array(text: Seq<char>) -> Option<Seq<Seq<char>>>;

/// `serde_json::from_str::<Vec<String>>`: decodes a JSON array of strings;
/// the JSON grammar is not written out here, the result is named by
/// `json_string_array`.
#[verifier::external_body]
fn parse_string_array(text: &str) -> (r: Result<Vec<String>, serde_json::Error>)
    ensures
        match r {
            Ok(v) => json_string_array(text@) == Some(v@.map_values(|s: String| s@)),
            Err(_) => json_string_array(text@) is None,
        },
{
    serde_json::from_str::<Vec<String>>(text)
}

/// The message of a JSON decode error (its `Display` text); nothing is
/// stated about its content.
#[verifier::external_body]
fn json_error_text(error: &serde_json::Error) -> String {
    error.to_string()
}

// ---------------------------------------------------------------------------
// Executable functions
// ---------------------------------------------------------------------------

/// Decodes the recorded child thread ids, stored as a JSON array of strings.
pub fn decode_child_thread_ids(text: &str) -> (r: Result<Vec<String>, CdxError>)
    ensures
        match r {
            Ok(v) => json_string_array(text@) == Some(v@.map_values(|s: String| s@)),
            Err(e) => json_string_array(text@) is None && e is ChildThreadIds,
        },
{
    child_thread_ids_from(parse_string_array(text))
}

/// The child thread ids from the outcome of decoding their JSON array: the
/// decoded ids, or a child-thread-ids error carrying the decoder's message.
pub fn child_thread_ids_from(decoded: Result<Vec<String>, serde_json::Error>) -> (r: Result<
    Vec<String>,
    CdxError,
>)
    ensures
        match decoded {
            Ok(ids) => r == Ok::<Vec<String>, CdxError>(ids),
            Err(_) => r matches Err(e) && e is ChildThreadIds,
        },
{
    match decoded {
        Ok(ids) => Ok(ids),
        Err(error) => Err(CdxError::ChildThreadIds(json_error_text(&error))),
    }
}

impl Conversation {
    /// Returns the stable Codex conversation identifier.
    pub fn id(&self) -> (r: &str)
        ensures
            r@ == self.id@,
    {
        self.id.as_str()
    }

    /// An equal copy of the conversation.
    pub fn duplicate(&self) -> (r: Self)
        ensures
            r == *self,
    {
        Conversation {
            id: self.id.clone(),
            cwd: self.cwd.clone(),
            rendered_cwd: self.rendered_cwd.clone(),
            display_title: self.display_title.clone(),
            preview: self.preview.clone(),
            updated_at_ms: self.updated_at_ms,
            created_at_ms: self.created_at_ms,
            is_subagent: self.is_subagent,
        }
    }

    /// Builds the conversation shown for a stored thread; fails when the
    /// thread has no usable timestamp.
    pub fn try_from_row(
        row: ThreadRow,
        thread_name: Option<&str>,
        is_subagent: bool,
        home_dir: Option<&str>,
    ) -> (r: Result<Self, CdxError>)
        ensures
            r is Ok <==> effective_timestamp(row.recency_at_ms, row.updated_at_ms) is Some,
            r matches Ok(c) ==> converted_from(c, row, opt_text(thread_name), is_subagent, opt_text(home_dir)),
            r matches Err(e) ==> e == CdxError::MissingTimestamp(row.id),
    {
        let updated_at_ms = match effective_updated_at_ms(row.recency_at_ms, row.updated_at_ms) {
            Some(value) => value,
            None => {
                return Err(CdxError::MissingTimestamp(row.id));
            },
        };
        let title = match &row.title {
            Some(t) => Some(t.as_str()),
            None => None,
        };
        let display = display_title(row.id.as_str(), thread_name, title);
        let preview = match &row.preview {
            Some(p) => Some(p.as_str()),
            None => None,
        };
        let first = match &row.first_user_message {
            Some(m) => Some(m.as_str()),
            None => None,
        };
        let preview_value = preview_text(preview, first);
        let rendered = render_cwd_with_home(row.cwd.as_str(), home_dir);
        let created_at_ms = if row.created_at_ms > updated_at_ms {
            row.created_at_ms
        } else {
            updated_at_ms
        };
        Ok(Conversation {
            display_title: display,
            preview: preview_value,
            id: row.id,
            rendered_cwd: rendered,
            cwd: row.cwd,
            updated_at_ms,
            created_at_ms,
            is_subagent,
        })
    }
}

impl ThreadRow {
    /// Whether this thread is a spawned subagent, given the recorded child
    /// thread ids.
    pub fn is_subagent(&self, subagent_thread_ids: &[String]) -> (r: bool)
        ensures
            r == row_is_subagent(*self, subagent_thread_ids@),
    {
        thread_row_is_subagent(self, subagent_thread_ids)
    }
}

/// The timestamp a thread is ordered by, if it has a usable one.
pub fn effective_updated_at_ms(recency_at_ms: i64, updated_at_ms: i64) -> (r: Option<i64>)
    ensures
        r == effective_timestamp(recency_at_ms, updated_at_ms),
{
    if recency_at_ms > 0 {
        Some(recency_at_ms)
    } else if updated_at_ms > 0 {
        Some(updated_at_ms)
    } else {
        None
    }
}

/// The title shown for a thread.
pub fn display_title(id: &str, thread_name: Option<&str>, title: Option<&str>) -> (r: String)
    ensures
        r@ == chosen_title(id@, opt_text(thread_name), opt_text(title)),
{
    if let Some(name) = thread_name {
        let t = trim(name);
        if !t.as_str().is_empty() {
            return t;
        }
    }
    let trimmed_id = trim(id);
    if !trimmed_id.as_str().is_empty() {
        return trimmed_id;
    }
    if let Some(value) = title {
        let t = trim(value);
        if !t.as_str().is_empty() {
            return t;
        }
    }
    String::from_str("unknown")
}

/// The preview shown for a thread.
pub fn preview_text(preview: Option<&str>, first_user_message: Option<&str>) -> (r: String)
    ensures
        r@ == chosen_preview(opt_text(preview), opt_text(first_user_message)),
{
    let source = match preview {
        Some(p) => p,
        None => match first_user_message {
            Some(m) => m,
            None => "",
        },
    };
    proof {
        reveal_strlit("");
    }
    let joined = collapse_whitespace(source);
    truncate_chars(joined.as_str(), PREVIEW_LIMIT)
}

/// `part` appended to `base` as a further path component.
pub fn join_path(base: &str, part: &str) -> (r: String)
    ensures
        r@ == path_joined(base@, part@),
{
    let chars = chars_of(base);
    let mut out = String::from_str(base);
    if chars.len() > 0 && chars[chars.len() - 1] != '/' {
        out.append("/");
        proof {
            reveal_strlit("/");
        }
    }
    out.append(part);
    proof {
        if chars@.len() > 0 {
            assert(chars@.last() == chars@[chars@.len() - 1]);
        }
    }
    out
}

/// How a working directory is displayed, given the home directory.
pub fn render_cwd_with_home(cwd: &str, home_dir: Option<&str>) -> (r: String)
    ensures
        r@ == rendered_directory(cwd@, opt_text(home_dir)),
{
    let home = match home_dir {
        Some(h) => h,
        None => {
            return String::from_str(cwd);
        },
    };
    let developer_root = join_path(home, "Developer");
    let suffix = strip_path_prefix(cwd, developer_root.as_str());
    match suffix {
        None => render_cwd_below_developer(cwd, None),
        Some(rest) => render_cwd_below_developer(cwd, Some(rest.as_str())),
    }
}

/// How a working directory is displayed given what remains of it below
/// `<home>/Developer`: `~/Developer` itself, `~/Developer/<rest>` below it,
/// and the directory as it is when it does not lie there (`None`).
pub fn render_cwd_below_developer(cwd: &str, developer_suffix: Option<&str>) -> (r: String)
    ensures
        r@ == developer_rendering(cwd@, opt_text(developer_suffix)),
{
    match developer_suffix {
        None => String::from_str(cwd),
        Some(suffix) => {
            if suffix.is_empty() {
                String::from_str("~/Developer")
            } else {
                let mut out = String::from_str("~/Developer/");
                out.append(suffix);
                out
            }
        },
    }
}

/// The default location of the Codex thread store under a home directory
/// (`~` when none is known).
pub fn default_state_db_path_from_home(home_dir: Option<&str>) -> (r: String)
    ensures
        r@ == path_joined(
            path_joined(
                match opt_text(home_dir) {
                    Some(h) => h,
                    None => "~"@,
                },
                ".codex"@,
            ),
            "state_5.sqlite"@,
        ),
{
    let home = match home_dir {
        Some(h) => h,
        None => "~",
    };
    let codex = join_path(home, ".codex");
    join_path(codex.as_str(), "state_5.sqlite")
}

/// The default location of the Codex session index under a home directory
/// (`~` when none is known).
pub fn default_session_index_path_from_home(home_dir: Option<&str>) -> (r: String)
    ensures
        r@ == path_joined(
            path_joined(
                match opt_text(home_dir) {
                    Some(h) => h,
                    None => "~"@,
                },
                ".codex"@,
            ),
            "session_index.jsonl"@,
        ),
{
    let home = match home_dir {
        Some(h) => h,
        None => "~",
    };
    let codex = join_path(home, ".codex");
    join_path(codex.as_str(), "session_index.jsonl")
}

/// Whether a thread row is a spawned subagent.
pub fn thread_row_is_subagent(row: &ThreadRow, subagent_thread_ids: &[String]) -> (r: bool)
    ensures
        r == row_is_subagent(*row, subagent_thread_ids@),
{
    let mut spawned = false;
    let mut i: usize = 0;
    while i < subagent_thread_ids.len()
        invariant
            i <= subagent_thread_ids.len(),
            spawned == exists|k: int| 0 <= k < i && (#[trigger] subagent_thread_ids@[k])@ == row.id@,
        decreases subagent_thread_ids.len() - i,
    {
        if subagent_thread_ids[i] == row.id {
            spawned = true;
        }
        i = i + 1;
    }
    let marker = String::from_str("subagent");
    let thread_source_subagent = match &row.thread_source {
        Some(s) => *s == marker,
        None => false,
    };
    let source_mentions_subagent = match &row.source {
        Some(s) => {
            let normalized_source = normalize_search_text(s.as_str());
            let needle = chars_of("subagent");
            let hay = chars_of(normalized_source.as_str());
            occurs(needle.as_slice(), hay.as_slice())
        },
        None => false,
    };
    spawned || thread_source_subagent || source_mentions_subagent
}

/// Keeps the first conversation of each id, in order.
pub fn deduplicate_conversations(conversations: Vec<Conversation>) -> (r: Vec<Conversation>)
    ensures
        r@ == first_of_each_id(conversations@),
        ids_distinct(r@),
        forall|x: Seq<char>| has_id(r@, x) <==> has_id(conversations@, x),
{
    let mut unique: Vec<Conversation> = Vec::new();
    let mut i: usize = 0;
    while i < conversations.len()
        invariant
            i <= conversations.len(),
            unique@ == first_of_each_id(conversations@.take(i as int)),
        decreases conversations.len() - i,
    {
        let ghost prefix = conversations@.take(i as int);
        let ghost next = conversations@.take(i + 1);
        proof {
            lemma_first_of_each_id_ids(prefix);
            assert(next.drop_last() =~= prefix);
            assert(next.last() == conversations@[i as int]);
        }
        let mut seen = false;
        let mut k: usize = 0;
        while k < unique.len()
            invariant
                k <= unique.len(),
                i < conversations.len(),
                seen == exists|j: int| 0 <= j < k && (#[trigger] unique@[j]).id@ == conversations@[i as int].id@,
            decreases unique.len() - k,
        {
            if unique[k].id == conversations[i].id {
                seen = true;
            }
            k = k + 1;
        }
        proof {
            let x = conversations@[i as int].id@;
            assert(seen == has_id(unique@, x));
            assert(has_id(prefix, x) == id_seen_before(next, i as int)) by {
                if has_id(prefix, x) {
                    let j = choose|j: int| 0 <= j < prefix.len() && (#[trigger] prefix[j]).id@ == x;
                    assert(next[j] == prefix[j]);
                }
                if id_seen_before(next, i as int) {
                    let j = choose|j: int| 0 <= j < i && (#[trigger] next[j]).id@ == next[i as int].id@;
                    assert(prefix[j] == next[j]);
                }
            }
        }
        if !seen {
            unique.push(conversations[i].duplicate());
        }
        i = i + 1;
    }
    proof {
        assert(conversations@.take(conversations.len() as int) =~= conversations@);
        lemma_first_of_each_id_ids(conversations@);
    }
    unique
}

/// The conversations the picker lists, given whether spawned subagents are
/// included.
pub fn conversations_for_picker(conversations: Vec<Conversation>, include_subagents: bool) -> (r: Vec<
    Conversation,
>)
    ensures
        r@ == picker_conversations(conversations@, include_subagents),
{
    if include_subagents {
        return conversations;
    }
    let mut primary: Vec<Conversation> = Vec::new();
    let mut i: usize = 0;
    while i < conversations.len()
        invariant
            i <= conversations.len(),
            primary@ == conversations@.take(i as int).filter(|c: Conversation| !c.is_subagent),
        decreases conversations.len() - i,
    {
        proof {
            let next = conversations@.take(i + 1);
            assert(next.drop_last() =~= conversations@.take(i as int));
            assert(next.last() == conversations@[i as int]);
            reveal_with_fuel(Seq::filter, 1);
        }
        if !conversations[i].is_subagent {
            primary.push(conversations[i].duplicate());
        }
        i = i + 1;
    }
    assert(conversations@.take(conversations.len() as int) =~= conversations@);
    deduplicate_conversations(primary)
}

/// The conversations built from stored thread rows, in row order, given the
/// session-index names, the recorded child thread ids and the home
/// directory; fails on the first row without a usable timestamp.
pub fn conversations_from_rows(
    rows: Vec<ThreadRow>,
    thread_names: &[(String, String)],
    subagent_thread_ids: &[String],
    home_dir: Option<&str>,
) -> (r: Result<Vec<Conversation>, CdxError>)
    ensures
        r matches Ok(v) ==> {
            &&& v.len() == rows.len()
            &&& forall|i: int|
                0 <= i < rows.len() ==> converted_from(
                    #[trigger] v@[i],
                    rows@[i],
                    table_name(thread_names@, rows@[i].id@),
                    row_is_subagent(rows@[i], subagent_thread_ids@),
                    opt_text(home_dir),
                )
        },
        r is Ok <==> forall|i: int|
            0 <= i < rows.len() ==> (#[trigger] effective_timestamp(
                rows@[i].recency_at_ms,
                rows@[i].updated_at_ms,
            )) is Some,
        r matches Err(e) ==> exists|i: int|
            0 <= i < rows.len() && effective_timestamp(rows@[i].recency_at_ms, rows@[i].updated_at_ms)
                is None && (forall|j: int|
                0 <= j < i ==> (#[trigger] effective_timestamp(
                    rows@[j].recency_at_ms,
                    rows@[j].updated_at_ms,
                )) is Some) && e == CdxError::MissingTimestamp(rows@[i].id),
{
    let mut out: Vec<Conversation> = Vec::new();
    let mut i: usize = 0;
    while i < rows.len()
        invariant
            i <= rows.len(),
            out.len() == i,
            forall|j: int|
                0 <= j < i ==> (#[trigger] effective_timestamp(
                    rows@[j].recency_at_ms,
                    rows@[j].updated_at_ms,
                )) is Some,
            forall|j: int|
                0 <= j < i ==> converted_from(
                    #[trigger] out@[j],
                    rows@[j],
                    table_name(thread_names@, rows@[j].id@),
                    row_is_subagent(rows@[j], subagent_thread_ids@),
                    opt_text(home_dir),
                ),
        decreases rows.len() - i,
    {
        let row = &rows[i];
        let is_subagent = thread_row_is_subagent(row, subagent_thread_ids);
        let name = thread_name_for(thread_names, row.id.as_str());
        let row_copy = ThreadRow {
            id: row.id.clone(),
            cwd: row.cwd.clone(),
            title: row.title.clone(),
            preview: row.preview.clone(),
            first_user_message: row.first_user_message.clone(),
            recency_at_ms: row.recency_at_ms,
            updated_at_ms: row.updated_at_ms,
            created_at_ms: row.created_at_ms,
            source: row.source.clone(),
            thread_source: row.thread_source.clone(),
        };
        assert(row_copy == rows@[i as int]);
        match Conversation::try_from_row(row_copy, name, is_subagent, home_dir) {
            Ok(c) => {
                out.push(c);
            },
            Err(e) => {
                return Err(e);
            },
        }
        i = i + 1;
    }
    Ok(out)
}

/// The name a table of `(id, name)` pairs gives a thread id.
pub fn thread_name_for<'a>(thread_names: &'a [(String, String)], id: &str) -> (r: Option<&'a str>)
    ensures
        opt_text(r) == table_name(thread_names@, id@),
{
    let key = String::from_str(id);
    let mut k: usize = thread_names.len();
    assert(thread_names@.take(k as int) =~= thread_names@);
    while k > 0
        invariant
            k <= thread_names.len(),
            key@ == id@,
            table_name(thread_names@, id@) == table_name(thread_names@.take(k as int), id@),
        decreases k,
    {
        let ghost t = thread_names@.take(k as int);
        proof {
            assert(t.drop_last() =~= thread_names@.take(k - 1));
            assert(t.last() == thread_names@[k - 1]);
        }
        if thread_names[k - 1].0 == key {
            return Some(thread_names[k - 1].1.as_str());
        }
        k = k - 1;
    }
    None
}

/// The names the session index gives threads: for each id, the trimmed name
/// of its last entry with a non-blank name; one pair per id.
pub fn thread_names_from_entries(entries: &[SessionIndexEntry]) -> (r: Vec<(String, String)>)
    ensures
        table_ids_distinct(r@),
        forall|id: Seq<char>| #[trigger] table_name(r@, id) == indexed_name(entries@, id),
{
    let mut table: Vec<(String, String)> = Vec::new();
    let mut i: usize = 0;
    while i < entries.len()
        invariant
            i <= entries.len(),
            table_ids_distinct(table@),
            forall|id: Seq<char>| #[trigger]
                table_name(table@, id) == indexed_name(entries@.take(i as int), id),
        decreases entries.len() - i,
    {
        let ghost prefix = entries@.take(i as int);
        let ghost next = entries@.take(i + 1);
        proof {
            assert(next.drop_last() =~= prefix);
            assert(next.last() == entries@[i as int]);
        }
        let entry = &entries[i];
        if let Some(name) = &entry.thread_name {
            let trimmed_name = trim(name.as_str());
            if !trimmed_name.as_str().is_empty() {
                let mut k: usize = 0;
                while k < table.len() && !(table[k].0 == entry.id)
                    invariant
                        k <= table.len(),
                        forall|j: int| 0 <= j < k ==> (#[trigger] table@[j]).0@ != entry.id@,
                    decreases table.len() - k,
                {
                    k = k + 1;
                }
                let pair = (entry.id.clone(), trimmed_name);
                if k < table.len() {
                    proof {
                        lemma_table_name_update(table@, k as int, pair);
                    }
                    table.set(k, pair);
                } else {
                    proof {
                        let u = table@.push(pair);
                        assert forall|a: int, b: int| 0 <= a < b < u.len() implies (#[trigger] u[a]).0@
                            != (#[trigger] u[b]).0@ by {
                            assert(u[a] == table@[a]);
                            if b < table.len() {
                                assert(u[b] == table@[b]);
                            }
                        }
                        assert(u.drop_last() =~= table@);
                    }
                    table.push(pair);
                }
                proof {
                    assert(trimmed_name@.len() > 0);
                }
            }
        }
        i = i + 1;
    }
    proof {
        assert(entries@.take(entries.len() as int) =~= entries@);
    }
    table
}

/// The select statement that reads the stored threads, given which optional
/// source columns the `threads` table has.
pub fn thread_query_sql(has_source: bool, has_thread_source: bool) -> (r: String)
    ensures
        r@ == thread_query_text(has_source, has_thread_source),
{
    let mut q = String::from_str(
        "select id, cwd, nullif(title, ''), nullif(preview, ''), nullif(first_user_message, ''), coalesce(recency_at_ms, 0), updated_at_ms, coalesce(nullif(created_at_ms, 0), created_at * 1000, updated_at_ms), ",
    );
    if has_source {
        q.append("nullif(source, '')");
    } else {
        q.append("null");
    }
    q.append(", ");
    if has_thread_source {
        q.append("nullif(thread_source, '')");
    } else {
        q.append("null");
    }
    q.append(
        " from threads where archived = 0 order by coalesce(nullif(recency_at_ms, 0), updated_at_ms) desc",
    );
    q
}

} // verus!
