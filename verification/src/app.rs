//! The interactive picker's state: which conversations are listed for the
//! current search and settings, in which order, and which one is selected.
use vstd::prelude::*;
use vstd::string::StringExecFns;
use vstd::utf8::is_ascii_chars;

use crate::conversation::Conversation;
use crate::modes::{
    columns_after, filter_after, focus_after, focus_before, rows_after, sort_after,
    subagent_after, ColumnPreset, FilterMode, FocusTarget, RowMode, SortMode, SubagentMode,
};
use crate::text::{
    ascii_lower, chars_lt, chars_of, lemma_text_lt_irreflexive, lemma_text_lt_total, lemma_text_lt_transitive,
    normalize_search_text, normalized, occurs, occurs_in, pop_char, push_char, text_lt,
    to_lowercase, unicode_lowercase,
};

verus! {

/// Interactive picker state for browsing local Codex conversations.
#[derive(Debug)]
pub struct App {
    pub conversations: Vec<Conversation>,
    /// Positions in `conversations` of the listed conversations, in list order.
    pub visible: Vec<usize>,
    /// Position in `visible` of the selected conversation.
    pub selected: usize,
    pub query: String,
    pub filter_mode: FilterMode,
    pub sort_mode: SortMode,
    pub focus: FocusTarget,
    pub current_cwd: String,
    pub column_preset: ColumnPreset,
    pub row_mode: RowMode,
    pub subagent_mode: SubagentMode,
}

// ---------------------------------------------------------------------------
// What the picker lists
// ---------------------------------------------------------------------------

/// The text a conversation is searched in: title, preview, directory and id.
pub open spec fn search_haystack(c: Conversation) -> Seq<char> {
    c.display_title@ + " "@ + c.preview@ + " "@ + c.cwd@ + " "@ + c.id@
}

/// A conversation matches an (already lower-cased) query when the query is
/// empty or its search form occurs in the search form of the haystack.
pub open spec fn matches_search(c: Conversation, lowered_query: Seq<char>) -> bool {
    lowered_query.len() == 0 || occurs_in(normalized(lowered_query), normalized(search_haystack(c)))
}

/// A conversation passes the directory filter and the thread-visibility
/// setting.
pub open spec fn passes_filter(
    filter_mode: FilterMode,
    subagent_mode: SubagentMode,
    current_cwd: Seq<char>,
    c: Conversation,
) -> bool {
    &&& (filter_mode == FilterMode::All || c.cwd@ == current_cwd)
    &&& (subagent_mode == SubagentMode::Show || !c.is_subagent)
}

/// The conversation at position `i` is listed by the picker's settings and
/// search.
pub open spec fn is_listed(app: App, i: int) -> bool {
    &&& passes_filter(app.filter_mode, app.subagent_mode, app.current_cwd@, app.conversations@[i])
    &&& matches_search(app.conversations@[i], unicode_lowercase(app.query@))
}

/// The timestamp a conversation is ordered by.
pub open spec fn sort_key(mode: SortMode, c: Conversation) -> i64 {
    match mode {
        SortMode::Updated => c.updated_at_ms,
        SortMode::Created => c.created_at_ms,
    }
}

/// Entry `(ki, ti, i)` comes before entry `(kj, tj, j)`: newer timestamp
/// first, then title in lexicographic order, then position in the loaded list.
pub open spec fn ranks_before(ki: i64, ti: Seq<char>, i: int, kj: i64, tj: Seq<char>, j: int) -> bool {
    ||| ki > kj
    ||| (ki == kj && text_lt(ti, tj))
    ||| (ki == kj && ti == tj && i < j)
}

/// The conversation at `i` comes before the one at `j` in the list.
pub open spec fn listed_before(mode: SortMode, convs: Seq<Conversation>, i: int, j: int) -> bool {
    ranks_before(
        sort_key(mode, convs[i]),
        convs[i].display_title@,
        i,
        sort_key(mode, convs[j]),
        convs[j].display_title@,
        j,
    )
}

/// `visible` lists exactly the listed conversations, each once, newest
/// first (by the sort mode's timestamp), ties by title, then by position.
pub open spec fn visible_is_listing(app: App) -> bool {
    let vis = app.visible@;
    let n = app.conversations@.len();
    &&& forall|k: int| 0 <= k < vis.len() ==> (#[trigger] vis[k]) < n && is_listed(app, vis[k] as int)
    &&& forall|i: int| 0 <= i < n && #[trigger] is_listed(app, i) ==> vis.contains(i as usize)
    &&& forall|a: int, b: int|
        0 <= a < b < vis.len() ==> listed_before(
            app.sort_mode,
            app.conversations@,
            #[trigger] vis[a] as int,
            #[trigger] vis[b] as int,
        )
}

/// The selection after the list changed to `len` entries: kept when still
/// in range, otherwise the last entry (or 0 for an empty list).
pub open spec fn clamped_selection(selected: usize, len: nat) -> usize {
    if len == 0 {
        0
    } else if selected >= len {
        (len - 1) as usize
    } else {
        selected
    }
}

/// The list positions index existing conversations.
pub open spec fn visible_in_range(app: App) -> bool {
    forall|k: int| 0 <= k < app.visible@.len() ==> (#[trigger] app.visible@[k]) < app.conversations@.len()
}

/// The settings and contents shared by `a` and `b`, apart from the query,
/// focus, filter, thread visibility and sort mode.
pub open spec fn same_contents(a: App, b: App) -> bool {
    &&& a.conversations@ == b.conversations@
    &&& a.current_cwd@ == b.current_cwd@
    &&& a.column_preset == b.column_preset
    &&& a.row_mode == b.row_mode
}

/// `a` and `b` agree on everything the list is built from: the
/// conversations, the current directory, the search and the three options.
pub open spec fn same_listing_inputs(a: App, b: App) -> bool {
    &&& a.conversations@ == b.conversations@
    &&& a.current_cwd@ == b.current_cwd@
    &&& a.query@ == b.query@
    &&& a.filter_mode == b.filter_mode
    &&& a.subagent_mode == b.subagent_mode
    &&& a.sort_mode == b.sort_mode
}

/// The selection is on an entry of the list, or 0 when the list is empty.
pub open spec fn selection_in_list(app: App) -> bool {
    ||| app.visible@.len() == 0 && app.selected == 0
    ||| app.selected < app.visible@.len()
}

/// `b` keeps every setting of `a`.
pub open spec fn same_settings(a: App, b: App) -> bool {
    &&& same_contents(a, b)
    &&& a.query@ == b.query@
    &&& a.focus == b.focus
    &&& a.filter_mode == b.filter_mode
    &&& a.subagent_mode == b.subagent_mode
    &&& a.sort_mode == b.sort_mode
}

/// `b` is `a` unchanged, list and selection included.
pub open spec fn same_state(a: App, b: App) -> bool {
    &&& same_settings(a, b)
    &&& a.visible@ == b.visible@
    &&& a.selected == b.selected
}

/// The list of `b` was rebuilt for its settings, the selection clamped from
/// `previous_selected`.
pub open spec fn relisted(b: App, previous_selected: usize) -> bool {
    &&& visible_is_listing(b)
    &&& (b.query@.len() == 0 <==> unicode_lowercase(b.query@).len() == 0)
    &&& (is_ascii_chars(b.query@) ==> unicode_lowercase(b.query@) == b.query@.map_values(
        |c: char| ascii_lower(c),
    ))
    &&& b.selected == clamped_selection(previous_selected, b.visible@.len())
}

/// The conversation under the selection, if any.
pub open spec fn selection_of(app: App) -> Option<Conversation> {
    if app.selected < app.visible@.len() && app.visible@[app.selected as int]
        < app.conversations@.len() {
        Some(app.conversations@[app.visible@[app.selected as int] as int])
    } else {
        None
    }
}

/// `b` is `a` with the selection moved one entry down, wrapping to the top.
pub open spec fn moved_down(a: App, b: App) -> bool {
    &&& same_settings(a, b)
    &&& b.visible@ == a.visible@
    &&& b.selected == if a.visible@.len() == 0 {
        a.selected
    } else if a.selected + 1 < a.visible@.len() {
        (a.selected + 1) as usize
    } else {
        0
    }
}

/// `b` is `a` with the selection moved one entry up, wrapping to the bottom.
pub open spec fn moved_up(a: App, b: App) -> bool {
    &&& same_settings(a, b)
    &&& b.visible@ == a.visible@
    &&& b.selected == if a.visible@.len() == 0 {
        a.selected
    } else if a.selected == 0 {
        (a.visible@.len() - 1) as usize
    } else {
        (a.selected - 1) as usize
    }
}

/// `b` is `a` with the focus on `f` and nothing else changed.
pub open spec fn focus_moved(a: App, b: App, f: FocusTarget) -> bool {
    &&& b.focus == f
    &&& same_contents(a, b)
    &&& b.query@ == a.query@
    &&& b.filter_mode == a.filter_mode
    &&& b.subagent_mode == a.subagent_mode
    &&& b.sort_mode == a.sort_mode
    &&& b.visible@ == a.visible@
    &&& b.selected == a.selected
}

/// `b` is `a` with the focused option changed (every option has two
/// settings, so either direction flips it) and the list rebuilt; with the
/// search focused nothing changes.
pub open spec fn option_stepped(a: App, b: App) -> bool {
    &&& same_contents(a, b)
    &&& b.query@ == a.query@
    &&& b.focus == a.focus
    &&& b.filter_mode == if a.focus == FocusTarget::Filter {
        filter_after(a.filter_mode)
    } else {
        a.filter_mode
    }
    &&& b.subagent_mode == if a.focus == FocusTarget::Subagents {
        subagent_after(a.subagent_mode)
    } else {
        a.subagent_mode
    }
    &&& b.sort_mode == if a.focus == FocusTarget::Sort {
        sort_after(a.sort_mode)
    } else {
        a.sort_mode
    }
    &&& a.focus == FocusTarget::Search ==> same_state(a, b)
    &&& a.focus != FocusTarget::Search ==> relisted(b, a.selected)
}

/// `b` is `a` with the search text `q`, the focus on the search, and the
/// list rebuilt.
pub open spec fn query_edited(a: App, b: App, q: Seq<char>) -> bool {
    &&& b.query@ == q
    &&& b.focus == FocusTarget::Search
    &&& same_contents(a, b)
    &&& b.filter_mode == a.filter_mode
    &&& b.subagent_mode == a.subagent_mode
    &&& b.sort_mode == a.sort_mode
    &&& relisted(b, a.selected)
}

/// `b` is `a` with the given column set and row density and nothing else
/// changed.
pub open spec fn view_changed(a: App, b: App, columns: ColumnPreset, rows: RowMode) -> bool {
    &&& b.column_preset == columns
    &&& b.row_mode == rows
    &&& b.conversations@ == a.conversations@
    &&& b.current_cwd@ == a.current_cwd@
    &&& b.query@ == a.query@
    &&& b.focus == a.focus
    &&& b.filter_mode == a.filter_mode
    &&& b.subagent_mode == a.subagent_mode
    &&& b.sort_mode == a.sort_mode
    &&& b.visible@ == a.visible@
    &&& b.selected == a.selected
}

// ---------------------------------------------------------------------------
// Lemmas on the list order
// ---------------------------------------------------------------------------

proof fn lemma_text_lt_asymmetric(a: Seq<char>, b: Seq<char>)
    requires
        text_lt(a, b),
    ensures
        !text_lt(b, a),
        a != b,
{
    if text_lt(b, a) {
        lemma_text_lt_transitive(a, b, a);
        lemma_text_lt_irreflexive(a);
    }
    if a == b {
        lemma_text_lt_irreflexive(a);
    }
}

/// The list order is a strict total order on distinct positions.
pub proof fn lemma_ranks_before_order(
    ki: i64,
    ti: Seq<char>,
    i: int,
    kj: i64,
    tj: Seq<char>,
    j: int,
    kk: i64,
    tk: Seq<char>,
    k: int,
)
    ensures
        !ranks_before(ki, ti, i, ki, ti, i),
        ranks_before(ki, ti, i, kj, tj, j) ==> !ranks_before(kj, tj, j, ki, ti, i),
        ranks_before(ki, ti, i, kj, tj, j) && ranks_before(kj, tj, j, kk, tk, k) ==> ranks_before(
            ki,
            ti,
            i,
            kk,
            tk,
            k,
        ),
        i != j ==> ranks_before(ki, ti, i, kj, tj, j) || ranks_before(kj, tj, j, ki, ti, i),
{
    lemma_text_lt_irreflexive(ti);
    if text_lt(ti, tj) {
        lemma_text_lt_asymmetric(ti, tj);
    }
    if text_lt(tj, ti) {
        lemma_text_lt_asymmetric(tj, ti);
    }
    if text_lt(ti, tj) && text_lt(tj, tk) {
        lemma_text_lt_transitive(ti, tj, tk);
    }
    if text_lt(tj, tk) {
        lemma_text_lt_asymmetric(tj, tk);
    }
    lemma_text_lt_total(ti, tj);
}

// ---------------------------------------------------------------------------
// Executable functions
// ---------------------------------------------------------------------------

/// The timestamp a conversation is ordered by.
fn key_of(mode: SortMode, c: &Conversation) -> (r: i64)
    ensures
        r == sort_key(mode, *c),
{
    match mode {
        SortMode::Updated => c.updated_at_ms,
        SortMode::Created => c.created_at_ms,
    }
}

fn ranks_before_exec(ki: i64, ti: &[char], i: usize, kj: i64, tj: &[char], j: usize) -> (r: bool)
    ensures
        r == ranks_before(ki, ti@, i as int, kj, tj@, j as int),
{
    if ki > kj {
        true
    } else if ki < kj {
        false
    } else if chars_lt(ti, tj) {
        true
    } else if chars_lt(tj, ti) {
        proof {
            lemma_text_lt_asymmetric(tj@, ti@);
        }
        false
    } else {
        proof {
            lemma_text_lt_total(ti@, tj@);
        }
        i < j
    }
}

/// Inserts `x` into a list sorted by `ranks_before`, at its place.
fn insert_ranked(
    list: &mut Vec<usize>,
    x: usize,
    keys: &Vec<i64>,
    titles: &Vec<Vec<char>>,
    Ghost(before): Ghost<spec_fn(int, int) -> bool>,
)
    requires
        x < keys.len(),
        keys.len() == titles.len(),
        forall|k: int| 0 <= k < old(list)@.len() ==> (#[trigger] old(list)@[k]) < keys.len() && old(list)@[k]
            != x,
        forall|a: int, b: int|
            0 <= a < keys.len() && 0 <= b < keys.len() ==> #[trigger] before(a, b) == ranks_before(
                keys@[a],
                titles@[a]@,
                a,
                keys@[b],
                titles@[b]@,
                b,
            ),
        forall|a: int, b: int|
            0 <= a < b < old(list)@.len() ==> before(
                #[trigger] old(list)@[a] as int,
                #[trigger] old(list)@[b] as int,
            ),
    ensures
        forall|y: usize| final(list)@.contains(y) <==> (old(list)@.contains(y) || y == x),
        forall|k: int| 0 <= k < final(list)@.len() ==> (#[trigger] final(list)@[k]) < keys.len(),
        forall|a: int, b: int|
            0 <= a < b < final(list)@.len() ==> before(
                #[trigger] final(list)@[a] as int,
                #[trigger] final(list)@[b] as int,
            ),
{
    let ghost s = list@;
    let mut p: usize = 0;
    while p < list.len() && ranks_before_exec(
        keys[list[p]],
        titles[list[p]].as_slice(),
        list[p],
        keys[x],
        titles[x].as_slice(),
        x,
    )
        invariant
            p <= list@.len(),
            list@ == s,
            x < keys.len(),
            keys.len() == titles.len(),
            forall|k: int| 0 <= k < s.len() ==> (#[trigger] s[k]) < keys.len(),
            forall|a: int, b: int|
                0 <= a < keys.len() && 0 <= b < keys.len() ==> #[trigger] before(a, b)
                    == ranks_before(keys@[a], titles@[a]@, a, keys@[b], titles@[b]@, b),
            forall|q: int| 0 <= q < p ==> before(#[trigger] s[q] as int, x as int),
        decreases list@.len() - p,
    {
        p = p + 1;
    }
    proof {
        let xi = x as int;
        if p < s.len() {
            let sp = s[p as int] as int;
            assert(!before(sp, xi));
            lemma_ranks_before_order(
                keys@[sp],
                titles@[sp]@,
                sp,
                keys@[xi],
                titles@[xi]@,
                xi,
                keys@[xi],
                titles@[xi]@,
                xi,
            );
            assert(before(xi, sp));
            assert forall|q: int| p <= q < s.len() implies before(xi, #[trigger] s[q] as int) by {
                if q > p {
                    let sq = s[q] as int;
                    assert(before(sp, sq));
                    lemma_ranks_before_order(
                        keys@[xi],
                        titles@[xi]@,
                        xi,
                        keys@[sp],
                        titles@[sp]@,
                        sp,
                        keys@[sq],
                        titles@[sq]@,
                        sq,
                    );
                }
            }
        }
    }
    list.insert(p, x);
    proof {
        let t = list@;
        assert(t == s.insert(p as int, x));
        assert forall|k: int| 0 <= k < t.len() implies (#[trigger] t[k]) < keys.len() by {
            if k < p {
                assert(t[k] == s[k]);
            } else if k > p {
                assert(t[k] == s[k - 1]);
            }
        }
        assert forall|a: int, b: int| 0 <= a < b < t.len() implies before(
            #[trigger] t[a] as int,
            #[trigger] t[b] as int,
        ) by {
            if b < p {
                assert(t[a] == s[a] && t[b] == s[b]);
            } else if b == p {
                assert(t[a] == s[a]);
            } else if a < p {
                assert(t[a] == s[a] && t[b] == s[b - 1]);
                let sa = s[a] as int;
                let sb = s[b - 1] as int;
                let xi = x as int;
                assert(before(sa, xi));
                assert(before(xi, sb));
                lemma_ranks_before_order(
                    keys@[sa],
                    titles@[sa]@,
                    sa,
                    keys@[xi],
                    titles@[xi]@,
                    xi,
                    keys@[sb],
                    titles@[sb]@,
                    sb,
                );
            } else if a == p {
                assert(t[b] == s[b - 1]);
            } else {
                assert(t[a] == s[a - 1] && t[b] == s[b - 1]);
            }
        }
        assert forall|y: usize| t.contains(y) <==> (s.contains(y) || y == x) by {
            if t.contains(y) {
                let k = choose|k: int| 0 <= k < t.len() && t[k] == y;
                if k < p {
                    assert(s[k] == y);
                } else if k > p {
                    assert(s[k - 1] == y);
                }
            }
            if s.contains(y) {
                let k = choose|k: int| 0 <= k < s.len() && s[k] == y;
                if k < p {
                    assert(t[k] == y);
                } else {
                    assert(t[k + 1] == y);
                }
            }
            if y == x {
                assert(t[p as int] == x);
            }
        }
    }
}

impl App {
    /// Creates a picker state for the provided conversations and current directory.
    pub fn new(conversations: Vec<Conversation>, current_cwd: String) -> (r: Self)
        ensures
            r.conversations@ == conversations@,
            r.current_cwd@ == current_cwd@,
            r.query@.len() == 0,
            unicode_lowercase(r.query@).len() == 0,
            r.filter_mode == FilterMode::All,
            r.sort_mode == SortMode::Updated,
            r.focus == FocusTarget::Search,
            r.column_preset == ColumnPreset::Core,
            r.row_mode == RowMode::Compact,
            r.subagent_mode == SubagentMode::Hide,
            visible_is_listing(r),
            r.selected == 0,
    {
        Self::new_with_options(conversations, current_cwd, false)
    }

    /// Creates a picker state with an explicit initial subagent visibility mode.
    pub fn new_with_options(
        conversations: Vec<Conversation>,
        current_cwd: String,
        include_subagents: bool,
    ) -> (r: Self)
        ensures
            r.conversations@ == conversations@,
            r.current_cwd@ == current_cwd@,
            r.query@.len() == 0,
            unicode_lowercase(r.query@).len() == 0,
            r.filter_mode == FilterMode::All,
            r.sort_mode == SortMode::Updated,
            r.focus == FocusTarget::Search,
            r.column_preset == ColumnPreset::Core,
            r.row_mode == RowMode::Compact,
            r.subagent_mode == if include_subagents {
                SubagentMode::Show
            } else {
                SubagentMode::Hide
            },
            visible_is_listing(r),
            r.selected == 0,
    {
        let mut app = App {
            conversations,
            visible: Vec::new(),
            selected: 0,
            query: String::new(),
            filter_mode: FilterMode::All,
            sort_mode: SortMode::Updated,
            focus: FocusTarget::Search,
            current_cwd,
            column_preset: ColumnPreset::Core,
            row_mode: RowMode::Compact,
            subagent_mode: if include_subagents {
                SubagentMode::Show
            } else {
                SubagentMode::Hide
            },
        };
        app.refresh_visible();
        app
    }

    /// Rebuilds the list for the current settings and search, and keeps the
    /// selection in range.
    pub fn refresh_visible(&mut self)
        ensures
            same_settings(*old(self), *final(self)),
            relisted(*final(self), old(self).selected),
    {
        let lowered = to_lowercase(self.query.as_str());
        let n = self.conversations.len();
        let mut keys: Vec<i64> = Vec::new();
        let mut titles: Vec<Vec<char>> = Vec::new();
        let mut i: usize = 0;
        while i < n
            invariant
                i <= n,
                n == self.conversations@.len(),
                keys.len() == i,
                titles.len() == i,
                forall|k: int|
                    0 <= k < i ==> #[trigger] keys@[k] == sort_key(
                        self.sort_mode,
                        self.conversations@[k],
                    ),
                forall|k: int| 0 <= k < i ==> (#[trigger] titles@[k])@ == self.conversations@[k].display_title@,
            decreases n - i,
        {
            keys.push(key_of(self.sort_mode, &self.conversations[i]));
            titles.push(chars_of(self.conversations[i].display_title.as_str()));
            i = i + 1;
        }
        let ghost before = |a: int, b: int|
            ranks_before(keys@[a], titles@[a]@, a, keys@[b], titles@[b]@, b);
        let ghost app = *self;
        let mut visible: Vec<usize> = Vec::new();
        let mut i: usize = 0;
        while i < n
            invariant
                i <= n,
                n == app.conversations@.len(),
                *self == app,
                lowered@ == unicode_lowercase(app.query@),
                keys.len() == n,
                titles.len() == n,
                forall|k: int| 0 <= k < n ==> #[trigger] keys@[k] == sort_key(app.sort_mode, app.conversations@[k]),
                forall|k: int| 0 <= k < n ==> (#[trigger] titles@[k])@ == app.conversations@[k].display_title@,
                forall|a: int, b: int|
                    0 <= a < keys.len() && 0 <= b < keys.len() ==> #[trigger] before(a, b)
                        == ranks_before(keys@[a], titles@[a]@, a, keys@[b], titles@[b]@, b),
                forall|k: int| 0 <= k < visible@.len() ==> (#[trigger] visible@[k]) < i,
                forall|y: usize| visible@.contains(y) <==> (y < i && is_listed(app, y as int)),
                forall|a: int, b: int|
                    0 <= a < b < visible@.len() ==> before(
                        #[trigger] visible@[a] as int,
                        #[trigger] visible@[b] as int,
                    ),
            decreases n - i,
        {
            let listed = self.matches_filter(&self.conversations[i]) && Self::matches_query(
                &self.conversations[i],
                lowered.as_str(),
            );
            if listed {
                proof {
                    assert forall|k: int| 0 <= k < visible@.len() implies (#[trigger] visible@[k])
                        != i by {}
                }
                insert_ranked(&mut visible, i, &keys, &titles, Ghost(before));
            }
            proof {
                assert forall|k: int| 0 <= k < visible@.len() implies (#[trigger] visible@[k]) < i + 1 by {
                    assert(visible@.contains(visible@[k]));
                }
            }
            i = i + 1;
        }
        let new_selected = if visible.len() == 0 {
            0
        } else if self.selected >= visible.len() {
            visible.len() - 1
        } else {
            self.selected
        };
        self.visible = visible;
        self.selected = new_selected;
        proof {
            let post = *self;
            assert forall|k: int| 0 <= k < post.visible@.len() implies (#[trigger] post.visible@[k])
                < n && is_listed(post, post.visible@[k] as int) by {
                let y = post.visible@[k];
                assert(post.visible@.contains(y));
                assert(is_listed(app, y as int));
            }
            assert forall|j: int| 0 <= j < n && #[trigger] is_listed(post, j) implies post.visible@.contains(
                j as usize,
            ) by {
                assert(is_listed(app, j));
                assert((j as usize) < n && is_listed(app, (j as usize) as int));
            }
            assert forall|a: int, b: int| 0 <= a < b < post.visible@.len() implies listed_before(
                post.sort_mode,
                post.conversations@,
                #[trigger] post.visible@[a] as int,
                #[trigger] post.visible@[b] as int,
            ) by {
                let x = post.visible@[a] as int;
                let y = post.visible@[b] as int;
                assert(before(x, y));
                assert(keys@[x] == sort_key(app.sort_mode, app.conversations@[x]));
                assert(keys@[y] == sort_key(app.sort_mode, app.conversations@[y]));
                assert(titles@[x]@ == app.conversations@[x].display_title@);
                assert(titles@[y]@ == app.conversations@[y].display_title@);
            }
        }
    }

    /// Whether a conversation passes the directory filter and the thread
    /// visibility setting.
    pub fn matches_filter(&self, conversation: &Conversation) -> (r: bool)
        ensures
            r == passes_filter(self.filter_mode, self.subagent_mode, self.current_cwd@, *conversation),
    {
        let directory_matches = match self.filter_mode {
            FilterMode::All => true,
            FilterMode::CurrentDirectory => conversation.cwd == self.current_cwd,
        };
        let subagent_matches = match self.subagent_mode {
            SubagentMode::Hide => !conversation.is_subagent,
            SubagentMode::Show => true,
        };
        if !directory_matches {
            return false;
        }
        subagent_matches
    }

    /// Whether a conversation matches an already lower-cased query.
    pub fn matches_query(conversation: &Conversation, query: &str) -> (r: bool)
        ensures
            r == matches_search(*conversation, query@),
    {
        if query.is_empty() {
            return true;
        }
        let mut haystack = String::from_str(conversation.display_title.as_str());
        haystack.append(" ");
        haystack.append(conversation.preview.as_str());
        haystack.append(" ");
        haystack.append(conversation.cwd.as_str());
        haystack.append(" ");
        haystack.append(conversation.id.as_str());
        let normalized_haystack = normalize_search_text(haystack.as_str());
        let normalized_query = normalize_search_text(query);
        let hay = chars_of(normalized_haystack.as_str());
        let needle = chars_of(normalized_query.as_str());
        occurs(needle.as_slice(), hay.as_slice())
    }

    /// Shows or hides spawned subagent conversations.
    pub fn toggle_subagent_mode(&mut self)
        ensures
            final(self).subagent_mode == subagent_after(old(self).subagent_mode),
            same_contents(*old(self), *final(self)),
            final(self).query@ == old(self).query@,
            final(self).focus == old(self).focus,
            final(self).filter_mode == old(self).filter_mode,
            final(self).sort_mode == old(self).sort_mode,
            relisted(*final(self), old(self).selected),
    {
        self.subagent_mode = self.subagent_mode.next();
        self.refresh_visible();
    }

    /// Whether spawned subagent conversations are shown.
    pub fn include_subagents(&self) -> (r: bool)
        ensures
            r == (self.subagent_mode == SubagentMode::Show),
    {
        match self.subagent_mode {
            SubagentMode::Hide => false,
            SubagentMode::Show => true,
        }
    }

    /// Whether spawned subagent conversations are shown.
    pub fn is_showing_subagents(&self) -> (r: bool)
        ensures
            r == (self.subagent_mode == SubagentMode::Show),
    {
        self.include_subagents()
    }

    /// The ids of the listed conversations, in list order.
    pub fn visible_ids(&self) -> (r: Vec<String>)
        requires
            visible_in_range(*self),
        ensures
            r.len() == self.visible.len(),
            forall|k: int|
                0 <= k < r.len() ==> (#[trigger] r@[k])@ == self.conversations@[self.visible@[k] as int].id@,
    {
        let mut ids: Vec<String> = Vec::new();
        let mut k: usize = 0;
        while k < self.visible.len()
            invariant
                k <= self.visible.len(),
                visible_in_range(*self),
                ids.len() == k,
                forall|j: int|
                    0 <= j < k ==> (#[trigger] ids@[j])@ == self.conversations@[self.visible@[j] as int].id@,
            decreases self.visible.len() - k,
        {
            ids.push(self.conversations[self.visible[k]].id.clone());
            k = k + 1;
        }
        ids
    }

    /// The selected conversation, if the selection points at one.
    pub fn selected_conversation(&self) -> (r: Option<&Conversation>)
        ensures
            match r {
                Some(c) => selection_of(*self) == Some(*c),
                None => selection_of(*self) is None,
            },
    {
        selected_conversation(self.visible.as_slice(), self.selected, self.conversations.as_slice())
    }

    /// Moves the selection one entry down, wrapping to the top.
    pub fn move_down(&mut self)
        ensures
            moved_down(*old(self), *final(self)),
    {
        if self.visible.len() == 0 {
            return;
        }
        self.selected = if self.selected < self.visible.len() - 1 {
            self.selected + 1
        } else {
            0
        };
    }

    /// Moves the selection one entry up, wrapping to the bottom.
    pub fn move_up(&mut self)
        ensures
            moved_up(*old(self), *final(self)),
    {
        if self.visible.len() == 0 {
            return;
        }
        self.selected = if self.selected == 0 {
            self.visible.len() - 1
        } else {
            self.selected - 1
        };
    }

    /// Types one character into the search.
    pub fn append_query(&mut self, ch: char)
        ensures
            query_edited(*old(self), *final(self), old(self).query@.push(ch)),
    {
        self.focus = FocusTarget::Search;
        push_char(&mut self.query, ch);
        self.refresh_visible();
    }

    /// Deletes the last character of the search.
    pub fn backspace_query(&mut self)
        ensures
            query_edited(
                *old(self),
                *final(self),
                if old(self).query@.len() == 0 {
                    old(self).query@
                } else {
                    old(self).query@.drop_last()
                },
            ),
    {
        self.focus = FocusTarget::Search;
        let _removed = pop_char(&mut self.query);
        self.refresh_visible();
    }

    /// Clears the search.
    pub fn clear_query(&mut self)
        ensures
            query_edited(*old(self), *final(self), Seq::empty()),
    {
        self.focus = FocusTarget::Search;
        self.query = String::new();
        self.refresh_visible();
    }

    /// Handles Escape: clears a non-empty search and keeps the picker open
    /// (`false`); with the search already empty, asks to exit (`true`).
    pub fn escape(&mut self) -> (exit: bool)
        ensures
            exit == (old(self).query@.len() == 0),
            exit ==> same_state(*old(self), *final(self)),
            !exit ==> query_edited(*old(self), *final(self), Seq::empty()),
    {
        if self.query.as_str().is_empty() {
            true
        } else {
            self.clear_query();
            false
        }
    }

    /// Moves the focus to the next control.
    pub fn cycle_focus_forward(&mut self)
        ensures
            focus_moved(*old(self), *final(self), focus_after(old(self).focus)),
    {
        self.focus = self.focus.next();
    }

    /// Moves the focus to the previous control.
    pub fn cycle_focus_backward(&mut self)
        ensures
            focus_moved(*old(self), *final(self), focus_before(old(self).focus)),
    {
        self.focus = self.focus.previous();
    }

    /// Steps the focused option forward (nothing when the search has focus).
    pub fn change_current_option_right(&mut self)
        ensures
            option_stepped(*old(self), *final(self)),
    {
        match self.focus {
            FocusTarget::Search => {},
            FocusTarget::Filter => {
                self.filter_mode = self.filter_mode.next();
                self.refresh_visible();
            },
            FocusTarget::Subagents => self.toggle_subagent_mode(),
            FocusTarget::Sort => {
                self.sort_mode = self.sort_mode.next();
                self.refresh_visible();
            },
        }
    }

    /// Steps the focused option back (nothing when the search has focus).
    pub fn change_current_option_left(&mut self)
        ensures
            option_stepped(*old(self), *final(self)),
    {
        match self.focus {
            FocusTarget::Search => {},
            FocusTarget::Filter => {
                self.filter_mode = self.filter_mode.previous();
                self.refresh_visible();
            },
            FocusTarget::Subagents => {
                self.subagent_mode = self.subagent_mode.previous();
                self.refresh_visible();
            },
            FocusTarget::Sort => {
                self.sort_mode = self.sort_mode.previous();
                self.refresh_visible();
            },
        }
    }

    /// Switches between the core and the full column set.
    pub fn toggle_column_preset(&mut self)
        ensures
            view_changed(*old(self), *final(self), columns_after(old(self).column_preset), old(self).row_mode),
    {
        self.column_preset = self.column_preset.toggle();
    }

    /// Switches between compact and comfortable rows.
    pub fn toggle_row_mode(&mut self)
        ensures
            view_changed(*old(self), *final(self), old(self).column_preset, rows_after(old(self).row_mode)),
    {
        self.row_mode = self.row_mode.toggle();
    }
}

/// The conversation at list position `selected`, if there is one.
pub fn selected_conversation<'a>(
    visible: &[usize],
    selected: usize,
    conversations: &'a [Conversation],
) -> (r: Option<&'a Conversation>)
    ensures
        match r {
            Some(c) => selected < visible@.len() && visible@[selected as int] < conversations@.len()
                && *c == conversations@[visible@[selected as int] as int],
            None => !(selected < visible@.len() && visible@[selected as int] < conversations@.len()),
        },
{
    if selected < visible.len() {
        let index = visible[selected];
        if index < conversations.len() {
            return Some(&conversations[index]);
        }
    }
    None
}

} // verus!
