//! Properties of the picker that hold across its operations: how search
//! text is compared, what the list contains and in which order, how the
//! selection moves, and what the conversation loader keeps.
use vstd::prelude::*;

use crate::app::{
    is_listed, listed_before, search_haystack, lemma_ranks_before_order, matches_search, moved_down, moved_up,
    option_stepped, passes_filter, query_edited, relisted, same_listing_inputs, same_settings,
    selection_in_list, sort_key, visible_is_listing, App,
};
use crate::keys::{answered, key_action, KeyAction, KeyCode, KeyEvent};
use crate::modes::{ColumnPreset, FilterMode, FocusTarget, RowMode, SortMode, SubagentMode};
use crate::modes::{filter_after, sort_after, subagent_after};
use crate::time::{bucket_of, relative_text, Elapsed, RecencyBucket};
use crate::error::CdxError;
use crate::conversation::{
    effective_timestamp, id_seen_before, lemma_first_of_each_id_ids, row_is_subagent, thread_query_text, ThreadRow, chosen_preview, chosen_title, first_of_each_id, has_id, ids_distinct, picker_conversations,
    Conversation, PREVIEW_LIMIT,
};
use crate::layout::{chosen_variant, controls_room, variant_width, ControlsVariant};
use crate::text::{ascii_lower, decimal_text, is_ascii_alnum, normalized, occurs_in, trimmed, truncated_to_width, text_lt, truncated_chars, unicode_lowercase};

verus! {

broadcast use vstd::seq_lib::group_filter_ensures;

// ---------------------------------------------------------------------------
// Search text
// ---------------------------------------------------------------------------

proof fn lemma_normalized_split(a: Seq<char>, b: Seq<char>)
    ensures
        normalized(a + b) == normalized(a) + normalized(b),
{
    let p = |c: char| is_ascii_alnum(c);
    Seq::filter_distributes_over_add(a, b, p);
    assert(normalized(a + b) =~= normalized(a) + normalized(b));
}

proof fn lemma_normalized_single(c: char)
    ensures
        normalized(seq![c]) == if is_ascii_alnum(c) {
            seq![ascii_lower(c)]
        } else {
            Seq::<char>::empty()
        },
{
    reveal_with_fuel(Seq::filter, 2);
    assert(seq![c].drop_last() =~= Seq::<char>::empty());
    if is_ascii_alnum(c) {
        assert(normalized(seq![c]) =~= seq![ascii_lower(c)]);
    } else {
        assert(normalized(seq![c]) =~= Seq::<char>::empty());
    }
}

/// Search ignores punctuation: removing a character that is not an ASCII
/// letter or digit leaves the search form of a text unchanged (so
/// "invoicerepair" matches "invoice-repair").
pub proof fn law_search_ignores_punctuation(a: Seq<char>, c: char, b: Seq<char>)
    requires
        !is_ascii_alnum(c),
    ensures
        normalized(a + seq![c] + b) == normalized(a + b),
{
    lemma_normalized_split(a + seq![c], b);
    lemma_normalized_split(a, seq![c]);
    lemma_normalized_split(a, b);
    lemma_normalized_single(c);
    assert(normalized(a) + Seq::<char>::empty() =~= normalized(a));
}

/// Search ignores case: an upper-case ASCII letter and its lower-case form
/// give the same search form.
pub proof fn law_search_ignores_case(a: Seq<char>, c: char, b: Seq<char>)
    requires
        'A' <= c <= 'Z',
    ensures
        normalized(a + seq![c] + b) == normalized(a + seq![ascii_lower(c)] + b),
{
    let l = ascii_lower(c);
    assert('a' <= l <= 'z');
    lemma_normalized_split(a + seq![c], b);
    lemma_normalized_split(a, seq![c]);
    lemma_normalized_split(a + seq![l], b);
    lemma_normalized_split(a, seq![l]);
    lemma_normalized_single(c);
    lemma_normalized_single(l);
}

/// The search form of a text consists of lower-case ASCII letters and
/// digits only, and is its own search form.
pub proof fn law_search_form_is_stable(s: Seq<char>)
    ensures
        forall|k: int|
            0 <= k < normalized(s).len() ==> is_ascii_alnum(#[trigger] normalized(s)[k]) && !(
            'A' <= normalized(s)[k] <= 'Z'),
        normalized(normalized(s)) == normalized(s),
    decreases s.len(),
{
    reveal_with_fuel(Seq::filter, 1);
    if s.len() > 0 {
        let p = s.drop_last();
        law_search_form_is_stable(p);
        assert(s =~= p + seq![s.last()]);
        lemma_normalized_split(p, seq![s.last()]);
        lemma_normalized_single(s.last());
        let n = normalized(s);
        let np = normalized(p);
        if is_ascii_alnum(s.last()) {
            let l = ascii_lower(s.last());
            assert(n == np + seq![l]);
            lemma_normalized_split(np, seq![l]);
            lemma_normalized_single(l);
            assert forall|k: int| 0 <= k < n.len() implies is_ascii_alnum(#[trigger] n[k]) && !(
            'A' <= n[k] <= 'Z') by {
                if k < np.len() {
                    assert(n[k] == np[k]);
                }
            }
        } else {
            assert(n == np + Seq::<char>::empty());
            assert(n =~= np);
        }
    } else {
        assert(normalized(s) =~= Seq::<char>::empty());
    }
}

// ---------------------------------------------------------------------------
// The list
// ---------------------------------------------------------------------------

/// The list never repeats a conversation, and it is ordered newest first by
/// the sort mode's timestamp.
pub proof fn law_listing_is_ordered(app: App)
    requires
        visible_is_listing(app),
    ensures
        forall|a: int, b: int|
            0 <= a < b < app.visible@.len() ==> #[trigger] app.visible@[a] != #[trigger] app.visible@[b]
                && sort_key(app.sort_mode, app.conversations@[app.visible@[a] as int]) >= sort_key(
                app.sort_mode,
                app.conversations@[app.visible@[b] as int],
            ),
{
    assert forall|a: int, b: int| 0 <= a < b < app.visible@.len() implies #[trigger] app.visible@[a]
        != #[trigger] app.visible@[b] && sort_key(
        app.sort_mode,
        app.conversations@[app.visible@[a] as int],
    ) >= sort_key(app.sort_mode, app.conversations@[app.visible@[b] as int]) by {
        let x = app.visible@[a] as int;
        let y = app.visible@[b] as int;
        let c = app.conversations@;
        assert(listed_before(app.sort_mode, c, x, y));
        lemma_ranks_before_order(
            sort_key(app.sort_mode, c[x]),
            c[x].display_title@,
            x,
            sort_key(app.sort_mode, c[y]),
            c[y].display_title@,
            y,
            sort_key(app.sort_mode, c[y]),
            c[y].display_title@,
            y,
        );
    }
}

/// Every listed conversation passes the directory filter and the thread
/// visibility setting; with an empty search, every conversation that passes
/// them is listed.
pub proof fn law_listing_respects_settings(app: App, previous_selected: usize)
    requires
        relisted(app, previous_selected),
    ensures
        forall|k: int|
            0 <= k < app.visible@.len() ==> passes_filter(
                app.filter_mode,
                app.subagent_mode,
                app.current_cwd@,
                app.conversations@[#[trigger] app.visible@[k] as int],
            ),
        app.query@.len() == 0 ==> forall|i: int|
            0 <= i < app.conversations@.len() && passes_filter(
                app.filter_mode,
                app.subagent_mode,
                app.current_cwd@,
                #[trigger] app.conversations@[i],
            ) ==> app.visible@.contains(i as usize),
{
    if app.query@.len() == 0 {
        assert forall|i: int|
            0 <= i < app.conversations@.len() && passes_filter(
                app.filter_mode,
                app.subagent_mode,
                app.current_cwd@,
                #[trigger] app.conversations@[i],
            ) implies app.visible@.contains(i as usize) by {
            assert(matches_search(app.conversations@[i], unicode_lowercase(app.query@)));
            assert(is_listed(app, i));
        }
    }
}

proof fn lemma_sorted_same_elements_equal(a: Seq<usize>, b: Seq<usize>, before: spec_fn(usize, usize) -> bool)
    requires
        forall|x: usize, y: usize| #[trigger] before(x, y) ==> !before(y, x),
        forall|i: int, j: int| 0 <= i < j < a.len() ==> before(#[trigger] a[i], #[trigger] a[j]),
        forall|i: int, j: int| 0 <= i < j < b.len() ==> before(#[trigger] b[i], #[trigger] b[j]),
        forall|x: usize| a.contains(x) <==> b.contains(x),
    ensures
        a == b,
    decreases a.len(),
{
    if a.len() == 0 {
        if b.len() > 0 {
            assert(b.contains(b[0]));
        }
        assert(a =~= b);
    } else {
        assert(a.contains(a[0]));
        assert(b.contains(a[0]));
        assert(b.len() > 0);
        assert(b.contains(b[0]));
        assert(a.contains(b[0]));
        let i = choose|i: int| 0 <= i < b.len() && b[i] == a[0];
        let j = choose|j: int| 0 <= j < a.len() && a[j] == b[0];
        if i > 0 && j > 0 {
            assert(before(b[0], b[i]));
            assert(before(a[0], a[j]));
        }
        if i > 0 && j == 0 {
            assert(before(b[0], b[i]));
        }
        if j > 0 && i == 0 {
            assert(before(a[0], a[j]));
        }
        assert(a[0] == b[0]);
        let a2 = a.drop_first();
        let b2 = b.drop_first();
        assert forall|x: usize| a2.contains(x) <==> b2.contains(x) by {
            if a2.contains(x) {
                let k = choose|k: int| 0 <= k < a2.len() && a2[k] == x;
                assert(a[k + 1] == x);
                assert(before(a[0], a[k + 1]));
                assert(x != a[0]);
                assert(b.contains(x));
                let m = choose|m: int| 0 <= m < b.len() && b[m] == x;
                assert(m != 0);
                assert(b2[m - 1] == x);
            }
            if b2.contains(x) {
                let k = choose|k: int| 0 <= k < b2.len() && b2[k] == x;
                assert(b[k + 1] == x);
                assert(before(b[0], b[k + 1]));
                assert(x != b[0]);
                assert(a.contains(x));
                let m = choose|m: int| 0 <= m < a.len() && a[m] == x;
                assert(m != 0);
                assert(a2[m - 1] == x);
            }
        }
        assert forall|p: int, q: int| 0 <= p < q < a2.len() implies before(
            #[trigger] a2[p],
            #[trigger] a2[q],
        ) by {
            assert(a2[p] == a[p + 1] && a2[q] == a[q + 1]);
        }
        assert forall|p: int, q: int| 0 <= p < q < b2.len() implies before(
            #[trigger] b2[p],
            #[trigger] b2[q],
        ) by {
            assert(b2[p] == b[p + 1] && b2[q] == b[q + 1]);
        }
        lemma_sorted_same_elements_equal(a2, b2, before);
        assert(a =~= seq![a[0]] + a2);
        assert(b =~= seq![b[0]] + b2);
    }
}

/// The list is determined by what it is built from: two picker states with
/// the same conversations, directory, search and options, both listing,
/// have the same list (the focus and the view settings play no part).
pub proof fn law_listing_is_determined(a: App, b: App)
    requires
        same_listing_inputs(a, b),
        visible_is_listing(a),
        visible_is_listing(b),
    ensures
        a.visible@ == b.visible@,
{
    let c = a.conversations@;
    let before = |x: usize, y: usize| listed_before(a.sort_mode, c, x as int, y as int);
    assert forall|x: usize, y: usize| #[trigger] before(x, y) implies !before(y, x) by {
        let xi = x as int;
        let yi = y as int;
        lemma_ranks_before_order(
            sort_key(a.sort_mode, c[xi]),
            c[xi].display_title@,
            xi,
            sort_key(a.sort_mode, c[yi]),
            c[yi].display_title@,
            yi,
            sort_key(a.sort_mode, c[yi]),
            c[yi].display_title@,
            yi,
        );
    }
    assert forall|x: usize| a.visible@.contains(x) <==> b.visible@.contains(x) by {
        if a.visible@.contains(x) {
            let k = choose|k: int| 0 <= k < a.visible@.len() && a.visible@[k] == x;
            assert(is_listed(a, x as int));
            assert(is_listed(b, x as int));
        }
        if b.visible@.contains(x) {
            let k = choose|k: int| 0 <= k < b.visible@.len() && b.visible@[k] == x;
            assert(is_listed(b, x as int));
            assert(is_listed(a, x as int));
        }
    }
    lemma_sorted_same_elements_equal(a.visible@, b.visible@, before);
}

// ---------------------------------------------------------------------------
// The selection
// ---------------------------------------------------------------------------

/// After the list is rebuilt the selection points into it (or is 0 for an
/// empty list).
pub proof fn law_selection_stays_in_range(app: App, previous_selected: usize)
    requires
        relisted(app, previous_selected),
    ensures
        app.visible@.len() == 0 ==> app.selected == 0,
        app.visible@.len() > 0 ==> app.selected < app.visible@.len(),
        previous_selected < app.visible@.len() ==> app.selected == previous_selected,
{
}

/// Moving down and then up (or up and then down) returns to the entry that
/// was selected, the list unchanged.
pub proof fn law_moves_undo_each_other(a: App, b: App, c: App)
    requires
        a.selected < a.visible@.len(),
    ensures
        moved_down(a, b) && moved_up(b, c) ==> c.selected == a.selected && c.visible@ == a.visible@
            && same_settings(a, c),
        moved_up(a, b) && moved_down(b, c) ==> c.selected == a.selected && c.visible@ == a.visible@
            && same_settings(a, c),
{
    assert(a.visible@.len() == a.visible.len());
}

/// Moving down as many times as the list has entries returns to the start:
/// one step from the last entry wraps to the first, one step up from the
/// first wraps to the last.
pub proof fn law_moves_wrap(a: App, b: App)
    requires
        a.visible@.len() > 0,
    ensures
        moved_down(a, b) && a.selected + 1 == a.visible@.len() ==> b.selected == 0,
        moved_up(a, b) && a.selected == 0 ==> b.selected + 1 == a.visible@.len(),
{
    assert(a.visible@.len() == a.visible.len());
}

// ---------------------------------------------------------------------------
// Answers to keys
// ---------------------------------------------------------------------------

proof fn lemma_listing_carries_over(a: App, b: App)
    requires
        visible_is_listing(a),
        same_listing_inputs(a, b),
        b.visible@ == a.visible@,
    ensures
        visible_is_listing(b),
{
    assert forall|i: int| is_listed(a, i) == is_listed(b, i) by {}
}

/// Whatever the picker does in answer to a key, its list stays the listing
/// of its settings and search, and the selection stays on an entry of it.
pub proof fn law_answers_keep_the_list(
    a: App,
    b: App,
    action: KeyAction,
    r: Result<Option<Conversation>, CdxError>,
)
    requires
        visible_is_listing(a),
        selection_in_list(a),
        answered(a, b, action, r),
    ensures
        visible_is_listing(b),
        selection_in_list(b),
{
    if b.visible@ == a.visible@ && same_listing_inputs(a, b) {
        lemma_listing_carries_over(a, b);
    }
}

/// Typing a character and deleting it again gives back the search and the
/// list it had.
pub proof fn law_backspace_undoes_typing(a: App, b: App, c: App, ch: char)
    requires
        visible_is_listing(a),
        query_edited(a, b, a.query@.push(ch)),
        query_edited(
            b,
            c,
            if b.query@.len() == 0 {
                b.query@
            } else {
                b.query@.drop_last()
            },
        ),
    ensures
        c.query@ == a.query@,
        c.visible@ == a.visible@,
{
    assert(a.query@.push(ch).drop_last() =~= a.query@);
    law_listing_is_determined(a, c);
}

/// Every option has two settings, so stepping the focused option twice
/// gives back the settings and the list the picker had.
pub proof fn law_option_steps_undo_each_other(a: App, b: App, c: App)
    requires
        visible_is_listing(a),
        option_stepped(a, b),
        option_stepped(b, c),
    ensures
        same_listing_inputs(a, c),
        c.visible@ == a.visible@,
{
    assert(filter_after(filter_after(a.filter_mode)) == a.filter_mode);
    assert(subagent_after(subagent_after(a.subagent_mode)) == a.subagent_mode);
    assert(sort_after(sort_after(a.sort_mode)) == a.sort_mode);
    if a.focus != crate::modes::FocusTarget::Search {
        law_listing_is_determined(a, c);
    }
}

// ---------------------------------------------------------------------------
// Recency
// ---------------------------------------------------------------------------

/// How stale a recency bucket is: 0 for recent, 1 for this week, 2 for
/// older.
pub open spec fn staleness(b: RecencyBucket) -> int {
    match b {
        RecencyBucket::Recent => 0,
        RecencyBucket::ThisWeek => 1,
        RecencyBucket::Stale => 2,
    }
}

/// A conversation that was updated longer ago is never in a fresher bucket.
pub proof fn law_older_is_never_fresher(d1: Elapsed, d2: Elapsed)
    requires
        d1.millis < d2.millis || (d1.millis == d2.millis && d1.nanos <= d2.nanos),
    ensures
        staleness(bucket_of(d1)) <= staleness(bucket_of(d2)),
{
}

// ---------------------------------------------------------------------------
// Loaded conversations
// ---------------------------------------------------------------------------

proof fn lemma_first_of_each_id_from_input(s: Seq<Conversation>)
    ensures
        forall|k: int|
            0 <= k < first_of_each_id(s).len() ==> s.contains(#[trigger] first_of_each_id(s)[k]),
    decreases s.len(),
{
    if s.len() > 0 {
        let p = s.drop_last();
        lemma_first_of_each_id_from_input(p);
        let r = first_of_each_id(s);
        assert forall|k: int| 0 <= k < r.len() implies s.contains(#[trigger] r[k]) by {
            let rest = first_of_each_id(p);
            if k < rest.len() {
                assert(r[k] == rest[k]);
                assert(p.contains(rest[k]));
                let m = choose|m: int| 0 <= m < p.len() && p[m] == rest[k];
                assert(s[m] == p[m]);
            } else {
                assert(r[k] == s.last());
                assert(s[s.len() - 1] == s.last());
            }
        }
    }
}

/// Unless subagents are included, the loader keeps no spawned subagent
/// conversation, no id twice, and every id of a primary conversation.
pub proof fn law_primary_conversations(s: Seq<Conversation>)
    ensures
        forall|k: int|
            0 <= k < picker_conversations(s, false).len() ==> !(#[trigger] picker_conversations(
                s,
                false,
            )[k]).is_subagent,
        ids_distinct(picker_conversations(s, false)),
        forall|x: Seq<char>|
            has_id(picker_conversations(s, false), x) <==> has_id(
                s.filter(|c: Conversation| !c.is_subagent),
                x,
            ),
        picker_conversations(s, true) == s,
{
    let f = s.filter(|c: Conversation| !c.is_subagent);
    lemma_first_of_each_id_from_input(f);
    lemma_first_of_each_id_ids(f);
    let r = first_of_each_id(f);
    assert forall|k: int| 0 <= k < r.len() implies !(#[trigger] r[k]).is_subagent by {
        assert(f.contains(r[k]));
        let m = choose|m: int| 0 <= m < f.len() && f[m] == r[k];
    }
}

/// The conversations of `x` that are not spawned subagents, in order.
spec fn primaries(x: Seq<Conversation>) -> Seq<Conversation> {
    x.filter(|c: Conversation| !c.is_subagent)
}

proof fn lemma_filter_keeps_ids_distinct(x: Seq<Conversation>)
    requires
        ids_distinct(x),
    ensures
        ids_distinct(primaries(x)),
        forall|k: int|
            0 <= k < primaries(x).len() ==> has_id(
                x,
                (#[trigger] primaries(x)[k]).id@,
            ),
    decreases x.len(),
{
    reveal_with_fuel(Seq::filter, 1);
    if x.len() > 0 {
        let y = x.drop_last();
        assert forall|a: int, b: int| 0 <= a < b < y.len() implies (#[trigger] y[a]).id@
            != (#[trigger] y[b]).id@ by {
            assert(x[a] == y[a] && x[b] == y[b]);
        }
        lemma_filter_keeps_ids_distinct(y);
        let fy = primaries(y);
        let fx = primaries(x);
        assert forall|k: int| 0 <= k < fy.len() implies has_id(x, (#[trigger] fy[k]).id@) by {
            assert(has_id(y, fy[k].id@));
            let j = choose|j: int| 0 <= j < y.len() && (#[trigger] y[j]).id@ == fy[k].id@;
            assert(x[j] == y[j]);
        }
        if !x.last().is_subagent {
            assert(fx == fy.push(x.last()));
            assert forall|a: int, b: int| 0 <= a < b < fx.len() implies (#[trigger] fx[a]).id@
                != (#[trigger] fx[b]).id@ by {
                if b == fx.len() - 1 {
                    assert(has_id(y, fy[a].id@));
                    let j = choose|j: int| 0 <= j < y.len() && (#[trigger] y[j]).id@ == fy[a].id@;
                    assert(x[j] == y[j]);
                    assert(x[x.len() - 1] == x.last());
                } else {
                    assert(fx[a] == fy[a] && fx[b] == fy[b]);
                }
            }
            assert forall|k: int| 0 <= k < fx.len() implies has_id(x, (#[trigger] fx[k]).id@) by {
                if k == fx.len() - 1 {
                    assert(x[x.len() - 1] == x.last());
                } else {
                    assert(fx[k] == fy[k]);
                }
            }
        } else {
            assert(fx == fy);
        }
    }
}

proof fn lemma_distinct_ids_kept_whole(x: Seq<Conversation>)
    requires
        ids_distinct(x),
    ensures
        first_of_each_id(x) == x,
    decreases x.len(),
{
    if x.len() > 0 {
        let y = x.drop_last();
        assert forall|a: int, b: int| 0 <= a < b < y.len() implies (#[trigger] y[a]).id@
            != (#[trigger] y[b]).id@ by {
            assert(x[a] == y[a] && x[b] == y[b]);
        }
        lemma_distinct_ids_kept_whole(y);
        assert(!id_seen_before(x, x.len() - 1));
        assert(y.push(x.last()) =~= x);
    }
}

/// A list already de-duplicated needs no second pass once its subagents
/// are dropped: the primary conversations the picker gets from a
/// de-duplicated load are that load without its subagents, ids still
/// distinct.
pub proof fn law_primary_list_of_deduplicated_load(s: Seq<Conversation>)
    ensures
        picker_conversations(first_of_each_id(s), false) == first_of_each_id(s).filter(
            |c: Conversation| !c.is_subagent,
        ),
        ids_distinct(picker_conversations(first_of_each_id(s), false)),
{
    let d = first_of_each_id(s);
    lemma_first_of_each_id_ids(s);
    lemma_filter_keeps_ids_distinct(d);
    lemma_distinct_ids_kept_whole(primaries(d));
}

/// A conversation's title is never blank.
pub proof fn law_title_is_never_blank(
    id: Seq<char>,
    thread_name: Option<Seq<char>>,
    title: Option<Seq<char>>,
)
    ensures
        chosen_title(id, thread_name, title).len() > 0,
{
    reveal_strlit("unknown");
}

/// A preview is at most `PREVIEW_LIMIT` characters plus the ellipsis.
pub proof fn law_preview_is_bounded(preview: Option<Seq<char>>, first_user_message: Option<Seq<char>>)
    ensures
        chosen_preview(preview, first_user_message).len() <= PREVIEW_LIMIT + 1,
{
}

// ---------------------------------------------------------------------------
// The controls
// ---------------------------------------------------------------------------

/// The chosen controls variant fits the room it gets, unless even the
/// minimal one is chosen; a wider variant is chosen whenever it fits.
pub proof fn law_chosen_controls_fit(app: App, area_width: u16)
    ensures
        chosen_variant(app, area_width) != ControlsVariant::Minimal ==> controls_room(app, area_width)
            >= variant_width(chosen_variant(app, area_width), app),
        controls_room(app, area_width) >= variant_width(ControlsVariant::Full, app) ==> chosen_variant(
            app,
            area_width,
        ) == ControlsVariant::Full,
{
}

// ---------------------------------------------------------------------------
// What each key does
// ---------------------------------------------------------------------------

/// A pressed Down arrow moves the selection to the next entry, from the last
/// entry back to the first; the list stays as it was and nothing is chosen.
pub proof fn law_down_arrow_selects_the_next_entry(
    a: App,
    b: App,
    key: KeyEvent,
    r: Result<Option<Conversation>, CdxError>,
)
    requires
        key.code == KeyCode::Down,
        key.is_press,
        answered(a, b, key_action(a.focus, key), r),
        a.selected < a.visible@.len(),
    ensures
        r == Ok::<Option<Conversation>, CdxError>(None),
        b.visible@ == a.visible@,
        a.selected + 1 < a.visible@.len() ==> b.selected == a.selected + 1,
        a.selected + 1 == a.visible@.len() ==> b.selected == 0,
{
    assert(a.visible@.len() == a.visible.len());
}

/// A pressed Up arrow moves the selection to the previous entry, from the
/// first entry round to the last; the list stays as it was and nothing is
/// chosen.
pub proof fn law_up_arrow_selects_the_previous_entry(
    a: App,
    b: App,
    key: KeyEvent,
    r: Result<Option<Conversation>, CdxError>,
)
    requires
        key.code == KeyCode::Up,
        key.is_press,
        answered(a, b, key_action(a.focus, key), r),
        a.selected < a.visible@.len(),
    ensures
        r == Ok::<Option<Conversation>, CdxError>(None),
        b.visible@ == a.visible@,
        a.selected > 0 ==> b.selected + 1 == a.selected,
        a.selected == 0 ==> b.selected + 1 == a.visible@.len(),
{
    assert(a.visible@.len() == a.visible.len());
}

/// The arrows leave an empty list and its selection alone.
pub proof fn law_arrows_on_an_empty_list_do_nothing(
    a: App,
    b: App,
    key: KeyEvent,
    r: Result<Option<Conversation>, CdxError>,
)
    requires
        key.code == KeyCode::Up || key.code == KeyCode::Down,
        a.visible@.len() == 0,
        answered(a, b, key_action(a.focus, key), r),
    ensures
        r == Ok::<Option<Conversation>, CdxError>(None),
        b.visible@.len() == 0,
        b.selected == a.selected,
        b.query@ == a.query@,
{
}

/// A pressed Enter chooses the highlighted conversation, the one at the
/// selected position of the list, and changes nothing; with no entry
/// selected it chooses nothing.
pub proof fn law_enter_chooses_the_highlighted_conversation(
    a: App,
    b: App,
    key: KeyEvent,
    r: Result<Option<Conversation>, CdxError>,
)
    requires
        key.code == KeyCode::Enter,
        key.is_press,
        answered(a, b, key_action(a.focus, key), r),
    ensures
        a.selected < a.visible@.len() && a.visible@[a.selected as int] < a.conversations@.len()
            ==> r == Ok::<Option<Conversation>, CdxError>(
            Some(a.conversations@[a.visible@[a.selected as int] as int]),
        ),
        a.selected >= a.visible@.len() ==> r == Ok::<Option<Conversation>, CdxError>(None),
        b.visible@ == a.visible@,
        b.selected == a.selected,
        b.query@ == a.query@,
{
}

/// A pressed character key without Control types that character at the end
/// of the search and moves the focus to the search (a space steps the
/// focused option instead when the search does not have the focus).
pub proof fn law_typing_appends_to_the_search(
    a: App,
    b: App,
    key: KeyEvent,
    ch: char,
    r: Result<Option<Conversation>, CdxError>,
)
    requires
        key.code == KeyCode::Char(ch),
        key.is_press,
        !key.control,
        ch != ' ' || a.focus == FocusTarget::Search,
        answered(a, b, key_action(a.focus, key), r),
    ensures
        r == Ok::<Option<Conversation>, CdxError>(None),
        b.query@ == a.query@.push(ch),
        b.focus == FocusTarget::Search,
        visible_is_listing(b),
{
}

/// A pressed Backspace deletes the last character of the search (nothing
/// when it is empty) and moves the focus to the search.
pub proof fn law_backspace_deletes_the_last_character(
    a: App,
    b: App,
    key: KeyEvent,
    r: Result<Option<Conversation>, CdxError>,
)
    requires
        key.code == KeyCode::Backspace,
        key.is_press,
        answered(a, b, key_action(a.focus, key), r),
    ensures
        r == Ok::<Option<Conversation>, CdxError>(None),
        a.query@.len() > 0 ==> b.query@.len() + 1 == a.query@.len() && b.query@ == a.query@.subrange(
            0,
            a.query@.len() - 1,
        ),
        a.query@.len() == 0 ==> b.query@.len() == 0,
        b.focus == FocusTarget::Search,
{
}

/// Control+U empties the search and moves the focus to it.
pub proof fn law_control_u_clears_the_search(
    a: App,
    b: App,
    key: KeyEvent,
    r: Result<Option<Conversation>, CdxError>,
)
    requires
        key.code == KeyCode::Char('u'),
        key.control,
        key.is_press,
        answered(a, b, key_action(a.focus, key), r),
    ensures
        r == Ok::<Option<Conversation>, CdxError>(None),
        b.query@.len() == 0,
        b.focus == FocusTarget::Search,
{
}

/// Control+C cancels the selection and leaves the picker as it was.
pub proof fn law_control_c_cancels(
    a: App,
    b: App,
    key: KeyEvent,
    r: Result<Option<Conversation>, CdxError>,
)
    requires
        key.code == KeyCode::Char('c'),
        key.control,
        key.is_press,
        answered(a, b, key_action(a.focus, key), r),
    ensures
        r == Err::<Option<Conversation>, CdxError>(CdxError::SelectionCancelled),
        b.query@ == a.query@,
        b.visible@ == a.visible@,
        b.selected == a.selected,
{
}

/// Escape empties a non-empty search and keeps the picker open; with the
/// search already empty it cancels the selection.
pub proof fn law_escape_clears_then_cancels(
    a: App,
    b: App,
    key: KeyEvent,
    r: Result<Option<Conversation>, CdxError>,
)
    requires
        key.code == KeyCode::Esc,
        key.is_press,
        answered(a, b, key_action(a.focus, key), r),
    ensures
        a.query@.len() == 0 ==> r == Err::<Option<Conversation>, CdxError>(
            CdxError::SelectionCancelled,
        ),
        a.query@.len() > 0 ==> r == Ok::<Option<Conversation>, CdxError>(None) && b.query@.len()
            == 0,
{
}

/// Tab moves the focus through search, filter, threads and sort, back to the
/// search; Shift+Tab goes the other way round.
pub proof fn law_tab_cycles_the_focus(
    a: App,
    b: App,
    key: KeyEvent,
    r: Result<Option<Conversation>, CdxError>,
)
    requires
        key.code == KeyCode::Tab || key.code == KeyCode::BackTab,
        key.is_press,
        answered(a, b, key_action(a.focus, key), r),
    ensures
        r == Ok::<Option<Conversation>, CdxError>(None),
        key.code == KeyCode::Tab ==> b.focus == match a.focus {
            FocusTarget::Search => FocusTarget::Filter,
            FocusTarget::Filter => FocusTarget::Subagents,
            FocusTarget::Subagents => FocusTarget::Sort,
            FocusTarget::Sort => FocusTarget::Search,
        },
        key.code == KeyCode::BackTab ==> b.focus == match a.focus {
            FocusTarget::Search => FocusTarget::Sort,
            FocusTarget::Filter => FocusTarget::Search,
            FocusTarget::Subagents => FocusTarget::Filter,
            FocusTarget::Sort => FocusTarget::Subagents,
        },
        b.query@ == a.query@,
        b.visible@ == a.visible@,
        b.selected == a.selected,
{
}

/// Left, Right (and Space away from the search) change the focused option
/// to its other setting and no other; with the search focused they change
/// nothing.
pub proof fn law_option_keys_change_the_focused_option(
    a: App,
    b: App,
    key: KeyEvent,
    r: Result<Option<Conversation>, CdxError>,
)
    requires
        key.code == KeyCode::Left || key.code == KeyCode::Right || (key.code == KeyCode::Char(' ')
            && a.focus != FocusTarget::Search),
        key.is_press,
        answered(a, b, key_action(a.focus, key), r),
    ensures
        r == Ok::<Option<Conversation>, CdxError>(None),
        b.focus == a.focus,
        b.query@ == a.query@,
        (b.filter_mode != a.filter_mode) == (a.focus == FocusTarget::Filter),
        (b.subagent_mode != a.subagent_mode) == (a.focus == FocusTarget::Subagents),
        (b.sort_mode != a.sort_mode) == (a.focus == FocusTarget::Sort),
        a.focus == FocusTarget::Search ==> b.visible@ == a.visible@ && b.selected == a.selected,
{
}

/// Control+O switches the row density and Control+V the column set; nothing
/// else changes.
pub proof fn law_view_keys_switch_the_view(
    a: App,
    b: App,
    key: KeyEvent,
    r: Result<Option<Conversation>, CdxError>,
)
    requires
        key.code == KeyCode::Char('o') || key.code == KeyCode::Char('v'),
        key.control,
        key.is_press,
        answered(a, b, key_action(a.focus, key), r),
    ensures
        r == Ok::<Option<Conversation>, CdxError>(None),
        key.code == KeyCode::Char('o') ==> b.row_mode != a.row_mode && b.column_preset
            == a.column_preset,
        key.code == KeyCode::Char('v') ==> b.column_preset != a.column_preset && b.row_mode
            == a.row_mode,
        b.query@ == a.query@,
        b.visible@ == a.visible@,
        b.selected == a.selected,
{
}

/// A key that is repeated or released, not pressed, changes nothing.
pub proof fn law_unpressed_keys_do_nothing(
    a: App,
    b: App,
    key: KeyEvent,
    r: Result<Option<Conversation>, CdxError>,
)
    requires
        !key.is_press,
        answered(a, b, key_action(a.focus, key), r),
    ensures
        r == Ok::<Option<Conversation>, CdxError>(None),
        b.query@ == a.query@,
        b.focus == a.focus,
        b.visible@ == a.visible@,
        b.selected == a.selected,
        b.filter_mode == a.filter_mode,
        b.subagent_mode == a.subagent_mode,
        b.sort_mode == a.sort_mode,
{
}

// ---------------------------------------------------------------------------
// What the settings hide
// ---------------------------------------------------------------------------

/// With subagents hidden no listed conversation is a spawned subagent, and
/// with the current-directory filter every listed conversation was worked on
/// in the current directory, each independently of the other setting; with
/// an empty search every conversation that passes both is listed.
pub proof fn law_settings_decide_what_is_listed(app: App)
    requires
        visible_is_listing(app),
    ensures
        forall|k: int|
            0 <= k < app.visible@.len() ==> {
                let c = app.conversations@[#[trigger] app.visible@[k] as int];
                &&& app.subagent_mode == SubagentMode::Hide ==> !c.is_subagent
                &&& app.filter_mode == FilterMode::CurrentDirectory ==> c.cwd@ == app.current_cwd@
            },
        unicode_lowercase(app.query@).len() == 0 ==> forall|i: int|
            0 <= i < app.conversations@.len() && (app.filter_mode == FilterMode::All
                || (#[trigger] app.conversations@[i]).cwd@ == app.current_cwd@) && (app.subagent_mode
                == SubagentMode::Show || !app.conversations@[i].is_subagent) ==> app.visible@.contains(
                i as usize,
            ),
{
    assert forall|k: int| 0 <= k < app.visible@.len() implies {
        let c = app.conversations@[#[trigger] app.visible@[k] as int];
        &&& app.subagent_mode == SubagentMode::Hide ==> !c.is_subagent
        &&& app.filter_mode == FilterMode::CurrentDirectory ==> c.cwd@ == app.current_cwd@
    } by {
        assert(is_listed(app, app.visible@[k] as int));
    }
    if unicode_lowercase(app.query@).len() == 0 {
        assert forall|i: int|
            0 <= i < app.conversations@.len() && (app.filter_mode == FilterMode::All
                || (#[trigger] app.conversations@[i]).cwd@ == app.current_cwd@) && (app.subagent_mode
                == SubagentMode::Show || !app.conversations@[i].is_subagent) implies app.visible@.contains(
            i as usize,
        ) by {
            assert(is_listed(app, i));
        }
    }
}

// ---------------------------------------------------------------------------
// Spawned subagents
// ---------------------------------------------------------------------------

/// A thread whose id is any of the recorded child thread ids is a spawned
/// subagent, wherever in the record that id stands; so is a thread whose
/// thread source is "subagent".
pub proof fn law_recorded_children_are_subagents(row: ThreadRow, child_ids: Seq<String>, i: int)
    requires
        0 <= i < child_ids.len(),
        child_ids[i]@ == row.id@,
    ensures
        row_is_subagent(row, child_ids),
{
}

/// A thread whose thread source is "subagent" is a spawned subagent.
pub proof fn law_subagent_thread_source_marks_a_subagent(row: ThreadRow, child_ids: Seq<String>)
    requires
        row.thread_source matches Some(s) && s@ == "subagent"@,
    ensures
        row_is_subagent(row, child_ids),
{
}

/// A thread that is no recorded child, has no source and whose thread
/// source is not "subagent" is a primary thread.
pub proof fn law_unmarked_threads_are_primary(row: ThreadRow, child_ids: Seq<String>)
    requires
        forall|i: int| 0 <= i < child_ids.len() ==> (#[trigger] child_ids[i])@ != row.id@,
        row.source is None,
        !(row.thread_source matches Some(s) && s@ == "subagent"@),
    ensures
        !row_is_subagent(row, child_ids),
{
}

// ---------------------------------------------------------------------------
// The thread query
// ---------------------------------------------------------------------------

/// The thread query reads only threads that are not archived, newest first
/// by recency (the update time where no recency is recorded): whatever
/// optional columns the store has, it ends with this clause.
pub proof fn law_thread_query_reads_unarchived_threads(has_source: bool, has_thread_source: bool)
    ensures
        ({
            let q = thread_query_text(has_source, has_thread_source);
            let tail = " from threads where archived = 0 order by coalesce(nullif(recency_at_ms, 0), updated_at_ms) desc"@;
            &&& q.len() >= tail.len()
            &&& q.subrange(q.len() - tail.len(), q.len() as int) == tail
        }),
{
    let q = thread_query_text(has_source, has_thread_source);
    let tail = " from threads where archived = 0 order by coalesce(nullif(recency_at_ms, 0), updated_at_ms) desc"@;
    let head = q.subrange(0, q.len() - tail.len());
    assert(q.subrange(q.len() - tail.len(), q.len() as int) =~= tail);
}

/// The thread query selects, in order, the id, the directory, the title,
/// preview and first message (empty ones as null), the recency (0 where
/// none), the update time, the creation time (falling back to the creation
/// second, then to the update time), and the source and thread source where
/// the store has those columns (null otherwise).
pub proof fn law_thread_query_selects_the_thread_columns(has_source: bool, has_thread_source: bool)
    ensures
        thread_query_text(has_source, has_thread_source) == "select id, cwd, nullif(title, ''), nullif(preview, ''), nullif(first_user_message, ''), coalesce(recency_at_ms, 0), updated_at_ms, coalesce(nullif(created_at_ms, 0), created_at * 1000, updated_at_ms), "@
            + (if has_source {
            "nullif(source, '')"@
        } else {
            "null"@
        }) + ", "@ + (if has_thread_source {
            "nullif(thread_source, '')"@
        } else {
            "null"@
        })
            + " from threads where archived = 0 order by coalesce(nullif(recency_at_ms, 0), updated_at_ms) desc"@,
{
}

// ---------------------------------------------------------------------------
// Search and order, field by field
// ---------------------------------------------------------------------------

proof fn lemma_occurs_within(x: Seq<char>, a: Seq<char>, m: Seq<char>, b: Seq<char>)
    requires
        occurs_in(x, m),
    ensures
        occurs_in(x, a + m + b),
{
    let i = choose|i: int| 0 <= i && i + x.len() <= m.len() && #[trigger] m.subrange(i, i + x.len()) == x;
    let h = a + m + b;
    assert(h.subrange(a.len() + i, a.len() + i + x.len()) =~= m.subrange(i, i + x.len()));
}

/// A search finds a conversation through any of its title, preview,
/// directory or id: a conversation that passes the directory filter and the
/// thread visibility is listed when the search form of the (lower-cased)
/// search occurs in the search form of any of the four.
pub proof fn law_search_finds_every_field(app: App, i: int)
    requires
        visible_is_listing(app),
        0 <= i < app.conversations@.len(),
        app.filter_mode == FilterMode::All || app.conversations@[i].cwd@ == app.current_cwd@,
        app.subagent_mode == SubagentMode::Show || !app.conversations@[i].is_subagent,
        ({
            let q = normalized(unicode_lowercase(app.query@));
            let c = app.conversations@[i];
            ||| occurs_in(q, normalized(c.display_title@))
            ||| occurs_in(q, normalized(c.preview@))
            ||| occurs_in(q, normalized(c.cwd@))
            ||| occurs_in(q, normalized(c.id@))
        }),
    ensures
        app.visible@.contains(i as usize),
{
    let c = app.conversations@[i];
    let q = normalized(unicode_lowercase(app.query@));
    let sp = " "@;
    reveal_strlit(" ");
    assert(sp == seq![' ']);
    lemma_normalized_single(' ');
    let nt = normalized(c.display_title@);
    let np = normalized(c.preview@);
    let nw = normalized(c.cwd@);
    let nid = normalized(c.id@);
    let e = Seq::<char>::empty();
    lemma_normalized_split(c.display_title@, sp);
    lemma_normalized_split(c.display_title@ + sp, c.preview@);
    lemma_normalized_split(c.display_title@ + sp + c.preview@, sp);
    lemma_normalized_split(c.display_title@ + sp + c.preview@ + sp, c.cwd@);
    lemma_normalized_split(c.display_title@ + sp + c.preview@ + sp + c.cwd@, sp);
    lemma_normalized_split(c.display_title@ + sp + c.preview@ + sp + c.cwd@ + sp, c.id@);
    let h = normalized(search_haystack(c));
    assert(h =~= nt + np + nw + nid);
    if occurs_in(q, nt) {
        lemma_occurs_within(q, e, nt, np + nw + nid);
        assert(e + nt + (np + nw + nid) =~= h);
    } else if occurs_in(q, np) {
        lemma_occurs_within(q, nt, np, nw + nid);
        assert(nt + np + (nw + nid) =~= h);
    } else if occurs_in(q, nw) {
        lemma_occurs_within(q, nt + np, nw, nid);
        assert(nt + np + nw + nid =~= h);
    } else {
        lemma_occurs_within(q, nt + np + nw, nid, e);
        assert(nt + np + nw + nid + e =~= h);
    }
    assert(matches_search(c, unicode_lowercase(app.query@)));
    assert(is_listed(app, i));
}

/// The list is ordered newest first by the update time (or, when sorting
/// by creation, by the creation time); entries with the same time come in
/// title order.
pub proof fn law_list_is_newest_first(app: App)
    requires
        visible_is_listing(app),
    ensures
        forall|a: int, b: int|
            0 <= a < b < app.visible@.len() ==> {
                let x = app.conversations@[#[trigger] app.visible@[a] as int];
                let y = app.conversations@[#[trigger] app.visible@[b] as int];
                &&& app.sort_mode == SortMode::Updated ==> x.updated_at_ms >= y.updated_at_ms
                &&& app.sort_mode == SortMode::Created ==> x.created_at_ms >= y.created_at_ms
                &&& app.sort_mode == SortMode::Updated && x.updated_at_ms == y.updated_at_ms
                    ==> !text_lt(y.display_title@, x.display_title@)
                &&& app.sort_mode == SortMode::Created && x.created_at_ms == y.created_at_ms
                    ==> !text_lt(y.display_title@, x.display_title@)
            },
{
    law_listing_is_ordered(app);
    assert forall|a: int, b: int| 0 <= a < b < app.visible@.len() implies {
        let x = app.conversations@[#[trigger] app.visible@[a] as int];
        let y = app.conversations@[#[trigger] app.visible@[b] as int];
        &&& app.sort_mode == SortMode::Updated ==> x.updated_at_ms >= y.updated_at_ms
        &&& app.sort_mode == SortMode::Created ==> x.created_at_ms >= y.created_at_ms
        &&& app.sort_mode == SortMode::Updated && x.updated_at_ms == y.updated_at_ms
            ==> !text_lt(y.display_title@, x.display_title@)
        &&& app.sort_mode == SortMode::Created && x.created_at_ms == y.created_at_ms
            ==> !text_lt(y.display_title@, x.display_title@)
    } by {
        let x = app.conversations@[app.visible@[a] as int];
        let y = app.conversations@[app.visible@[b] as int];
        assert(listed_before(app.sort_mode, app.conversations@, app.visible@[a] as int, app.visible@[b] as int));
        crate::text::lemma_text_lt_irreflexive(x.display_title@);
        if text_lt(y.display_title@, x.display_title@) && text_lt(x.display_title@, y.display_title@) {
            crate::text::lemma_text_lt_transitive(x.display_title@, y.display_title@, x.display_title@);
        }
    }
}

// ---------------------------------------------------------------------------
// How a conversation is built and kept
// ---------------------------------------------------------------------------

/// The title is the session-index name when it is not blank, else the id
/// when it is not blank, else the stored title when it is not blank, else
/// "unknown"; each is used trimmed.
pub proof fn law_title_prefers_name_then_id_then_title(
    id: Seq<char>,
    thread_name: Option<Seq<char>>,
    title: Option<Seq<char>>,
)
    ensures
        thread_name is Some && trimmed(thread_name->0).len() > 0 ==> chosen_title(id, thread_name, title)
            == trimmed(thread_name->0),
        !(thread_name is Some && trimmed(thread_name->0).len() > 0) && trimmed(id).len() > 0
            ==> chosen_title(id, thread_name, title) == trimmed(id),
        !(thread_name is Some && trimmed(thread_name->0).len() > 0) && trimmed(id).len() == 0 && (
        title is Some && trimmed(title->0).len() > 0) ==> chosen_title(id, thread_name, title)
            == trimmed(title->0),
        !(thread_name is Some && trimmed(thread_name->0).len() > 0) && trimmed(id).len() == 0 && !(
        title is Some && trimmed(title->0).len() > 0) ==> chosen_title(id, thread_name, title)
            == "unknown"@,
{
}

/// A stored preview is shown whatever the first user message is; without
/// one, the first user message is shown as the preview would be.
pub proof fn law_preview_before_first_message(
    preview: Seq<char>,
    first_user_message: Option<Seq<char>>,
)
    ensures
        chosen_preview(Some(preview), first_user_message) == chosen_preview(Some(preview), None),
        chosen_preview(None, Some(preview)) == chosen_preview(Some(preview), None),
{
}

/// A conversation is ordered by its recency when that is positive, else by
/// its update time when that is positive; with neither it has no usable
/// timestamp.
pub proof fn law_recency_before_update_time(recency_at_ms: i64, updated_at_ms: i64)
    ensures
        recency_at_ms > 0 ==> effective_timestamp(recency_at_ms, updated_at_ms) == Some(
            recency_at_ms,
        ),
        recency_at_ms <= 0 && updated_at_ms > 0 ==> effective_timestamp(recency_at_ms, updated_at_ms)
            == Some(updated_at_ms),
        recency_at_ms <= 0 && updated_at_ms <= 0 ==> effective_timestamp(
            recency_at_ms,
            updated_at_ms,
        ) is None,
{
}

/// De-duplication keeps, of each id, the conversation that came first: every
/// kept conversation is one of the input whose id no earlier conversation
/// carried, and the kept ones stay in input order.
pub proof fn law_deduplication_keeps_the_first_of_each_id(s: Seq<Conversation>)
    ensures
        forall|k: int|
            0 <= k < first_of_each_id(s).len() ==> exists|i: int|
                0 <= i < s.len() && s[i] == #[trigger] first_of_each_id(s)[k] && forall|j: int|
                    0 <= j < i ==> (#[trigger] s[j]).id@ != s[i].id@,
        forall|k: int, l: int|
            0 <= k < l < first_of_each_id(s).len() ==> exists|i: int, j: int|
                0 <= i < j < s.len() && s[i] == #[trigger] first_of_each_id(s)[k] && s[j]
                    == #[trigger] first_of_each_id(s)[l],
    decreases s.len(),
{
    if s.len() > 0 {
        let p = s.drop_last();
        law_deduplication_keeps_the_first_of_each_id(p);
        let rest = first_of_each_id(p);
        let r = first_of_each_id(s);
        let last = s.len() - 1;
        assert forall|k: int| 0 <= k < r.len() implies exists|i: int|
            0 <= i < s.len() && s[i] == #[trigger] r[k] && forall|j: int|
                0 <= j < i ==> (#[trigger] s[j]).id@ != s[i].id@ by {
            if k < rest.len() {
                assert(r[k] == rest[k]);
                let i = choose|i: int|
                    0 <= i < p.len() && p[i] == #[trigger] rest[k] && forall|j: int|
                        0 <= j < i ==> (#[trigger] p[j]).id@ != p[i].id@;
                assert(s[i] == p[i]);
                assert forall|j: int| 0 <= j < i implies (#[trigger] s[j]).id@ != s[i].id@ by {
                    assert(s[j] == p[j]);
                }
            } else {
                assert(r[k] == s[last]);
                assert(!id_seen_before(s, last));
            }
        }
        assert forall|k: int, l: int| 0 <= k < l < r.len() implies exists|i: int, j: int|
            0 <= i < j < s.len() && s[i] == #[trigger] r[k] && s[j] == #[trigger] r[l] by {
            if l < rest.len() {
                assert(r[k] == rest[k] && r[l] == rest[l]);
                let (i, j) = choose|i: int, j: int|
                    0 <= i < j < p.len() && p[i] == #[trigger] rest[k] && p[j] == #[trigger] rest[l];
                assert(s[i] == p[i] && s[j] == p[j]);
            } else {
                assert(r[k] == rest[k] && r[l] == s[last]);
                let i = choose|i: int|
                    0 <= i < p.len() && p[i] == #[trigger] rest[k] && forall|j: int|
                        0 <= j < i ==> (#[trigger] p[j]).id@ != p[i].id@;
                assert(s[i] == p[i]);
            }
        }
    }
}

// ---------------------------------------------------------------------------
// Ages
// ---------------------------------------------------------------------------

/// A conversation updated at most 72 hours ago is recent, one updated more
/// than 7 days ago is stale, and one in between is from this week.
pub proof fn law_bucket_thresholds(d: Elapsed)
    ensures
        d.millis < 259_200_000 || (d.millis == 259_200_000 && d.nanos == 0) ==> bucket_of(d)
            == RecencyBucket::Recent,
        d.millis > 604_800_000 || (d.millis == 604_800_000 && d.nanos > 0) ==> bucket_of(d)
            == RecencyBucket::Stale,
        (d.millis > 259_200_000 || (d.millis == 259_200_000 && d.nanos > 0)) && (d.millis
            < 604_800_000 || (d.millis == 604_800_000 && d.nanos == 0)) ==> bucket_of(d)
            == RecencyBucket::ThisWeek,
{
}

/// An age under a minute reads "just now"; otherwise it counts whole
/// minutes under an hour, whole hours under a day, and whole days beyond.
pub proof fn law_relative_age_units(d: Elapsed)
    ensures
        d.millis < 60_000 ==> relative_text(d) == "just now"@,
        60_000 <= d.millis < 3_600_000 ==> relative_text(d) == decimal_text((d.millis / 60_000) as nat)
            + "m ago"@,
        3_600_000 <= d.millis < 86_400_000 ==> relative_text(d) == decimal_text(
            (d.millis / 3_600_000) as nat,
        ) + "h ago"@,
        86_400_000 <= d.millis ==> relative_text(d) == decimal_text((d.millis / 86_400_000) as nat)
            + "d ago"@,
{
}

// ---------------------------------------------------------------------------
// Cutting texts
// ---------------------------------------------------------------------------

/// Cutting to a number of characters keeps a text that fits as it is; a
/// longer one becomes exactly its first `limit` characters and an ellipsis.
pub proof fn law_cut_texts_keep_their_start(s: Seq<char>, limit: nat)
    ensures
        s.len() <= limit ==> truncated_chars(s, limit) == s,
        s.len() > limit ==> truncated_chars(s, limit).len() == limit + 1
            && truncated_chars(s, limit).last() == '\u{2026}' && forall|k: int|
            0 <= k < limit ==> #[trigger] truncated_chars(s, limit)[k] == s[k],
{
}

/// Fitting to a width never exceeds the width; a text that fits is kept as
/// it is, and a longer one keeps its first `width - 1` characters followed
/// by an ellipsis.
pub proof fn law_fitted_texts_stay_within_the_width(s: Seq<char>, width: nat)
    ensures
        truncated_to_width(s, width).len() <= width,
        s.len() <= width ==> truncated_to_width(s, width) == s,
        s.len() > width && width > 0 ==> truncated_to_width(s, width).len() == width
            && truncated_to_width(s, width).last() == '\u{2026}' && forall|k: int|
            0 <= k < width - 1 ==> #[trigger] truncated_to_width(s, width)[k] == s[k],
{
}

} // verus!
