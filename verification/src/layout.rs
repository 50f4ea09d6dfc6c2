//! What the picker's screen shows, as text: the search field, the option
//! controls in the variant that fits the width, the table columns, the
//! cells of each row, and the status line.
use vstd::prelude::*;
use vstd::string::StringExecFns;
use vstd::utf8::encode_utf8;

use crate::app::{selection_of, App};
use crate::conversation::{opt_text, Conversation};
use crate::modes::{
    columns_label_text, filter_label_text, rows_label_text, sort_label_text,
    subagent_label_text, ColumnPreset, FilterMode, RowMode, SortMode, SubagentMode,
};
use crate::time::{
    elapsed_since, format_relative_time_at, recency_bucket_at, relative_text, bucket_of,
    utc_millis_representable, Instant, RecencyBucket,
};
use crate::text::{
    chars_of, decimal_text, ellipsis, push_decimal, string_from_chars, truncate_chars,
    truncate_to_width, truncated_chars, truncated_to_width,
};

verus! {

/// The width the search field keeps before the controls are placed.
pub const MIN_SEARCH_WIDTH: u16 = 18;

/// Columns kept free between the search field and the controls.
pub const CONTROLS_SAFE_MARGIN: u16 = 2;

/// Cells between two table columns.
pub const TABLE_COLUMN_SPACING: u16 = 1;

/// Cells the table's highlight mark takes before the first column.
pub const TABLE_HIGHLIGHT_WIDTH: u16 = 2;

/// Cells the scrollbar takes at the table's right edge.
pub const TABLE_SCROLLBAR_WIDTH: u16 = 1;

/// How much of the option controls is spelled out.
#[derive(Debug, Clone, Copy, PartialEq, Eq, Structural)]
pub enum ControlsVariant {
    Full,
    Compact,
    Tight,
    Minimal,
}

/// The part a control segment plays, which decides its style.
#[derive(Debug, Clone, Copy, PartialEq, Eq, Structural)]
pub enum SegmentRole {
    /// A muted caption.
    Caption,
    /// Unstyled spacing.
    Spacing,
    /// The directory filter's value.
    Filter,
    /// The thread visibility's value.
    Subagents,
    /// The sort order's value.
    Sort,
}

/// One piece of the controls line.
#[derive(Debug, Clone, Copy, PartialEq, Eq)]
pub struct ControlSegment {
    pub text: &'static str,
    pub role: SegmentRole,
}

/// How wide a table column is laid out.
#[derive(Debug, Clone, Copy, PartialEq, Eq, Structural)]
pub enum ColumnWidth {
    /// Exactly this many cells.
    Length(u16),
    /// At least this many cells, growing to fill the rest.
    Min(u16),
}

/// One table column: its header and width.
#[derive(Debug, Clone, Copy, PartialEq, Eq)]
pub struct TableColumn {
    pub header: &'static str,
    pub width: ColumnWidth,
}

/// The text cells of one table row.
#[derive(Debug, Clone, PartialEq, Eq)]
pub struct RowText {
    /// The directory column, cut to 26 characters.
    pub directory: String,
    /// The conversation title, cut to 24 characters.
    pub title: String,
    /// The directory under the title in comfortable rows, cut to 24 characters.
    pub title_directory: String,
    /// The excerpt lines: one in compact rows, two in comfortable rows.
    pub excerpt: Vec<String>,
}

/// What a table cell shows, which decides its style.
#[derive(Debug, Clone, Copy, PartialEq, Eq, Structural)]
pub enum CellKind {
    /// How long ago the conversation was updated.
    Age,
    /// The local date and time of the update.
    Updated,
    /// The working directory.
    Directory,
    /// The title (with the directory under it in comfortable rows).
    Title,
    /// The excerpt.
    Excerpt,
}

/// One cell of a table row: what it shows and its lines.
#[derive(Debug, Clone, PartialEq, Eq)]
pub struct RowCell {
    pub kind: CellKind,
    pub lines: Vec<String>,
}

/// A table row: its cells in display order, the recency bucket that colours
/// the time cells, and how many lines it takes.
#[derive(Debug, Clone, PartialEq, Eq)]
pub struct RowCells {
    pub cells: Vec<RowCell>,
    pub recency: RecencyBucket,
    pub height: u16,
}

/// The texts of the status line.
#[derive(Debug, Clone, PartialEq, Eq)]
pub struct StatusText {
    /// The selected conversation's displayed directory, or empty.
    pub selected_cwd: String,
    /// "position/total".
    pub counter: String,
    /// "Cols: <column set>".
    pub columns: String,
    /// "View: <row density>".
    pub view: String,
    /// "Threads: All" or "Threads: Primary".
    pub threads: String,
}

pub open spec fn tight_filter_text(m: FilterMode) -> Seq<char> {
    match m {
        FilterMode::CurrentDirectory => "[C]"@,
        FilterMode::All => "[A]"@,
    }
}

pub open spec fn tight_subagent_text(m: SubagentMode) -> Seq<char> {
    match m {
        SubagentMode::Hide => "[P]"@,
        SubagentMode::Show => "[A]"@,
    }
}

pub open spec fn tight_sort_text(m: SortMode) -> Seq<char> {
    match m {
        SortMode::Updated => "[U]"@,
        SortMode::Created => "[C]"@,
    }
}

/// The pieces of the controls line of a variant, in order.
pub open spec fn variant_parts(
    v: ControlsVariant,
    f: FilterMode,
    s: SubagentMode,
    o: SortMode,
) -> Seq<Seq<char>> {
    match v {
        ControlsVariant::Full => seq![
            "Filter: "@,
            filter_label_text(f),
            "   "@,
            "Threads: "@,
            subagent_label_text(s),
            "   "@,
            "Sort: "@,
            sort_label_text(o),
        ],
        ControlsVariant::Compact => seq![
            "F: "@,
            filter_label_text(f),
            "   "@,
            "T: "@,
            subagent_label_text(s),
            "   "@,
            "S: "@,
            sort_label_text(o),
        ],
        ControlsVariant::Tight => seq![
            "F:"@,
            tight_filter_text(f),
            " "@,
            "T:"@,
            tight_subagent_text(s),
            " "@,
            "S:"@,
            tight_sort_text(o),
        ],
        ControlsVariant::Minimal => seq![
            "F"@,
            tight_filter_text(f),
            " "@,
            "T"@,
            tight_subagent_text(s),
            " "@,
            "S"@,
            tight_sort_text(o),
        ],
    }
}

/// The roles of the eight pieces of every controls line.
pub open spec fn segment_roles() -> Seq<SegmentRole> {
    seq![
        SegmentRole::Caption,
        SegmentRole::Filter,
        SegmentRole::Spacing,
        SegmentRole::Caption,
        SegmentRole::Subagents,
        SegmentRole::Spacing,
        SegmentRole::Caption,
        SegmentRole::Sort,
    ]
}

/// The total length of the pieces in UTF-8 bytes.
pub open spec fn parts_width(parts: Seq<Seq<char>>) -> nat
    decreases parts.len(),
{
    if parts.len() == 0 {
        0
    } else {
        parts_width(parts.drop_last()) + encode_utf8(parts.last()).len()
    }
}

/// A width capped at the largest `u16`.
pub open spec fn capped(n: nat) -> u16 {
    if n > u16::MAX {
        u16::MAX
    } else {
        n as u16
    }
}

/// The width of a controls variant for the picker's settings.
pub open spec fn variant_width(v: ControlsVariant, app: App) -> u16 {
    capped(parts_width(variant_parts(v, app.filter_mode, app.subagent_mode, app.sort_mode)))
}

/// The room left for the controls in a row `area_width` wide.
pub open spec fn controls_room(app: App, area_width: u16) -> int {
    let search_width: int = if app.query@.len() == 0 {
        MIN_SEARCH_WIDTH as int
    } else if area_width < MIN_SEARCH_WIDTH {
        area_width as int
    } else {
        MIN_SEARCH_WIDTH as int
    };
    let after_search: int = if area_width >= search_width {
        area_width - search_width
    } else {
        0
    };
    if after_search >= CONTROLS_SAFE_MARGIN {
        after_search - CONTROLS_SAFE_MARGIN
    } else {
        0
    }
}

/// The most spelled-out variant that fits the room, else the minimal one.
pub open spec fn chosen_variant(app: App, area_width: u16) -> ControlsVariant {
    let room = controls_room(app, area_width);
    if room >= variant_width(ControlsVariant::Full, app) {
        ControlsVariant::Full
    } else if room >= variant_width(ControlsVariant::Compact, app) {
        ControlsVariant::Compact
    } else if room >= variant_width(ControlsVariant::Tight, app) {
        ControlsVariant::Tight
    } else {
        ControlsVariant::Minimal
    }
}

/// The widths of the table columns of a column set, in order.
pub open spec fn column_widths(preset: ColumnPreset) -> Seq<ColumnWidth> {
    match preset {
        ColumnPreset::Core => seq![ColumnWidth::Length(28), ColumnWidth::Length(26), ColumnWidth::Min(36)],
        ColumnPreset::Full => seq![
            ColumnWidth::Length(9),
            ColumnWidth::Length(16),
            ColumnWidth::Length(24),
            ColumnWidth::Length(22),
            ColumnWidth::Min(28),
        ],
    }
}

/// `a - b`, or 0 when `b` is larger.
pub open spec fn minus_or_zero(a: int, b: int) -> int {
    if a >= b {
        a - b
    } else {
        0
    }
}

/// The cells a table `area_width` wide leaves to its columns: the highlight
/// mark, the scrollbar and the spacing between columns are taken out, none
/// below zero.
pub open spec fn available_excerpt_width(area_width: u16, preset: ColumnPreset) -> u16 {
    let spacing = TABLE_COLUMN_SPACING * (column_widths(preset).len() - 1);
    minus_or_zero(
        minus_or_zero(
            minus_or_zero(area_width as int, TABLE_HIGHLIGHT_WIDTH as int),
            TABLE_SCROLLBAR_WIDTH as int,
        ),
        spacing,
    ) as u16
}

/// The widths ratatui's layout solver (`Layout::horizontal(..).split(..)`)
/// gives the columns `widths` on a row `available` cells wide, in order.
pub uninterp spec fn laid_out_widths(widths: Seq<ColumnWidth>, available: u16) -> Seq<u16>;

/// The relative age shown for a conversation updated at `ms`, seen at
/// `now`: "unknown" for moments chrono cannot represent.
pub open spec fn age_text(now: Instant, ms: i64) -> Seq<char> {
    if utc_millis_representable(ms) {
        relative_text(elapsed_since(now, ms))
    } else {
        "unknown"@
    }
}

/// The recency bucket of a conversation updated at `ms`, seen at `now`:
/// stale for moments chrono cannot represent.
pub open spec fn recency_at(now: Instant, ms: i64) -> RecencyBucket {
    if utc_millis_representable(ms) {
        bucket_of(elapsed_since(now, ms))
    } else {
        RecencyBucket::Stale
    }
}

/// The cells of a conversation's table row, in display order, each with
/// its lines: directory, title and excerpt, preceded in the full column set
/// by the age and the update time ("unknown" when none could be given);
/// comfortable rows put the directory under the title.
pub open spec fn row_cell_texts(
    c: Conversation,
    preset: ColumnPreset,
    mode: RowMode,
    excerpt_width: nat,
    now: Instant,
    updated: Option<Seq<char>>,
) -> Seq<(CellKind, Seq<Seq<char>>)> {
    let directory = truncated_chars(c.rendered_cwd@, 26);
    let title = truncated_chars(c.display_title@, 24);
    let title_lines = match mode {
        RowMode::Compact => seq![title],
        RowMode::Comfortable => seq![title, truncated_chars(directory, 24)],
    };
    let core = seq![
        (CellKind::Directory, seq![directory]),
        (CellKind::Title, title_lines),
        (CellKind::Excerpt, excerpt_texts(excerpt_source(c), excerpt_width, mode)),
    ];
    match preset {
        ColumnPreset::Core => core,
        ColumnPreset::Full => seq![
            (CellKind::Age, seq![age_text(now, c.updated_at_ms)]),
            (CellKind::Updated, seq![match updated {
                Some(u) => u,
                None => "unknown"@,
            }]),
        ] + core,
    }
}

/// The lines are the texts.
pub open spec fn lines_are(lines: Seq<String>, texts: Seq<Seq<char>>) -> bool {
    &&& lines.len() == texts.len()
    &&& forall|j: int| 0 <= j < lines.len() ==> (#[trigger] lines[j])@ == texts[j]
}

/// The excerpt lines of a row: the excerpt fitted to the width in compact
/// rows; in comfortable rows its first `width` characters and the next
/// `width`, the second line ending in an ellipsis when the excerpt is longer
/// than both.
pub open spec fn excerpt_texts(value: Seq<char>, width: nat, mode: RowMode) -> Seq<Seq<char>> {
    match mode {
        RowMode::Compact => seq![truncated_to_width(value, width)],
        RowMode::Comfortable => if width == 0 {
            seq![Seq::empty(), Seq::empty()]
        } else {
            let rest = value.skip(if value.len() < width {
                value.len() as int
            } else {
                width as int
            });
            seq![
                value.take(if value.len() < width {
                    value.len() as int
                } else {
                    width as int
                }),
                if value.len() > 2 * width {
                    truncated_to_width(rest, width)
                } else {
                    rest.take(if rest.len() < width {
                        rest.len() as int
                    } else {
                        width as int
                    })
                },
            ]
        },
    }
}

/// The excerpt shown for a conversation: its preview, or "[no preview]".
pub open spec fn excerpt_source(c: Conversation) -> Seq<char> {
    if c.preview@.len() == 0 {
        "[no preview]"@
    } else {
        c.preview@
    }
}

// ---------------------------------------------------------------------------
// Executable functions
// ---------------------------------------------------------------------------

/// The short label of the directory filter.
pub fn tight_filter_label(mode: FilterMode) -> (r: &'static str)
    ensures
        r@ == tight_filter_text(mode),
{
    match mode {
        FilterMode::CurrentDirectory => "[C]",
        FilterMode::All => "[A]",
    }
}

/// The short label of the thread visibility.
pub fn tight_subagent_label(mode: SubagentMode) -> (r: &'static str)
    ensures
        r@ == tight_subagent_text(mode),
{
    match mode {
        SubagentMode::Hide => "[P]",
        SubagentMode::Show => "[A]",
    }
}

/// The short label of the sort order.
pub fn tight_sort_label(mode: SortMode) -> (r: &'static str)
    ensures
        r@ == tight_sort_text(mode),
{
    match mode {
        SortMode::Updated => "[U]",
        SortMode::Created => "[C]",
    }
}

/// The directory filter's label in the compact controls.
pub fn compact_filter_label(mode: FilterMode) -> (r: &'static str)
    ensures
        r@ == filter_label_text(mode),
{
    mode.label()
}

/// The thread visibility's label in the compact controls.
pub fn compact_subagent_label(mode: SubagentMode) -> (r: &'static str)
    ensures
        r@ == subagent_label_text(mode),
{
    mode.label()
}

/// The sort order's label in the compact controls.
pub fn compact_sort_label(mode: SortMode) -> (r: &'static str)
    ensures
        r@ == sort_label_text(mode),
{
    mode.label()
}

/// The total length of the pieces in UTF-8 bytes, capped at the largest
/// `u16`.
pub fn controls_width(parts: &[&str]) -> (r: u16)
    ensures
        r == capped(parts_width(parts@.map_values(|p: &str| p@))),
{
    let ghost views = parts@.map_values(|p: &str| p@);
    let mut total: usize = 0;
    let mut index: usize = 0;
    while index < parts.len()
        invariant
            index <= parts.len(),
            views == parts@.map_values(|p: &str| p@),
            total == if parts_width(views.take(index as int)) > usize::MAX {
                usize::MAX as nat
            } else {
                parts_width(views.take(index as int))
            },
        decreases parts.len() - index,
    {
        let n = parts[index].as_bytes().len();
        proof {
            assert(n == encode_utf8(views[index as int]).len());
            assert(views.take(index + 1).drop_last() =~= views.take(index as int));
            assert(views.take(index + 1).last() == parts@[index as int]@);
        }
        total = if total > usize::MAX - n {
            usize::MAX
        } else {
            total + n
        };
        index = index + 1;
    }
    proof {
        assert(views.take(parts.len() as int) =~= views);
    }
    if total > 65535 {
        u16::MAX
    } else {
        total as u16
    }
}

impl ControlsVariant {
    /// The pieces of this variant's controls line, each with its role.
    pub fn segments(self, app: &App) -> (r: Vec<ControlSegment>)
        ensures
            r.len() == 8,
            forall|k: int|
                0 <= k < 8 ==> (#[trigger] r@[k]).text@ == variant_parts(
                    self,
                    app.filter_mode,
                    app.subagent_mode,
                    app.sort_mode,
                )[k] && r@[k].role == segment_roles()[k],
    {
        let (c1, v1, s1, c2, v2, s2, c3, v3) = match self {
            ControlsVariant::Full => (
                "Filter: ",
                app.filter_mode.label(),
                "   ",
                "Threads: ",
                app.subagent_mode.label(),
                "   ",
                "Sort: ",
                app.sort_mode.label(),
            ),
            ControlsVariant::Compact => (
                "F: ",
                compact_filter_label(app.filter_mode),
                "   ",
                "T: ",
                compact_subagent_label(app.subagent_mode),
                "   ",
                "S: ",
                compact_sort_label(app.sort_mode),
            ),
            ControlsVariant::Tight => (
                "F:",
                tight_filter_label(app.filter_mode),
                " ",
                "T:",
                tight_subagent_label(app.subagent_mode),
                " ",
                "S:",
                tight_sort_label(app.sort_mode),
            ),
            ControlsVariant::Minimal => (
                "F",
                tight_filter_label(app.filter_mode),
                " ",
                "T",
                tight_subagent_label(app.subagent_mode),
                " ",
                "S",
                tight_sort_label(app.sort_mode),
            ),
        };
        let mut r: Vec<ControlSegment> = Vec::new();
        r.push(ControlSegment { text: c1, role: SegmentRole::Caption });
        r.push(ControlSegment { text: v1, role: SegmentRole::Filter });
        r.push(ControlSegment { text: s1, role: SegmentRole::Spacing });
        r.push(ControlSegment { text: c2, role: SegmentRole::Caption });
        r.push(ControlSegment { text: v2, role: SegmentRole::Subagents });
        r.push(ControlSegment { text: s2, role: SegmentRole::Spacing });
        r.push(ControlSegment { text: c3, role: SegmentRole::Caption });
        r.push(ControlSegment { text: v3, role: SegmentRole::Sort });
        r
    }

    /// The width of this variant's controls line.
    pub fn width(self, app: &App) -> (r: u16)
        ensures
            r == variant_width(self, *app),
    {
        let segments = self.segments(app);
        let parts: [&str; 8] = [
            segments[0].text,
            segments[1].text,
            segments[2].text,
            segments[3].text,
            segments[4].text,
            segments[5].text,
            segments[6].text,
            segments[7].text,
        ];
        let r = controls_width(&parts);
        proof {
            let views = parts@.map_values(|p: &str| p@);
            assert(views =~= variant_parts(self, app.filter_mode, app.subagent_mode, app.sort_mode));
        }
        r
    }
}

/// The most spelled-out controls variant that fits a row `area_width` wide
/// next to the search field.
pub fn controls_variant_for_width(app: &App, area_width: u16) -> (r: ControlsVariant)
    ensures
        r == chosen_variant(*app, area_width),
{
    let search_width = if app.query.as_str().is_empty() {
        MIN_SEARCH_WIDTH
    } else if area_width < MIN_SEARCH_WIDTH {
        area_width
    } else {
        MIN_SEARCH_WIDTH
    };
    let after_search = if area_width >= search_width {
        area_width - search_width
    } else {
        0
    };
    let room = if after_search >= CONTROLS_SAFE_MARGIN {
        after_search - CONTROLS_SAFE_MARGIN
    } else {
        0
    };
    if room >= ControlsVariant::Full.width(app) {
        ControlsVariant::Full
    } else if room >= ControlsVariant::Compact.width(app) {
        ControlsVariant::Compact
    } else if room >= ControlsVariant::Tight.width(app) {
        ControlsVariant::Tight
    } else {
        ControlsVariant::Minimal
    }
}

/// What the search field shows: the query, or a prompt when it is empty.
pub fn search_field_text(app: &App) -> (r: String)
    ensures
        r@ == if app.query@.len() == 0 {
            "Type to search"@
        } else {
            app.query@
        },
{
    if app.query.as_str().is_empty() {
        String::from_str("Type to search")
    } else {
        app.query.clone()
    }
}

/// The table columns of a column set.
pub fn table_columns(column_preset: ColumnPreset) -> (r: Vec<TableColumn>)
    ensures
        r@.map_values(|c: TableColumn| c.width) == column_widths(column_preset),
        r.len() == match column_preset {
            ColumnPreset::Core => 3int,
            ColumnPreset::Full => 5int,
        },
        match column_preset {
            ColumnPreset::Core => {
                &&& r@[0].header@ == "Directory"@ && r@[0].width == ColumnWidth::Length(28)
                &&& r@[1].header@ == "Conversation"@ && r@[1].width == ColumnWidth::Length(26)
                &&& r@[2].header@ == "Excerpt"@ && r@[2].width == ColumnWidth::Min(36)
            },
            ColumnPreset::Full => {
                &&& r@[0].header@ == "Age"@ && r@[0].width == ColumnWidth::Length(9)
                &&& r@[1].header@ == "Updated"@ && r@[1].width == ColumnWidth::Length(16)
                &&& r@[2].header@ == "Directory"@ && r@[2].width == ColumnWidth::Length(24)
                &&& r@[3].header@ == "Conversation"@ && r@[3].width == ColumnWidth::Length(22)
                &&& r@[4].header@ == "Excerpt"@ && r@[4].width == ColumnWidth::Min(28)
            },
        },
{
    let mut r: Vec<TableColumn> = Vec::new();
    match column_preset {
        ColumnPreset::Core => {
            r.push(TableColumn { header: "Directory", width: ColumnWidth::Length(28) });
            r.push(TableColumn { header: "Conversation", width: ColumnWidth::Length(26) });
            r.push(TableColumn { header: "Excerpt", width: ColumnWidth::Min(36) });
        },
        ColumnPreset::Full => {
            r.push(TableColumn { header: "Age", width: ColumnWidth::Length(9) });
            r.push(TableColumn { header: "Updated", width: ColumnWidth::Length(16) });
            r.push(TableColumn { header: "Directory", width: ColumnWidth::Length(24) });
            r.push(TableColumn { header: "Conversation", width: ColumnWidth::Length(22) });
            r.push(TableColumn { header: "Excerpt", width: ColumnWidth::Min(28) });
        },
    }
    r
}

/// `Layout::horizontal(..).split(..)` of ratatui: the columns `widths`, each
/// turned into the matching `Constraint`, laid out on a row `available`
/// cells wide at the origin; the width of each column, in order. The solver
/// makes one area per constraint; it is not written out here, and the
/// widths are named by `laid_out_widths`.
#[verifier::external_body]
fn layout_widths(widths: &[ColumnWidth], available: u16) -> (r: Vec<u16>)
    ensures
        r@ == laid_out_widths(widths@, available),
        r@.len() == widths@.len(),
{
    let constraints: Vec<ratatui::layout::Constraint> = widths
        .iter()
        .map(|width| match width {
            ColumnWidth::Length(n) => ratatui::layout::Constraint::Length(*n),
            ColumnWidth::Min(n) => ratatui::layout::Constraint::Min(*n),
        })
        .collect();
    let columns = ratatui::layout::Layout::horizontal(constraints)
        .split(ratatui::layout::Rect::new(0, 0, available, 1));
    columns.iter().map(|column| column.width).collect()
}

/// The width the excerpt column gets in a table `area_width` cells wide:
/// the last column's width once the highlight mark, the scrollbar and the
/// spacing between columns are taken out.
pub fn excerpt_column_width(area_width: u16, column_preset: ColumnPreset) -> (r: usize)
    ensures
        r == laid_out_widths(
            column_widths(column_preset),
            available_excerpt_width(area_width, column_preset),
        ).last(),
{
    let columns = table_columns(column_preset);
    let ghost all = columns@.map_values(|c: TableColumn| c.width);
    let mut widths: Vec<ColumnWidth> = Vec::new();
    let mut i: usize = 0;
    while i < columns.len()
        invariant
            i <= columns.len(),
            all == columns@.map_values(|c: TableColumn| c.width),
            widths@ == all.take(i as int),
        decreases columns.len() - i,
    {
        widths.push(columns[i].width);
        assert(widths@ =~= all.take(i + 1));
        i = i + 1;
    }
    assert(widths@ =~= all);
    let gaps: u16 = if columns.len() == 3 {
        2
    } else {
        4
    };
    let spacing: u16 = TABLE_COLUMN_SPACING * gaps;
    let after_highlight: u16 = if area_width >= TABLE_HIGHLIGHT_WIDTH {
        area_width - TABLE_HIGHLIGHT_WIDTH
    } else {
        0
    };
    let after_scrollbar: u16 = if after_highlight >= TABLE_SCROLLBAR_WIDTH {
        after_highlight - TABLE_SCROLLBAR_WIDTH
    } else {
        0
    };
    let available: u16 = if after_scrollbar >= spacing {
        after_scrollbar - spacing
    } else {
        0
    };
    let laid_out = layout_widths(widths.as_slice(), available);
    laid_out[laid_out.len() - 1] as usize
}

/// The first `count` characters of `chars` as a text.
fn prefix_text(chars: &Vec<char>, count: usize) -> (r: String)
    requires
        count <= chars.len(),
    ensures
        r@ == chars@.take(count as int),
{
    let mut out: Vec<char> = Vec::new();
    let mut i: usize = 0;
    while i < count
        invariant
            i <= count <= chars.len(),
            out@ == chars@.take(i as int),
        decreases count - i,
    {
        out.push(chars[i]);
        assert(out@ =~= chars@.take(i + 1));
        i = i + 1;
    }
    string_from_chars(out.as_slice())
}

/// The characters of `chars` from position `start` on, as a text.
fn suffix_text(chars: &Vec<char>, start: usize) -> (r: String)
    requires
        start <= chars.len(),
    ensures
        r@ == chars@.skip(start as int),
{
    let mut out: Vec<char> = Vec::new();
    let mut i: usize = start;
    while i < chars.len()
        invariant
            start <= i <= chars.len(),
            out@ == chars@.subrange(start as int, i as int),
        decreases chars.len() - i,
    {
        out.push(chars[i]);
        assert(out@ =~= chars@.subrange(start as int, i + 1));
        i = i + 1;
    }
    assert(chars@.subrange(start as int, chars.len() as int) =~= chars@.skip(start as int));
    string_from_chars(out.as_slice())
}

/// The excerpt lines of a row for the excerpt column's width.
pub fn excerpt_lines(value: &str, width: usize, row_mode: RowMode) -> (r: Vec<String>)
    ensures
        r@.len() == excerpt_texts(value@, width as nat, row_mode).len(),
        forall|k: int|
            0 <= k < r@.len() ==> (#[trigger] r@[k])@ == excerpt_texts(value@, width as nat, row_mode)[k],
        forall|k: int| 0 <= k < r@.len() ==> (#[trigger] r@[k])@.len() <= width,
{
    match row_mode {
        RowMode::Compact => {
            let mut r: Vec<String> = Vec::new();
            r.push(truncate_to_width(value, width));
            r
        },
        RowMode::Comfortable => {
            let mut r: Vec<String> = Vec::new();
            if width == 0 {
                r.push(String::new());
                r.push(String::new());
                return r;
            }
            let chars = chars_of(value);
            let first_count = if chars.len() < width {
                chars.len()
            } else {
                width
            };
            let first_line = prefix_text(&chars, first_count);
            let remaining = suffix_text(&chars, first_count);
            let rest_chars = chars_of(remaining.as_str());
            let second_count = if rest_chars.len() < width {
                rest_chars.len()
            } else {
                width
            };
            let long = width <= usize::MAX / 2 && chars.len() > width * 2;
            let second_line = if long {
                truncate_to_width(remaining.as_str(), width)
            } else {
                prefix_text(&rest_chars, second_count)
            };
            proof {
                assert(long == (value@.len() > 2 * width));
            }
            r.push(first_line);
            r.push(second_line);
            r
        },
    }
}

/// The text cells of a conversation's table row for the row density and
/// the excerpt column's width.
pub fn table_row_text(conversation: &Conversation, row_mode: RowMode, excerpt_width: usize) -> (r: RowText)
    ensures
        r.directory@ == truncated_chars(conversation.rendered_cwd@, 26),
        r.title@ == truncated_chars(conversation.display_title@, 24),
        r.title_directory@ == truncated_chars(truncated_chars(conversation.rendered_cwd@, 26), 24),
        r.excerpt@.len() == excerpt_texts(excerpt_source(*conversation), excerpt_width as nat, row_mode).len(),
        forall|k: int|
            0 <= k < r.excerpt@.len() ==> (#[trigger] r.excerpt@[k])@ == excerpt_texts(
                excerpt_source(*conversation),
                excerpt_width as nat,
                row_mode,
            )[k],
{
    let directory = truncate_chars(conversation.rendered_cwd.as_str(), 26);
    let title = truncate_chars(conversation.display_title.as_str(), 24);
    let title_directory = truncate_chars(directory.as_str(), 24);
    let excerpt_value = if conversation.preview.as_str().is_empty() {
        String::from_str("[no preview]")
    } else {
        conversation.preview.clone()
    };
    let excerpt = excerpt_lines(excerpt_value.as_str(), excerpt_width, row_mode);
    RowText { directory, title, title_directory, excerpt }
}

/// The 1-based position of the selection, at most the number of entries.
pub open spec fn status_position(selected: usize, total: nat) -> nat {
    if selected + 1 > total {
        total
    } else {
        (selected + 1) as nat
    }
}

/// The texts of the status line.
pub fn status_text(app: &App) -> (r: StatusText)
    ensures
        r.selected_cwd@ == match selection_of(*app) {
            Some(c) => c.rendered_cwd@,
            None => Seq::empty(),
        },
        r.counter@ == decimal_text(status_position(app.selected, app.visible@.len())) + "/"@
            + decimal_text(app.visible@.len()),
        r.columns@ == "Cols: "@ + columns_label_text(app.column_preset),
        r.view@ == "View: "@ + rows_label_text(app.row_mode),
        r.threads@ == "Threads: "@ + (if app.subagent_mode == SubagentMode::Show {
            "All"@
        } else {
            "Primary"@
        }),
{
    let total = app.visible.len();
    let position = if app.selected >= total {
        total
    } else {
        app.selected + 1
    };
    let selected_cwd = match app.selected_conversation() {
        Some(conversation) => conversation.rendered_cwd.clone(),
        None => String::new(),
    };
    let mut counter = String::new();
    push_decimal(&mut counter, position as u128);
    counter.append("/");
    push_decimal(&mut counter, total as u128);
    let mut columns = String::from_str("Cols: ");
    columns.append(app.column_preset.label());
    let mut view = String::from_str("View: ");
    view.append(app.row_mode.label());
    let mut threads = String::from_str("Threads: ");
    if app.is_showing_subagents() {
        threads.append("All");
    } else {
        threads.append("Primary");
    }
    proof {
        assert(Seq::<char>::empty() + decimal_text(position as nat) =~= decimal_text(position as nat));
    }
    StatusText { selected_cwd, counter, columns, view, threads }
}

/// The cells of a conversation's table row for the column set, the row
/// density and the excerpt column's width, seen at `now`; `updated` is the
/// local date and time of the update, when one could be given.
pub fn row_cells(
    conversation: &Conversation,
    column_preset: ColumnPreset,
    row_mode: RowMode,
    excerpt_width: usize,
    now: Instant,
    updated: Option<&str>,
) -> (r: RowCells)
    ensures
        r.cells@.len() == row_cell_texts(
            *conversation,
            column_preset,
            row_mode,
            excerpt_width as nat,
            now,
            opt_text(updated),
        ).len(),
        forall|k: int|
            0 <= k < r.cells@.len() ==> {
                let expected = row_cell_texts(
                    *conversation,
                    column_preset,
                    row_mode,
                    excerpt_width as nat,
                    now,
                    opt_text(updated),
                )[k];
                &&& (#[trigger] r.cells@[k]).kind == expected.0
                &&& lines_are(r.cells@[k].lines@, expected.1)
            },
        r.recency == recency_at(now, conversation.updated_at_ms),
        r.height == match row_mode {
            RowMode::Compact => 1u16,
            RowMode::Comfortable => 2u16,
        },
{
    let text = table_row_text(conversation, row_mode, excerpt_width);
    let ghost expected = row_cell_texts(
        *conversation,
        column_preset,
        row_mode,
        excerpt_width as nat,
        now,
        opt_text(updated),
    );
    let mut title_lines: Vec<String> = Vec::new();
    title_lines.push(text.title);
    let height: u16 = match row_mode {
        RowMode::Compact => 1,
        RowMode::Comfortable => {
            title_lines.push(text.title_directory);
            2
        },
    };
    let mut directory_lines: Vec<String> = Vec::new();
    directory_lines.push(text.directory);
    let directory = RowCell { kind: CellKind::Directory, lines: directory_lines };
    let title = RowCell { kind: CellKind::Title, lines: title_lines };
    let excerpt = RowCell { kind: CellKind::Excerpt, lines: text.excerpt };
    let mut cells: Vec<RowCell> = Vec::new();
    match column_preset {
        ColumnPreset::Core => {},
        ColumnPreset::Full => {
            let mut age_lines: Vec<String> = Vec::new();
            age_lines.push(format_relative_time_at(now, conversation.updated_at_ms));
            let mut updated_lines: Vec<String> = Vec::new();
            match updated {
                Some(u) => updated_lines.push(String::from_str(u)),
                None => updated_lines.push(String::from_str("unknown")),
            }
            cells.push(RowCell { kind: CellKind::Age, lines: age_lines });
            cells.push(RowCell { kind: CellKind::Updated, lines: updated_lines });
        },
    }
    cells.push(directory);
    cells.push(title);
    cells.push(excerpt);
    let recency = recency_bucket_at(now, conversation.updated_at_ms);
    RowCells { cells, recency, height }
}

} // verus!
