//! The picker's option settings: directory filter, thread visibility, sort
//! order, keyboard focus, column set and row density, with their labels.
use vstd::prelude::*;

verus! {

/// Which directories the picker shows.
#[derive(Debug, Clone, Copy, PartialEq, Eq, Structural)]
pub enum FilterMode {
    /// Only conversations started in the current directory.
    CurrentDirectory,
    /// Conversations from every directory.
    All,
}

/// Whether spawned subagent conversations are listed.
#[derive(Debug, Clone, Copy, PartialEq, Eq, Structural)]
pub enum SubagentMode {
    Hide,
    Show,
}

/// Which timestamp orders the list (newest first).
#[derive(Debug, Clone, Copy, PartialEq, Eq, Structural)]
pub enum SortMode {
    Updated,
    Created,
}

/// The control that receives option changes.
#[derive(Debug, Clone, Copy, PartialEq, Eq, Structural)]
pub enum FocusTarget {
    Search,
    Filter,
    Subagents,
    Sort,
}

/// Which table columns are shown.
#[derive(Debug, Clone, Copy, PartialEq, Eq, Structural)]
pub enum ColumnPreset {
    /// Directory, conversation and excerpt.
    Core,
    /// Age and update time as well.
    Full,
}

/// How many lines each table row takes.
#[derive(Debug, Clone, Copy, PartialEq, Eq, Structural)]
pub enum RowMode {
    Compact,
    Comfortable,
}

pub open spec fn filter_after(m: FilterMode) -> FilterMode {
    match m {
        FilterMode::CurrentDirectory => FilterMode::All,
        FilterMode::All => FilterMode::CurrentDirectory,
    }
}

pub open spec fn subagent_after(m: SubagentMode) -> SubagentMode {
    match m {
        SubagentMode::Hide => SubagentMode::Show,
        SubagentMode::Show => SubagentMode::Hide,
    }
}

pub open spec fn sort_after(m: SortMode) -> SortMode {
    match m {
        SortMode::Updated => SortMode::Created,
        SortMode::Created => SortMode::Updated,
    }
}

pub open spec fn focus_after(f: FocusTarget) -> FocusTarget {
    match f {
        FocusTarget::Search => FocusTarget::Filter,
        FocusTarget::Filter => FocusTarget::Subagents,
        FocusTarget::Subagents => FocusTarget::Sort,
        FocusTarget::Sort => FocusTarget::Search,
    }
}

pub open spec fn focus_before(f: FocusTarget) -> FocusTarget {
    match f {
        FocusTarget::Search => FocusTarget::Sort,
        FocusTarget::Filter => FocusTarget::Search,
        FocusTarget::Subagents => FocusTarget::Filter,
        FocusTarget::Sort => FocusTarget::Subagents,
    }
}

pub open spec fn columns_after(p: ColumnPreset) -> ColumnPreset {
    match p {
        ColumnPreset::Core => ColumnPreset::Full,
        ColumnPreset::Full => ColumnPreset::Core,
    }
}

pub open spec fn rows_after(m: RowMode) -> RowMode {
    match m {
        RowMode::Compact => RowMode::Comfortable,
        RowMode::Comfortable => RowMode::Compact,
    }
}

pub open spec fn filter_label_text(m: FilterMode) -> Seq<char> {
    match m {
        FilterMode::CurrentDirectory => "[Cwd] All"@,
        FilterMode::All => "Cwd [All]"@,
    }
}

pub open spec fn subagent_label_text(m: SubagentMode) -> Seq<char> {
    match m {
        SubagentMode::Hide => "[Primary] All"@,
        SubagentMode::Show => "Primary [All]"@,
    }
}

pub open spec fn sort_label_text(m: SortMode) -> Seq<char> {
    match m {
        SortMode::Updated => "[Updated] Created"@,
        SortMode::Created => "Updated [Created]"@,
    }
}

pub open spec fn columns_label_text(m: ColumnPreset) -> Seq<char> {
    match m {
        ColumnPreset::Core => "Core"@,
        ColumnPreset::Full => "Full"@,
    }
}

pub open spec fn rows_label_text(m: RowMode) -> Seq<char> {
    match m {
        RowMode::Compact => "Compact"@,
        RowMode::Comfortable => "Comfortable"@,
    }
}

impl FilterMode {
    pub fn next(self) -> (r: Self)
        ensures
            r == filter_after(self),
    {
        match self {
            FilterMode::CurrentDirectory => FilterMode::All,
            FilterMode::All => FilterMode::CurrentDirectory,
        }
    }

    /// With two settings, stepping back is stepping forward.
    pub fn previous(self) -> (r: Self)
        ensures
            r == filter_after(self),
    {
        self.next()
    }

    pub fn label(self) -> (r: &'static str)
        ensures
            r@ == filter_label_text(self),
    {
        match self {
            FilterMode::CurrentDirectory => "[Cwd] All",
            FilterMode::All => "Cwd [All]",
        }
    }
}

impl SubagentMode {
    pub fn next(self) -> (r: Self)
        ensures
            r == subagent_after(self),
    {
        match self {
            SubagentMode::Hide => SubagentMode::Show,
            SubagentMode::Show => SubagentMode::Hide,
        }
    }

    /// With two settings, stepping back is stepping forward.
    pub fn previous(self) -> (r: Self)
        ensures
            r == subagent_after(self),
    {
        self.next()
    }

    pub fn label(self) -> (r: &'static str)
        ensures
            r@ == subagent_label_text(self),
    {
        match self {
            SubagentMode::Hide => "[Primary] All",
            SubagentMode::Show => "Primary [All]",
        }
    }
}

impl SortMode {
    pub fn next(self) -> (r: Self)
        ensures
            r == sort_after(self),
    {
        match self {
            SortMode::Updated => SortMode::Created,
            SortMode::Created => SortMode::Updated,
        }
    }

    /// With two settings, stepping back is stepping forward.
    pub fn previous(self) -> (r: Self)
        ensures
            r == sort_after(self),
    {
        self.next()
    }

    pub fn label(self) -> (r: &'static str)
        ensures
            r@ == sort_label_text(self),
    {
        match self {
            SortMode::Updated => "[Updated] Created",
            SortMode::Created => "Updated [Created]",
        }
    }
}

impl FocusTarget {
    pub fn next(self) -> (r: Self)
        ensures
            r == focus_after(self),
    {
        match self {
            FocusTarget::Search => FocusTarget::Filter,
            FocusTarget::Filter => FocusTarget::Subagents,
            FocusTarget::Subagents => FocusTarget::Sort,
            FocusTarget::Sort => FocusTarget::Search,
        }
    }

    pub fn previous(self) -> (r: Self)
        ensures
            r == focus_before(self),
    {
        match self {
            FocusTarget::Search => FocusTarget::Sort,
            FocusTarget::Filter => FocusTarget::Search,
            FocusTarget::Subagents => FocusTarget::Filter,
            FocusTarget::Sort => FocusTarget::Subagents,
        }
    }
}

impl ColumnPreset {
    pub fn toggle(self) -> (r: Self)
        ensures
            r == columns_after(self),
    {
        match self {
            ColumnPreset::Core => ColumnPreset::Full,
            ColumnPreset::Full => ColumnPreset::Core,
        }
    }

    pub fn label(self) -> (r: &'static str)
        ensures
            r@ == columns_label_text(self),
    {
        match self {
            ColumnPreset::Core => "Core",
            ColumnPreset::Full => "Full",
        }
    }
}

impl RowMode {
    pub fn toggle(self) -> (r: Self)
        ensures
            r == rows_after(self),
    {
        match self {
            RowMode::Compact => RowMode::Comfortable,
            RowMode::Comfortable => RowMode::Compact,
        }
    }

    pub fn label(self) -> (r: &'static str)
        ensures
            r@ == rows_label_text(self),
    {
        match self {
            RowMode::Compact => "Compact",
            RowMode::Comfortable => "Comfortable",
        }
    }
}

/// Stepping focus forward and then back (or back and then forward) returns
/// to the control that had it, and four steps in either direction go all
/// the way round.
pub proof fn law_focus_cycle(f: FocusTarget)
    ensures
        focus_before(focus_after(f)) == f,
        focus_after(focus_before(f)) == f,
        focus_after(focus_after(focus_after(focus_after(f)))) == f,
        focus_before(focus_before(focus_before(focus_before(f)))) == f,
{
}

/// Every two-valued setting returns to where it was after two changes.
pub proof fn law_two_valued_settings_round_trip(
    filter: FilterMode,
    subagents: SubagentMode,
    sort: SortMode,
    columns: ColumnPreset,
    rows: RowMode,
)
    ensures
        filter_after(filter_after(filter)) == filter,
        filter_after(filter) != filter,
        subagent_after(subagent_after(subagents)) == subagents,
        subagent_after(subagents) != subagents,
        sort_after(sort_after(sort)) == sort,
        sort_after(sort) != sort,
        columns_after(columns_after(columns)) == columns,
        columns_after(columns) != columns,
        rows_after(rows_after(rows)) == rows,
        rows_after(rows) != rows,
{
}

} // verus!
