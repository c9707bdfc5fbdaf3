mod contribution;
mod contribution_heatmap;
mod contribution_week;

pub use contribution::{
    Contribution, cell_channels, intensity_spec, lemma_intensity_monotone, level_step, rgb_spec,
};
pub use contribution_heatmap::{
    ContributionHeatmap, lemma_lenient_err_persists, lemma_lenient_shape, lenient_columns_spec,
    plain_cell, plain_line,
};
pub use contribution_week::{
    ContributionWeek, assemble_spec, day_index_spec, empty_week, lemma_assemble_err_persists,
    lemma_week_always_seven, node_step, y_step,
};

use std::io::Write;

use vstd::prelude::*;

use crate::args::ColorValues;
use crate::dom::{DayNode, parse_selector, select_in_document, select_in_element};
use crate::errors::{ErrorKind, HeatmapError, error_for, error_of_kind, valid_error};
use crate::text::contains_seq;

verus! {

/// The CSS selector that finds the week columns of the contribution graph.
pub const WEEK_SELECTOR: &'static str = "svg.js-calendar-graph-svg g g";

/// The CSS selector that finds the day nodes within one week column.
pub const DAY_SELECTOR: &'static str = "rect.ContributionCalendar-day";

/// A fully extracted contribution heatmap: the year's weeks in column
/// order, oldest first.
///
/// A heatmap is never empty — a document in which the week selector matches
/// nothing is a construction failure, not an empty heatmap.
#[derive(Debug)]
pub struct Heatmap {
    /// The extracted weeks, in the order the document presents them.
    pub contribution_weeks: Vec<ContributionWeek>,
}

/// True when every week of the sequence holds its full seven day slots.
pub open spec fn weeks_full(weeks: Seq<ContributionWeek>) -> bool {
    forall|i: int|
        0 <= i < weeks.len() ==> (#[trigger] weeks[i]).contributions@.len() == 7
}

/// What one queried week column yields: a rejection when it held zero day
/// nodes, else the week its nodes assemble.
pub open spec fn column_spec(col: Seq<DayNode>) -> Result<Seq<Option<Contribution>>, ErrorKind> {
    if col.len() == 0 {
        Result::Err(ErrorKind::EmptyColumn)
    } else {
        assemble_spec(col)
    }
}

/// What the queried week columns yield, in order: the assembled weeks, or
/// the failure of the first column that is empty or fails to assemble.
pub open spec fn columns_spec(cols: Seq<Seq<DayNode>>) -> Result<
    Seq<Seq<Option<Contribution>>>,
    ErrorKind,
>
    decreases cols.len(),
{
    if cols.len() == 0 {
        Result::Ok(Seq::empty())
    } else {
        match columns_spec(cols.drop_last()) {
            Result::Err(kind) => Result::Err(kind),
            Result::Ok(weeks) => match column_spec(cols.last()) {
                Result::Err(kind) => Result::Err(kind),
                Result::Ok(week) => Result::Ok(weeks.push(week)),
            },
        }
    }
}

/// What building a heatmap from the queried week columns yields: the
/// assembled weeks when there is at least one and every column assembles,
/// and the exact failure owed otherwise.
pub open spec fn heatmap_spec(cols: Seq<Seq<DayNode>>) -> Result<
    Seq<Seq<Option<Contribution>>>,
    ErrorKind,
> {
    match columns_spec(cols) {
        Result::Err(kind) => Result::Err(kind),
        Result::Ok(weeks) => if weeks.len() == 0 {
            Result::Err(ErrorKind::EmptyHeatmap)
        } else {
            Result::Ok(weeks)
        },
    }
}

/// The slot sequences of a sequence of weeks, in order.
pub open spec fn weeks_slots(weeks: Seq<ContributionWeek>) -> Seq<Seq<Option<Contribution>>> {
    weeks.map_values(|w: ContributionWeek| w.contributions@)
}

/// The slot sequences of a heatmap's weeks, in order.
pub open spec fn weeks_model(h: Heatmap) -> Seq<Seq<Option<Contribution>>> {
    weeks_slots(h.contribution_weeks@)
}

/// The day-node sequences of queried columns, in order.
pub open spec fn cols_view(cols: Seq<Vec<DayNode>>) -> Seq<Seq<DayNode>> {
    cols.map_values(|c: Vec<DayNode>| c@)
}

/// What one slot may render as in a colored line: an empty slot is exactly
/// two blank characters, and a populated slot is a painted cell in which
/// the two-character glyph cell occurs (its exact bytes depend on the
/// process's color configuration).
pub open spec fn cell_for_slot(slot: Option<Contribution>, cell: Seq<char>) -> bool {
    match slot {
        Option::None => cell == "  "@,
        Option::Some(_) => contains_seq(cell, "\u{25A0} "@),
    }
}

/// True when `line` is one cell per week, in stored order, where each cell
/// is what [`cell_for_slot`] allows for that week's slot at the given day.
pub open spec fn line_of_cells(weeks: Seq<ContributionWeek>, day: int, line: Seq<char>) -> bool
    decreases weeks.len(),
{
    if weeks.len() == 0 {
        line == Seq::<char>::empty()
    } else {
        exists|rest: Seq<char>, cell: Seq<char>|
            #![trigger rest + cell]
            {
                &&& line == rest + cell
                &&& line_of_cells(weeks.drop_last(), day, rest)
                &&& cell_for_slot(weeks.last().contributions@[day], cell)
            }
    }
}

/// Extending a line by one allowed cell keeps it a line of cells.
pub proof fn lemma_line_extend(
    weeks: Seq<ContributionWeek>,
    day: int,
    rest: Seq<char>,
    cell: Seq<char>,
)
    requires
        weeks.len() > 0,
        line_of_cells(weeks.drop_last(), day, rest),
        cell_for_slot(weeks.last().contributions@[day], cell),
    ensures
        line_of_cells(weeks, day, rest + cell),
{
}

/// A week column with zero day nodes is rejected outright; it never yields
/// an empty or all-blank week. A column that does assemble always yields a
/// full seven slots.
pub proof fn lemma_empty_column_rejected(col: Seq<DayNode>)
    ensures
        col.len() == 0 ==> column_spec(col) == Result::<Seq<Option<Contribution>>,
            ErrorKind>::Err(ErrorKind::EmptyColumn),
        column_spec(col) matches Ok(week) ==> week.len() == 7,
{
    lemma_week_always_seven(col);
}

/// A document whose query matched zero week columns is rejected outright;
/// a heatmap that builds always holds at least one week.
pub proof fn lemma_empty_heatmap_rejected(cols: Seq<Seq<DayNode>>)
    ensures
        cols.len() == 0 ==> heatmap_spec(cols) == Result::<Seq<Seq<Option<Contribution>>>,
            ErrorKind>::Err(ErrorKind::EmptyHeatmap),
        heatmap_spec(cols) matches Ok(weeks) ==> weeks.len() > 0,
{
}

/// When the columns all assemble, there is one week per column and every
/// week holds its seven slots.
pub proof fn lemma_columns_shape(cols: Seq<Seq<DayNode>>)
    ensures
        columns_spec(cols) matches Ok(weeks) ==> weeks.len() == cols.len() && forall|i: int|
            0 <= i < cols.len() ==> (#[trigger] weeks[i]).len() == 7,
    decreases cols.len(),
{
    if cols.len() > 0 {
        lemma_columns_shape(cols.drop_last());
        lemma_week_always_seven(cols.last());
    }
}

/// Once a prefix of the columns fails, the whole sequence fails the same
/// way.
pub proof fn lemma_columns_err_persists(cols: Seq<Seq<DayNode>>, j: int)
    requires
        0 <= j <= cols.len(),
        columns_spec(cols.take(j)) is Err,
    ensures
        columns_spec(cols) == columns_spec(cols.take(j)),
    decreases cols.len() - j,
{
    if j == cols.len() {
        assert(cols.take(j) =~= cols);
    } else {
        assert(cols.take(j + 1).drop_last() =~= cols.take(j));
        lemma_columns_err_persists(cols, j + 1);
    }
}

impl Heatmap {
    /// True when this heatmap upholds its invariants: at least one week,
    /// and seven slots in every week.
    pub open spec fn well_formed(&self) -> bool {
        self.contribution_weeks@.len() > 0 && weeks_full(self.contribution_weeks@)
    }

    /// Builds a heatmap from already-read week columns, exactly as
    /// [`heatmap_spec`] states: the first empty or failing column aborts
    /// the build, and so does a document with no columns at all.
    pub fn from_columns(columns: &Vec<Vec<DayNode>>) -> (r: Result<Self, HeatmapError>)
        ensures
            match heatmap_spec(cols_view(columns@)) {
                Result::Ok(weeks) => r matches Ok(h) && weeks_model(h) == weeks
                    && h.well_formed(),
                Result::Err(kind) => r matches Err(e) && error_of_kind(kind, e),
            },
    {
        let ghost cols = cols_view(columns@);
        let mut weeks: Vec<ContributionWeek> = Vec::new();
        proof {
            assert(cols.take(0) =~= Seq::<Seq<DayNode>>::empty());
            assert(weeks_slots(weeks@) =~= Seq::<Seq<Option<Contribution>>>::empty());
        }
        let n = columns.len();
        let mut i: usize = 0;
        while i < n
            invariant
                i <= n == columns@.len(),
                cols == cols_view(columns@),
                columns_spec(cols.take(i as int)) == Result::<Seq<Seq<Option<Contribution>>>,
                    ErrorKind>::Ok(weeks_slots(weeks@)),
            decreases n - i,
        {
            proof {
                assert(cols.take(i + 1).drop_last() =~= cols.take(i as int));
                assert(cols.take(i + 1).last() == cols[i as int]);
                assert(cols[i as int] == columns@[i as int]@);
            }
            let column = &columns[i];
            if column.len() == 0 {
                let e = error_for(ErrorKind::EmptyColumn);
                proof {
                    lemma_columns_err_persists(cols, i + 1);
                }
                return Err(e);
            }
            let week = match ContributionWeek::from_nodes(column) {
                Ok(week) => week,
                Err(e) => {
                    proof {
                        lemma_columns_err_persists(cols, i + 1);
                    }
                    return Err(e);
                },
            };
            let ghost prev = weeks@;
            weeks.push(week);
            proof {
                assert(weeks_slots(weeks@) =~= weeks_slots(prev).push(week.contributions@));
            }
            i = i + 1;
        }
        proof {
            assert(cols.take(n as int) =~= cols);
        }
        if weeks.len() == 0 {
            let e = error_for(ErrorKind::EmptyHeatmap);
            return Err(e);
        }
        let h = Heatmap { contribution_weeks: weeks };
        proof {
            lemma_columns_shape(cols);
            assert forall|j: int| 0 <= j < h.contribution_weeks@.len() implies (#[trigger] h.contribution_weeks@[j]).contributions@.len()
                == 7 by {
                assert(weeks_model(h)[j] == h.contribution_weeks@[j].contributions@);
            }
        }
        Ok(h)
    }

    /// Queries the document for its week columns and their day nodes, and
    /// builds the heatmap they describe. The queried attribute values come
    /// from the scraped document, so the contract pins the invariants and
    /// the failure taxonomy; [`Self::from_columns`] states the build from
    /// the read values exactly.
    pub fn from_document(document: &scraper::Html) -> (r: Result<Self, HeatmapError>)
        ensures
            r matches Ok(h) ==> h.well_formed(),
            r matches Err(e) ==> valid_error(e),
    {
        let week_selector = match parse_selector(WEEK_SELECTOR) {
            Some(s) => s,
            None => {
                let e = error_for(ErrorKind::EmptyHeatmap);
                proof {
                    assert(error_of_kind(ErrorKind::EmptyHeatmap, e));
                }
                return Err(e);
            },
        };
        let day_selector = match parse_selector(DAY_SELECTOR) {
            Some(s) => s,
            None => {
                let e = error_for(ErrorKind::EmptyColumn);
                proof {
                    assert(error_of_kind(ErrorKind::EmptyColumn, e));
                }
                return Err(e);
            },
        };
        let week_els = select_in_document(document, &week_selector);
        let mut columns: Vec<Vec<DayNode>> = Vec::new();
        let n = week_els.len();
        let mut i: usize = 0;
        while i < n
            invariant
                i <= n == week_els@.len(),
            decreases n - i,
        {
            let day_els = select_in_element(&week_els[i], &day_selector);
            let mut column: Vec<DayNode> = Vec::new();
            let m = day_els.len();
            let mut j: usize = 0;
            while j < m
                invariant
                    j <= m == day_els@.len(),
                decreases m - j,
            {
                column.push(DayNode::from_el(&day_els[j]));
                j = j + 1;
            }
            columns.push(column);
            i = i + 1;
        }
        let r = Self::from_columns(&columns);
        proof {
            match heatmap_spec(cols_view(columns@)) {
                Result::Ok(weeks) => {},
                Result::Err(kind) => {
                    assert(r matches Err(e) && error_of_kind(kind, e));
                },
            }
        }
        r
    }

    /// Queries one week-column element for its day nodes and assembles
    /// their week, rejecting a column with no day nodes at all.
    pub fn get_contribution_week(
        el: &scraper::ElementRef<'_>,
        selector: &scraper::Selector,
    ) -> (r: Result<ContributionWeek, HeatmapError>)
        ensures
            r matches Ok(w) ==> w.contributions@.len() == 7,
            r matches Err(e) ==> valid_error(e),
    {
        let day_els = select_in_element(el, selector);
        if day_els.len() == 0 {
            let e = error_for(ErrorKind::EmptyColumn);
            proof {
                assert(error_of_kind(ErrorKind::EmptyColumn, e));
            }
            return Err(e);
        }
        ContributionWeek::from_days(&day_els)
    }

    /// Renders the heatmap as seven lines, one per day of week, each line
    /// one cell per week, oldest week first — the transpose of the stored
    /// week-major order. An empty slot is exactly two blanks; a populated
    /// slot renders through [`Contribution::render`], whose exact bytes
    /// depend on the process's color configuration, so each such cell is
    /// pinned to hold the two-character glyph cell.
    pub fn render_lines(&self, color: &ColorValues) -> (lines: Vec<String>)
        requires
            weeks_full(self.contribution_weeks@),
        ensures
            lines@.len() == 7,
            forall|day: int|
                0 <= day < 7 ==> line_of_cells(
                    self.contribution_weeks@,
                    day,
                    (#[trigger] lines@[day])@,
                ),
    {
        let mut lines: Vec<String> = Vec::new();
        let mut day: usize = 0;
        while day < 7
            invariant
                day <= 7,
                lines@.len() == day,
                weeks_full(self.contribution_weeks@),
                forall|d: int|
                    0 <= d < day ==> line_of_cells(
                        self.contribution_weeks@,
                        d,
                        (#[trigger] lines@[d])@,
                    ),
            decreases 7 - day,
        {
            let mut line = String::new();
            proof {
                assert(self.contribution_weeks@.take(0) =~= Seq::<ContributionWeek>::empty());
            }
            let n = self.contribution_weeks.len();
            let mut wi: usize = 0;
            while wi < n
                invariant
                    wi <= n == self.contribution_weeks@.len(),
                    day < 7,
                    weeks_full(self.contribution_weeks@),
                    line_of_cells(self.contribution_weeks@.take(wi as int), day as int, line@),
                decreases n - wi,
            {
                proof {
                    assert(self.contribution_weeks@.take(wi + 1).drop_last()
                        =~= self.contribution_weeks@.take(wi as int));
                    assert(self.contribution_weeks@.take(wi + 1).last()
                        == self.contribution_weeks@[wi as int]);
                }
                let ghost rest = line@;
                let week = &self.contribution_weeks[wi];
                match week.contributions[day] {
                    Some(contribution) => {
                        let cell = contribution.render(color);
                        line.append(cell.as_str());
                        proof {
                            assert(line@ == rest + cell@);
                            lemma_line_extend(
                                self.contribution_weeks@.take(wi + 1),
                                day as int,
                                rest,
                                cell@,
                            );
                        }
                    },
                    None => {
                        line.append("  ");
                        proof {
                            assert(line@ == rest + "  "@);
                            lemma_line_extend(
                                self.contribution_weeks@.take(wi + 1),
                                day as int,
                                rest,
                                "  "@,
                            );
                        }
                    },
                }
                wi = wi + 1;
            }
            proof {
                assert(self.contribution_weeks@.take(n as int) =~= self.contribution_weeks@);
            }
            lines.push(line);
            day = day + 1;
        }
        lines
    }

    /// Writes the rendered heatmap to standard output, one line per day of
    /// week.
    pub fn render(&self, color: &ColorValues)
        requires
            weeks_full(self.contribution_weeks@),
    {
        let lines = self.render_lines(color);
        let n = lines.len();
        let mut i: usize = 0;
        while i < n
            invariant
                i <= n == lines@.len(),
            decreases n - i,
        {
            emit_line(lines[i].as_str());
            i = i + 1;
        }
    }
}

impl PartialEq for Heatmap {
    fn eq(&self, other: &Self) -> (r: bool) {
        if self.contribution_weeks.len() != other.contribution_weeks.len() {
            return false;
        }
        let n = self.contribution_weeks.len();
        let mut i: usize = 0;
        while i < n
            invariant
                i <= n == self.contribution_weeks@.len(),
                n == other.contribution_weeks@.len(),
                forall|j: int|
                    0 <= j < i ==> (#[trigger] self.contribution_weeks@[j]).contributions@
                        == other.contribution_weeks@[j].contributions@,
            decreases n - i,
        {
            let a = &self.contribution_weeks[i];
            let b = &other.contribution_weeks[i];
            if !(a == b) {
                return false;
            }
            i = i + 1;
        }
        true
    }
}

impl vstd::std_specs::cmp::PartialEqSpecImpl for Heatmap {
    open spec fn obeys_eq_spec() -> bool {
        true
    }

    open spec fn eq_spec(&self, other: &Self) -> bool {
        self.contribution_weeks@.len() == other.contribution_weeks@.len() && forall|j: int|
            0 <= j < self.contribution_weeks@.len()
                ==> (#[trigger] self.contribution_weeks@[j]).contributions@
                == other.contribution_weeks@[j].contributions@
    }
}

/// Relies on std's writeln to standard output; a write failure is ignored,
/// as nothing can be done about it here.
#[verifier::external_body]
fn emit_line(s: &str) {
    let _ = writeln!(std::io::stdout(), "{}", s);
}

} // verus!
