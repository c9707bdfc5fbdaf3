use vstd::prelude::*;

use crate::dom::{DayNode, parse_selector, select_in_document, select_in_element};
use crate::errors::{ErrorKind, HeatmapError, error_for, error_of_kind, valid_error};
use crate::heatmap::contribution::Contribution;
use crate::heatmap::contribution_week::{ContributionWeek, assemble_spec, lemma_week_always_seven};
use crate::heatmap::{DAY_SELECTOR, WEEK_SELECTOR, cols_view, weeks_full, weeks_slots};

verus! {

/// A contribution heatmap without the non-emptiness demands of
/// [`Heatmap`]: a document with no week columns yields a heatmap with no
/// weeks, and an empty column yields an all-blank week — the choice
/// [`lenient_columns_spec`] states. It renders without color.
///
/// [`Heatmap`]: crate::heatmap::Heatmap
#[derive(Debug)]
pub struct ContributionHeatmap {
    /// The extracted weeks, in the order the document presents them.
    pub contribution_weeks: Vec<ContributionWeek>,
}

/// What the lenient build yields from the queried week columns: one
/// assembled week per column, in order — zero columns give zero weeks, and
/// a column with zero day nodes gives the all-blank week — with the first
/// failing node still aborting the whole build.
pub open spec fn lenient_columns_spec(cols: Seq<Seq<DayNode>>) -> Result<
    Seq<Seq<Option<Contribution>>>,
    ErrorKind,
>
    decreases cols.len(),
{
    if cols.len() == 0 {
        Result::Ok(Seq::empty())
    } else {
        match lenient_columns_spec(cols.drop_last()) {
            Result::Err(kind) => Result::Err(kind),
            Result::Ok(weeks) => match assemble_spec(cols.last()) {
                Result::Err(kind) => Result::Err(kind),
                Result::Ok(week) => Result::Ok(weeks.push(week)),
            },
        }
    }
}

/// When the lenient build succeeds, there is one week per column and every
/// week holds its seven slots.
pub proof fn lemma_lenient_shape(cols: Seq<Seq<DayNode>>)
    ensures
        lenient_columns_spec(cols) matches Ok(weeks) ==> weeks.len() == cols.len() && forall|
            i: int,
        | 0 <= i < cols.len() ==> (#[trigger] weeks[i]).len() == 7,
    decreases cols.len(),
{
    if cols.len() > 0 {
        lemma_lenient_shape(cols.drop_last());
        lemma_week_always_seven(cols.last());
    }
}

/// Once a prefix of the columns fails the lenient build, the whole
/// sequence fails the same way.
pub proof fn lemma_lenient_err_persists(cols: Seq<Seq<DayNode>>, j: int)
    requires
        0 <= j <= cols.len(),
        lenient_columns_spec(cols.take(j)) is Err,
    ensures
        lenient_columns_spec(cols) == lenient_columns_spec(cols.take(j)),
    decreases cols.len() - j,
{
    if j == cols.len() {
        assert(cols.take(j) =~= cols);
    } else {
        assert(cols.take(j + 1).drop_last() =~= cols.take(j));
        lemma_lenient_err_persists(cols, j + 1);
    }
}

impl ContributionHeatmap {
    /// Builds a lenient heatmap from already-read week columns, exactly as
    /// [`lenient_columns_spec`] states: one week per column in order, zero
    /// columns giving the empty heatmap, and the first failing node
    /// aborting the build.
    pub fn from_columns(columns: &Vec<Vec<DayNode>>) -> (r: Result<Self, HeatmapError>)
        ensures
            match lenient_columns_spec(cols_view(columns@)) {
                Result::Ok(weeks) => r matches Ok(h) && weeks_slots(h.contribution_weeks@)
                    == weeks && weeks_full(h.contribution_weeks@),
                Result::Err(kind) => r matches Err(e) && error_of_kind(kind, e),
            },
    {
        let ghost cols = cols_view(columns@);
        let mut weeks: Vec<ContributionWeek> = Vec::new();
        proof {
            assert(cols.take(0) =~= Seq::<Seq<DayNode>>::empty());
            assert(weeks_slots(weeks@) =~= Seq::<Seq<Option<Contribution>>>::empty());
        }
        let n = columns.len();
        let mut i: usize = 0;
        while i < n
            invariant
                i <= n == columns@.len(),
                cols == cols_view(columns@),
                lenient_columns_spec(cols.take(i as int)) == Result::<Seq<
                    Seq<Option<Contribution>>,
                >, ErrorKind>::Ok(weeks_slots(weeks@)),
            decreases n - i,
        {
            proof {
                assert(cols.take(i + 1).drop_last() =~= cols.take(i as int));
                assert(cols.take(i + 1).last() == cols[i as int]);
                assert(cols[i as int] == columns@[i as int]@);
            }
            let column = &columns[i];
            let week = match ContributionWeek::from_nodes(column) {
                Ok(week) => week,
                Err(e) => {
                    proof {
                        lemma_lenient_err_persists(cols, i + 1);
                    }
                    return Err(e);
                },
            };
            let ghost prev = weeks@;
            weeks.push(week);
            proof {
                assert(weeks_slots(weeks@) =~= weeks_slots(prev).push(week.contributions@));
            }
            i = i + 1;
        }
        proof {
            assert(cols.take(n as int) =~= cols);
        }
        let h = ContributionHeatmap { contribution_weeks: weeks };
        proof {
            lemma_lenient_shape(cols);
            assert forall|j: int| 0 <= j < h.contribution_weeks@.len() implies (#[trigger] h.contribution_weeks@[j]).contributions@.len()
                == 7 by {
                assert(weeks_slots(h.contribution_weeks@)[j]
                    == h.contribution_weeks@[j].contributions@);
            }
        }
        Ok(h)
    }

    /// Queries the document for its week columns and builds one week per
    /// column. The queried attribute values come from the scraped
    /// document, so the contract pins the week shape and the failure
    /// taxonomy; [`Self::from_columns`] states the build from the read
    /// values exactly.
    pub fn from_document(document: &scraper::Html) -> (r: Result<Self, HeatmapError>)
        ensures
            r matches Ok(h) ==> weeks_full(h.contribution_weeks@),
            r matches Err(e) ==> valid_error(e),
    {
        let week_selector = match parse_selector(WEEK_SELECTOR) {
            Some(s) => s,
            None => {
                let e = error_for(ErrorKind::EmptyHeatmap);
                proof {
                    assert(error_of_kind(ErrorKind::EmptyHeatmap, e));
                }
                return Err(e);
            },
        };
        let day_selector = match parse_selector(DAY_SELECTOR) {
            Some(s) => s,
            None => {
                let e = error_for(ErrorKind::EmptyColumn);
                proof {
                    assert(error_of_kind(ErrorKind::EmptyColumn, e));
                }
                return Err(e);
            },
        };
        let week_els = select_in_document(document, &week_selector);
        let mut columns: Vec<Vec<DayNode>> = Vec::new();
        let n = week_els.len();
        let mut i: usize = 0;
        while i < n
            invariant
                i <= n == week_els@.len(),
            decreases n - i,
        {
            let day_els = select_in_element(&week_els[i], &day_selector);
            let mut column: Vec<DayNode> = Vec::new();
            let m = day_els.len();
            let mut j: usize = 0;
            while j < m
                invariant
                    j <= m == day_els@.len(),
                decreases m - j,
            {
                column.push(DayNode::from_el(&day_els[j]));
                j = j + 1;
            }
            columns.push(column);
            i = i + 1;
        }
        let r = Self::from_columns(&columns);
        proof {
            match lenient_columns_spec(cols_view(columns@)) {
                Result::Ok(weeks) => {},
                Result::Err(kind) => {
                    assert(r matches Err(e) && error_of_kind(kind, e));
                },
            }
        }
        r
    }

    /// Renders the heatmap as seven uncolored lines, one per day of week,
    /// each line one two-character cell per week, oldest week first: a
    /// filled cell where the day has a contribution, blanks where it has
    /// none.
    pub fn render(&self) -> (lines: Vec<String>)
        requires
            weeks_full(self.contribution_weeks@),
        ensures
            lines@.len() == 7,
            forall|day: int|
                0 <= day < 7 ==> (#[trigger] lines@[day])@ == plain_line(
                    self.contribution_weeks@,
                    day,
                ),
    {
        let mut lines: Vec<String> = Vec::new();
        let mut day: usize = 0;
        while day < 7
            invariant
                day <= 7,
                lines@.len() == day,
                weeks_full(self.contribution_weeks@),
                forall|d: int|
                    0 <= d < day ==> (#[trigger] lines@[d])@ == plain_line(
                        self.contribution_weeks@,
                        d,
                    ),
            decreases 7 - day,
        {
            let mut line = String::new();
            let n = self.contribution_weeks.len();
            let mut wi: usize = 0;
            while wi < n
                invariant
                    wi <= n == self.contribution_weeks@.len(),
                    day < 7,
                    weeks_full(self.contribution_weeks@),
                    line@ == plain_line(self.contribution_weeks@.take(wi as int), day as int),
                decreases n - wi,
            {
                proof {
                    assert(self.contribution_weeks@.take(wi + 1).drop_last()
                        =~= self.contribution_weeks@.take(wi as int));
                    assert(self.contribution_weeks@.take(wi + 1).last()
                        == self.contribution_weeks@[wi as int]);
                }
                let week = &self.contribution_weeks[wi];
                match week.contributions[day] {
                    Some(_) => {
                        line.append("\u{25A0} ");
                    },
                    None => {
                        line.append("  ");
                    },
                }
                wi = wi + 1;
            }
            proof {
                assert(self.contribution_weeks@.take(n as int) =~= self.contribution_weeks@);
            }
            lines.push(line);
            day = day + 1;
        }
        lines
    }
}

/// The two characters a slot renders as when no color is involved: a
/// filled cell for a populated slot, blanks for an empty one.
pub open spec fn plain_cell(slot: Option<Contribution>) -> Seq<char> {
    match slot {
        Option::Some(_) => "\u{25A0} "@,
        Option::None => "  "@,
    }
}

/// One rendered line: the cells of the given day of week, oldest week
/// first.
pub open spec fn plain_line(weeks: Seq<ContributionWeek>, day: int) -> Seq<char>
    decreases weeks.len(),
{
    if weeks.len() == 0 {
        Seq::empty()
    } else {
        plain_line(weeks.drop_last(), day) + plain_cell(weeks.last().contributions@[day])
    }
}

} // verus!
