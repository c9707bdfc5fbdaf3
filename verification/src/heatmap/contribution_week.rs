use vstd::prelude::*;

use crate::dom::{DayNode, attr_value};
use crate::errors::{ErrorKind, HeatmapError, error_for, error_of_kind, valid_error};
use crate::heatmap::contribution::{Contribution, level_step};
use crate::text::{parse_usize, parse_usize_spec};

verus! {

/// One calendar week of contributions: a column of the rendered grid.
///
/// The week always holds exactly seven slots, one per day of week; slots
/// that no scraped node named stay `None`, since years need not begin or
/// end on the grid's first day.
#[derive(Debug)]
pub struct ContributionWeek {
    /// The week's seven day slots, day of week `0` first.
    pub contributions: Vec<Option<Contribution>>,
}

/// What parsing a day node's `y` attribute yields: the parsed offset, or
/// the exact failure owed for an absent or unparsable attribute.
pub open spec fn y_step(attr: Option<String>) -> Result<usize, ErrorKind> {
    match attr {
        Option::None => Result::Err(ErrorKind::MissingYAttr),
        Option::Some(s) => match parse_usize_spec(s@) {
            Option::None => Result::Err(ErrorKind::UnparsableYAttr),
            Option::Some(y) => Result::Ok(y),
        },
    }
}

/// The day-of-week index inferred from a node's vertical offset. The source
/// renders rows at a pitch of either 13 or 15 display units, and the pitch
/// is only inferable per node: offset zero is day zero, an offset divisible
/// by 13 is read at the 13 pitch, else one divisible by 15 at the 15 pitch,
/// and anything else matches no known convention. Checking 13 first on
/// common multiples is deliberate precedence, not an accident.
pub open spec fn day_index_spec(y: usize) -> Option<usize> {
    if y == 0 {
        Option::Some(0usize)
    } else if y as int % 13 == 0 {
        Option::Some((y as int / 13) as usize)
    } else if y as int % 15 == 0 {
        Option::Some((y as int / 15) as usize)
    } else {
        Option::None
    }
}

/// A week with no recorded contribution on any day.
pub open spec fn empty_week() -> Seq<Option<Contribution>> {
    seq![
        Option::None,
        Option::None,
        Option::None,
        Option::None,
        Option::None,
        Option::None,
        Option::None,
    ]
}

/// What one day node contributes to its week: the slot index and activity
/// level, or the exact failure owed. The offset is read first, then the
/// inferred index, then the level; an index past the seven slots of a week
/// matches no known layout.
pub open spec fn node_step(day: DayNode) -> Result<(usize, usize), ErrorKind> {
    match y_step(day.y_attr) {
        Result::Err(kind) => Result::Err(kind),
        Result::Ok(y) => match day_index_spec(y) {
            Option::None => Result::Err(ErrorKind::UnknownLayoutPitch),
            Option::Some(index) => match level_step(day.level_attr) {
                Result::Err(kind) => Result::Err(kind),
                Result::Ok(level) => if index < 7 {
                    Result::Ok((index, level))
                } else {
                    Result::Err(ErrorKind::UnknownLayoutPitch)
                },
            },
        },
    }
}

/// What assembling a week from its day nodes yields: starting from the
/// empty week, each node in order fills the slot it names (the last write
/// to a slot wins), and the first failing node aborts the whole week.
pub open spec fn assemble_spec(nodes: Seq<DayNode>) -> Result<Seq<Option<Contribution>>, ErrorKind>
    decreases nodes.len(),
{
    if nodes.len() == 0 {
        Result::Ok(empty_week())
    } else {
        match assemble_spec(nodes.drop_last()) {
            Result::Err(kind) => Result::Err(kind),
            Result::Ok(slots) => match node_step(nodes.last()) {
                Result::Err(kind) => Result::Err(kind),
                Result::Ok(placed) => Result::Ok(
                    slots.update(placed.0 as int, Option::Some(Contribution { heat_level: placed.1 })),
                ),
            },
        }
    }
}

/// However many day nodes a well-formed column supplies, the assembled week
/// has exactly seven slots.
pub proof fn lemma_week_always_seven(nodes: Seq<DayNode>)
    ensures
        assemble_spec(nodes) matches Ok(slots) ==> slots.len() == 7,
    decreases nodes.len(),
{
    if nodes.len() > 0 {
        lemma_week_always_seven(nodes.drop_last());
    }
}

/// Once a prefix of the nodes fails to assemble, the whole sequence fails
/// the same way.
pub proof fn lemma_assemble_err_persists(nodes: Seq<DayNode>, j: int)
    requires
        0 <= j <= nodes.len(),
        assemble_spec(nodes.take(j)) is Err,
    ensures
        assemble_spec(nodes) == assemble_spec(nodes.take(j)),
    decreases nodes.len() - j,
{
    if j == nodes.len() {
        assert(nodes.take(j) =~= nodes);
    } else {
        assert(nodes.take(j + 1).drop_last() =~= nodes.take(j));
        lemma_assemble_err_persists(nodes, j + 1);
    }
}

impl ContributionWeek {
    /// Infers the day-of-week index for a node's vertical offset, exactly
    /// as [`day_index_spec`] states.
    pub fn get_day_index(y_value: usize) -> (r: Result<usize, HeatmapError>)
        ensures
            match day_index_spec(y_value) {
                Option::Some(index) => r == Ok::<usize, HeatmapError>(index),
                Option::None => r == Err::<usize, HeatmapError>(HeatmapError::UnknownNodeFormat),
            },
    {
        if y_value == 0 {
            Ok(0)
        } else if y_value % 13 == 0 {
            Ok(y_value / 13)
        } else if y_value % 15 == 0 {
            Ok(y_value / 15)
        } else {
            Err(error_for(ErrorKind::UnknownLayoutPitch))
        }
    }

    /// Parses an already-read `y` attribute value, exactly as [`y_step`]
    /// states.
    pub fn y_from_attr(attr: &Option<String>) -> (r: Result<usize, HeatmapError>)
        ensures
            match y_step(*attr) {
                Result::Ok(y) => r == Ok::<usize, HeatmapError>(y),
                Result::Err(kind) => r matches Err(e) && error_of_kind(kind, e),
            },
    {
        match attr {
            None => Err(error_for(ErrorKind::MissingYAttr)),
            Some(s) => match parse_usize(s.as_str()) {
                Some(y) => Ok(y),
                None => Err(error_for(ErrorKind::UnparsableYAttr)),
            },
        }
    }

    /// Reads and parses the `y` attribute of one queried element. The
    /// attribute value itself comes from the scraped document, so the
    /// contract pins only the failure taxonomy; [`Self::y_from_attr`]
    /// states the parse exactly.
    pub fn parse_y_attr(day_el: &scraper::ElementRef<'_>) -> (r: Result<usize, HeatmapError>)
        ensures
            r matches Err(e) ==> valid_error(e),
    {
        let attr = attr_value(day_el, "y");
        let r = Self::y_from_attr(&attr);
        proof {
            match y_step(attr) {
                Result::Ok(_) => {},
                Result::Err(kind) => {
                    assert(r matches Err(e) && error_of_kind(kind, e));
                },
            }
        }
        r
    }

    /// Assembles a week from already-read day nodes, exactly as
    /// [`assemble_spec`] states: each node fills the slot its offset names,
    /// and the first failing node aborts the week.
    pub fn from_nodes(days: &Vec<DayNode>) -> (r: Result<Self, HeatmapError>)
        ensures
            match assemble_spec(days@) {
                Result::Ok(slots) => r matches Ok(w) && w.contributions@ == slots,
                Result::Err(kind) => r matches Err(e) && error_of_kind(kind, e),
            },
    {
        let mut contributions: Vec<Option<Contribution>> = Vec::new();
        let mut filled: usize = 0;
        while filled < 7
            invariant
                contributions@.len() == filled,
                filled <= 7,
                forall|j: int| 0 <= j < filled ==> contributions@[j] is None,
            decreases 7 - filled,
        {
            contributions.push(None);
            filled = filled + 1;
        }
        proof {
            assert(contributions@ =~= empty_week());
        }
        let n = days.len();
        let mut i: usize = 0;
        while i < n
            invariant
                i <= n == days@.len(),
                contributions@.len() == 7,
                assemble_spec(days@.take(i as int)) == Result::<Seq<Option<Contribution>>,
                    ErrorKind>::Ok(contributions@),
            decreases n - i,
        {
            let ghost prefix = days@.take(i as int);
            proof {
                assert(days@.take(i + 1).drop_last() =~= prefix);
                assert(days@.take(i + 1).last() == days@[i as int]);
            }
            let day = &days[i];
            let y = match Self::y_from_attr(&day.y_attr) {
                Ok(y) => y,
                Err(e) => {
                    proof {
                        lemma_assemble_err_persists(days@, i + 1);
                    }
                    return Err(e);
                },
            };
            let index = match Self::get_day_index(y) {
                Ok(index) => index,
                Err(e) => {
                    proof {
                        assert(error_of_kind(ErrorKind::UnknownLayoutPitch, e));
                        lemma_assemble_err_persists(days@, i + 1);
                    }
                    return Err(e);
                },
            };
            let level = match Contribution::level_from_attr(&day.level_attr) {
                Ok(level) => level,
                Err(e) => {
                    proof {
                        lemma_assemble_err_persists(days@, i + 1);
                    }
                    return Err(e);
                },
            };
            if index >= 7 {
                let e = error_for(ErrorKind::UnknownLayoutPitch);
                proof {
                    lemma_assemble_err_persists(days@, i + 1);
                }
                return Err(e);
            }
            contributions.set(index, Some(Contribution { heat_level: level }));
            i = i + 1;
        }
        proof {
            assert(days@.take(n as int) =~= days@);
        }
        Ok(ContributionWeek { contributions })
    }

    /// Assembles a week from the day-node elements of one queried column.
    /// The attribute values come from the scraped document, so the contract
    /// pins the slot count and the failure taxonomy; [`Self::from_nodes`]
    /// states the assembly of the read values exactly.
    pub fn from_days(days: &Vec<scraper::ElementRef<'_>>) -> (r: Result<Self, HeatmapError>)
        ensures
            r matches Ok(w) ==> w.contributions@.len() == 7,
            r matches Err(e) ==> valid_error(e),
    {
        let mut nodes: Vec<DayNode> = Vec::new();
        let n = days.len();
        let mut i: usize = 0;
        while i < n
            invariant
                i <= n == days@.len(),
            decreases n - i,
        {
            nodes.push(DayNode::from_el(&days[i]));
            i = i + 1;
        }
        let r = Self::from_nodes(&nodes);
        proof {
            match assemble_spec(nodes@) {
                Result::Ok(slots) => {
                    lemma_week_always_seven(nodes@);
                },
                Result::Err(kind) => {
                    assert(r matches Err(e) && error_of_kind(kind, e));
                },
            }
        }
        r
    }
}

impl PartialEq for ContributionWeek {
    fn eq(&self, other: &Self) -> (r: bool) {
        if self.contributions.len() != other.contributions.len() {
            return false;
        }
        let n = self.contributions.len();
        let mut i: usize = 0;
        while i < n
            invariant
                i <= n == self.contributions@.len(),
                n == other.contributions@.len(),
                forall|j: int| 0 <= j < i ==> self.contributions@[j] == other.contributions@[j],
            decreases n - i,
        {
            let same = match (self.contributions[i], other.contributions[i]) {
                (None, None) => true,
                (Some(a), Some(b)) => a.heat_level == b.heat_level,
                _ => false,
            };
            if !same {
                return false;
            }
            i = i + 1;
        }
        proof {
            assert(self.contributions@ =~= other.contributions@);
        }
        true
    }
}

impl vstd::std_specs::cmp::PartialEqSpecImpl for ContributionWeek {
    open spec fn obeys_eq_spec() -> bool {
        true
    }

    open spec fn eq_spec(&self, other: &Self) -> bool {
        self.contributions@ == other.contributions@
    }
}

} // verus!
