use vstd::prelude::*;
use vstd::string::StringExecFns;

verus! {

/// Everything that can go wrong while turning scraped markup into a heatmap.
///
/// Each failure aborts the enclosing construction step immediately; partial
/// results are never returned.
#[derive(Debug)]
pub enum HeatmapError {
    /// An element query matched nothing: either no week column at all, or a
    /// week column with no day nodes inside it.
    QueryElement { alias: String, selector: String },
    /// An expected attribute is absent on a queried node.
    QueryAttribute { attr: String, on_alias: String },
    /// An attribute is present but does not parse as a non-negative integer.
    ParseAttribute { attr: String, on_alias: String },
    /// A day node's vertical offset matches neither known row pitch.
    UnknownNodeFormat,
}

/// The failure taxonomy of heatmap extraction, with one variant per distinct
/// error value that the library can produce. Every [`HeatmapError`] that a
/// construction step returns carries the exact payload that
/// [`error_of_kind`] states for its kind.
#[derive(Clone, Copy, Debug, PartialEq, Eq, Structural)]
pub enum ErrorKind {
    /// The `y` attribute is absent on a day node.
    MissingYAttr,
    /// The `y` attribute does not parse as a non-negative integer.
    UnparsableYAttr,
    /// The `data-level` attribute is absent on a day node.
    MissingLevelAttr,
    /// The `data-level` attribute does not parse as a non-negative integer.
    UnparsableLevelAttr,
    /// A day node's vertical offset fits neither known row pitch, or names a
    /// row beyond the seven days of a week.
    UnknownLayoutPitch,
    /// A week column contained zero day nodes.
    EmptyColumn,
    /// The document contained zero week columns.
    EmptyHeatmap,
}

/// The exact error value owed for each failure kind.
pub open spec fn error_of_kind(kind: ErrorKind, e: HeatmapError) -> bool {
    match kind {
        ErrorKind::MissingYAttr => e matches HeatmapError::QueryAttribute { attr, on_alias }
            && attr@ == "y"@ && on_alias@ == "heatmap node"@,
        ErrorKind::UnparsableYAttr => e matches HeatmapError::ParseAttribute { attr, on_alias }
            && attr@ == "y"@ && on_alias@ == "heatmap node"@,
        ErrorKind::MissingLevelAttr => e matches HeatmapError::QueryAttribute { attr, on_alias }
            && attr@ == "data-level"@ && on_alias@ == "heatmap node"@,
        ErrorKind::UnparsableLevelAttr => e matches HeatmapError::ParseAttribute { attr, on_alias }
            && attr@ == "data-level"@ && on_alias@ == "heatmap node"@,
        ErrorKind::UnknownLayoutPitch => e matches HeatmapError::UnknownNodeFormat,
        ErrorKind::EmptyColumn => e matches HeatmapError::QueryElement { alias, selector }
            && alias@ == "heatmap node"@ && selector@ == "rect.ContributionCalendar-day"@,
        ErrorKind::EmptyHeatmap => e matches HeatmapError::QueryElement { alias, selector }
            && alias@ == "heatmap"@ && selector@ == "svg.js-calendar-graph-svg g g"@,
    }
}

/// True when `e` is one of the error values of the taxonomy, payload
/// included: everything a construction step can return is of this shape.
pub open spec fn valid_error(e: HeatmapError) -> bool {
    exists|kind: ErrorKind| #[trigger] error_of_kind(kind, e)
}

/// Builds the one error value owed for a failure kind.
pub fn error_for(kind: ErrorKind) -> (e: HeatmapError)
    ensures
        error_of_kind(kind, e),
{
    match kind {
        ErrorKind::MissingYAttr => HeatmapError::QueryAttribute {
            attr: "y".to_owned(),
            on_alias: "heatmap node".to_owned(),
        },
        ErrorKind::UnparsableYAttr => HeatmapError::ParseAttribute {
            attr: "y".to_owned(),
            on_alias: "heatmap node".to_owned(),
        },
        ErrorKind::MissingLevelAttr => HeatmapError::QueryAttribute {
            attr: "data-level".to_owned(),
            on_alias: "heatmap node".to_owned(),
        },
        ErrorKind::UnparsableLevelAttr => HeatmapError::ParseAttribute {
            attr: "data-level".to_owned(),
            on_alias: "heatmap node".to_owned(),
        },
        ErrorKind::UnknownLayoutPitch => HeatmapError::UnknownNodeFormat,
        ErrorKind::EmptyColumn => HeatmapError::QueryElement {
            alias: "heatmap node".to_owned(),
            selector: "rect.ContributionCalendar-day".to_owned(),
        },
        ErrorKind::EmptyHeatmap => HeatmapError::QueryElement {
            alias: "heatmap".to_owned(),
            selector: "svg.js-calendar-graph-svg g g".to_owned(),
        },
    }
}

impl HeatmapError {
    /// The human-readable description of this error, exactly as it is
    /// printed at the program's boundary.
    pub fn message(&self) -> (m: String)
        ensures
            match self {
                HeatmapError::QueryElement { alias, selector } => m@ == "Failed to query element '"@
                    + alias@ + "' with selector: '"@ + selector@ + "'"@,
                HeatmapError::QueryAttribute { attr, on_alias } => m@
                    == "Failed to query attribute '"@ + attr@ + "' on '"@ + on_alias@ + "'!"@,
                HeatmapError::ParseAttribute { attr, on_alias } => m@
                    == "Failed to parse attribute '"@ + attr@ + "' on '"@ + on_alias@ + "'!"@,
                HeatmapError::UnknownNodeFormat => m@
                    == "Failed to parse Heatmap nodes. Unknown node size scraped from Github frontend."@,
            },
    {
        match self {
            HeatmapError::QueryElement { alias, selector } => {
                let mut m = String::from_str("Failed to query element '");
                m.append(alias.as_str());
                m.append("' with selector: '");
                m.append(selector.as_str());
                m.append("'");
                m
            },
            HeatmapError::QueryAttribute { attr, on_alias } => {
                let mut m = String::from_str("Failed to query attribute '");
                m.append(attr.as_str());
                m.append("' on '");
                m.append(on_alias.as_str());
                m.append("'!");
                m
            },
            HeatmapError::ParseAttribute { attr, on_alias } => {
                let mut m = String::from_str("Failed to parse attribute '");
                m.append(attr.as_str());
                m.append("' on '");
                m.append(on_alias.as_str());
                m.append("'!");
                m
            },
            HeatmapError::UnknownNodeFormat => String::from_str(
                "Failed to parse Heatmap nodes. Unknown node size scraped from Github frontend.",
            ),
        }
    }
}

impl PartialEq for HeatmapError {
    fn eq(&self, other: &Self) -> (r: bool) {
        match (self, other) {
            (
                HeatmapError::QueryElement { alias: a1, selector: s1 },
                HeatmapError::QueryElement { alias: a2, selector: s2 },
            ) => *a1 == *a2 && *s1 == *s2,
            (
                HeatmapError::QueryAttribute { attr: a1, on_alias: o1 },
                HeatmapError::QueryAttribute { attr: a2, on_alias: o2 },
            ) => *a1 == *a2 && *o1 == *o2,
            (
                HeatmapError::ParseAttribute { attr: a1, on_alias: o1 },
                HeatmapError::ParseAttribute { attr: a2, on_alias: o2 },
            ) => *a1 == *a2 && *o1 == *o2,
            (HeatmapError::UnknownNodeFormat, HeatmapError::UnknownNodeFormat) => true,
            _ => false,
        }
    }
}

impl vstd::std_specs::cmp::PartialEqSpecImpl for HeatmapError {
    open spec fn obeys_eq_spec() -> bool {
        true
    }

    open spec fn eq_spec(&self, other: &Self) -> bool {
        match (self, other) {
            (
                HeatmapError::QueryElement { alias: a1, selector: s1 },
                HeatmapError::QueryElement { alias: a2, selector: s2 },
            ) => a1@ == a2@ && s1@ == s2@,
            (
                HeatmapError::QueryAttribute { attr: a1, on_alias: o1 },
                HeatmapError::QueryAttribute { attr: a2, on_alias: o2 },
            ) => a1@ == a2@ && o1@ == o2@,
            (
                HeatmapError::ParseAttribute { attr: a1, on_alias: o1 },
                HeatmapError::ParseAttribute { attr: a2, on_alias: o2 },
            ) => a1@ == a2@ && o1@ == o2@,
            (HeatmapError::UnknownNodeFormat, HeatmapError::UnknownNodeFormat) => true,
            _ => false,
        }
    }
}

} // verus!
