use vstd::prelude::*;

verus! {

/// The inputs that select what to fetch and how to render it: a profile
/// slug, a hue for the rendered cells, and an optional calendar year.
///
/// Argument parsing itself happens outside the library; this struct only
/// carries the already-validated values.
#[derive(Debug)]
pub struct Args {
    /// Profile slug, e.g. `adenh93`.
    pub slug: String,
    /// Hue used to shade rendered heatmap cells.
    pub color: ColorValues,
    /// Specific year to fetch contributions for, as a 4-digit string.
    pub year: Option<String>,
}

/// The closed set of hues a heatmap can be rendered in. Each variant selects
/// one primary color channel; a cell's intensity fills that channel alone.
#[derive(Clone, Copy, Debug, PartialEq, Eq, Structural)]
pub enum ColorValues {
    Red,
    Green,
    Blue,
}

} // verus!
