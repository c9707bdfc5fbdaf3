//! Extraction and rendering of a profile page's contribution-activity
//! graph: an ordered sequence of loosely structured markup nodes becomes a
//! well-formed seven-row grid of typed activity levels, which renders as
//! colored glyphs, one line per day of week.
//!
//! The decision logic — day-of-week inference from geometric layout hints,
//! week assembly, grid aggregation, and the intensity step function — is
//! specified and verified here; fetching and argument handling live outside
//! the library, behind plain values.

mod args;
mod dom;
mod errors;
mod heatmap;
mod parsers;
mod text;

pub use args::{Args, ColorValues};
pub use dom::DayNode;
pub use errors::{ErrorKind, HeatmapError, error_for, error_of_kind, valid_error};
pub use heatmap::{
    Contribution, ContributionHeatmap, ContributionWeek, DAY_SELECTOR, Heatmap, WEEK_SELECTOR,
    assemble_spec, cell_channels, cell_for_slot, column_spec, columns_spec, cols_view,
    day_index_spec, empty_week, heatmap_spec, intensity_spec, lemma_assemble_err_persists,
    lemma_columns_err_persists, lemma_columns_shape, lemma_empty_column_rejected,
    lemma_empty_heatmap_rejected, lemma_intensity_monotone, lemma_lenient_err_persists,
    lemma_lenient_shape, lemma_line_extend, lemma_week_always_seven, lenient_columns_spec,
    level_step, line_of_cells, node_step, plain_cell, plain_line, rgb_spec, weeks_full,
    weeks_model, weeks_slots, y_step,
};
pub use parsers::{is_slug_char, parse_slug, parse_year, valid_slug, valid_year};
pub use text::{
    all_dec_digits, contains_seq, digit_part, digit_val, digits_val, is_dec_digit,
    lemma_digits_val_extend, parse_usize, parse_usize_spec,
};

use vstd::prelude::*;
use vstd::string::StringExecFns;

verus! {

/// The address of the site that profile pages are fetched from.
pub const PROFILE_URL: &'static str = "https://github.com";

/// The address of the profile page to fetch for `args`: the profile's own
/// page, or the page of a specific year's contributions when a year was
/// given.
pub fn profile_url(args: &Args) -> (r: String)
    ensures
        args.year matches Some(year) ==> r@ == PROFILE_URL@ + "/"@ + args.slug@ + "?from="@
            + year@ + "-01-01"@,
        args.year is None ==> r@ == PROFILE_URL@ + "/"@ + args.slug@,
{
    let mut url = String::from_str(PROFILE_URL);
    url.append("/");
    url.append(args.slug.as_str());
    match &args.year {
        Some(year) => {
            url.append("?from=");
            url.append(year.as_str());
            url.append("-01-01");
        },
        None => {},
    }
    url
}

/// Extracts the contribution heatmap from an already fetched profile page
/// and writes its rendering to standard output in the chosen hue. Every
/// failure is one of the library's error taxonomy, surfaced unchanged.
pub fn run(args: &Args, document: &scraper::Html) -> (r: Result<(), HeatmapError>)
    ensures
        r matches Err(e) ==> valid_error(e),
{
    let heatmap = match Heatmap::from_document(document) {
        Ok(h) => h,
        Err(e) => return Err(e),
    };
    heatmap.render(&args.color);
    Ok(())
}

} // verus!
