use colored::{Color, Colorize};
use github_heatmap::{
    Args, ColorValues, Contribution, ContributionHeatmap, ContributionWeek, DayNode, Heatmap,
    HeatmapError, parse_slug, parse_usize, parse_year, profile_url,
};
use scraper::Html;

fn day_node(y: Option<&str>, level: Option<&str>) -> DayNode {
    DayNode {
        y_attr: y.map(str::to_owned),
        level_attr: level.map(str::to_owned),
    }
}

#[test]
fn intensity_steps_and_saturates() {
    let intensities: Vec<u8> = (0..6usize)
        .map(|level| Contribution { heat_level: level }.intensity())
        .collect();
    assert_eq!(intensities, vec![0, 64, 127, 191, 255, 255]);
}

#[test]
fn thirteen_pitch_takes_precedence_on_common_multiples() {
    let day_index = ContributionWeek::get_day_index(195).unwrap();
    assert_eq!(day_index, 15)
}

#[test]
fn parses_plain_and_signed_integers() {
    assert_eq!(parse_usize("15"), Some(15));
    assert_eq!(parse_usize("+15"), Some(15));
    assert_eq!(parse_usize("0"), Some(0));
    assert_eq!(parse_usize(""), None);
    assert_eq!(parse_usize("+"), None);
    assert_eq!(parse_usize("three"), None);
    assert_eq!(parse_usize("1 5"), None);
    assert_eq!(parse_usize("99999999999999999999999999"), None);
}

#[test]
fn accepts_well_formed_slugs() {
    assert_eq!(parse_slug("adenh93"), Ok("adenh93".to_string()));
    assert_eq!(parse_slug("a-b-C-9"), Ok("a-b-C-9".to_string()));
    assert_eq!(parse_slug(""), Ok("".to_string()));
}

#[test]
fn rejects_malformed_slugs() {
    let expected = Err("slug must only contain alphanumeric characters and/or hyphens".to_string());
    assert_eq!(parse_slug("no_underscores"), expected);
    assert_eq!(parse_slug("spaces here"), expected);
    assert_eq!(parse_slug("aaaaaaaaaaaaaaaaaaaaaaaaaaaaaaaaaaaaaaa"), expected);
}

#[test]
fn accepts_well_formed_years() {
    assert_eq!(parse_year("2022"), Ok("2022".to_string()));
    assert_eq!(parse_year("0001"), Ok("0001".to_string()));
}

#[test]
fn rejects_malformed_years() {
    let expected = Err("year must be a valid calendar year, e.g. 2022".to_string());
    assert_eq!(parse_year("202"), expected);
    assert_eq!(parse_year("20222"), expected);
    assert_eq!(parse_year("20x2"), expected);
    assert_eq!(parse_year("+123"), expected);
}

#[test]
fn builds_profile_urls() {
    let args = Args {
        slug: "torvalds".to_string(),
        color: ColorValues::Green,
        year: None,
    };
    assert_eq!(profile_url(&args), "https://github.com/torvalds");

    let args = Args {
        slug: "torvalds".to_string(),
        color: ColorValues::Green,
        year: Some("2022".to_string()),
    };
    assert_eq!(profile_url(&args), "https://github.com/torvalds?from=2022-01-01");
}

#[test]
fn keeps_levels_verbatim_at_decode_time() {
    let nodes = vec![day_node(Some("0"), Some("7"))];
    let week = ContributionWeek::from_nodes(&nodes).unwrap();
    assert_eq!(week.contributions[0], Some(Contribution { heat_level: 7 }));
    assert_eq!(week.contributions.len(), 7);
}

#[test]
fn assembles_zero_nodes_into_a_blank_week() {
    let nodes: Vec<DayNode> = vec![];
    let week = ContributionWeek::from_nodes(&nodes).unwrap();
    assert_eq!(week.contributions, vec![None; 7]);
}

#[test]
fn last_write_wins_on_duplicate_day_indices() {
    let nodes = vec![day_node(Some("0"), Some("1")), day_node(Some("0"), Some("2"))];
    let week = ContributionWeek::from_nodes(&nodes).unwrap();
    assert_eq!(week.contributions[0], Some(Contribution { heat_level: 2 }));
}

#[test]
fn first_failing_node_aborts_the_week() {
    let nodes = vec![
        day_node(None, Some("1")),
        day_node(Some("fifteen"), Some("2")),
    ];
    let result = ContributionWeek::from_nodes(&nodes);
    assert_eq!(
        result,
        Err(HeatmapError::QueryAttribute {
            attr: "y".to_string(),
            on_alias: "heatmap node".to_string()
        })
    );
}

#[test]
fn empty_column_is_an_error_not_an_empty_week() {
    let columns = vec![vec![], vec![day_node(Some("0"), Some("1"))]];
    let result = Heatmap::from_columns(&columns);
    assert_eq!(
        result,
        Err(HeatmapError::QueryElement {
            alias: "heatmap node".to_string(),
            selector: "rect.ContributionCalendar-day".to_string(),
        })
    );
}

#[test]
fn no_columns_is_an_error_not_an_empty_heatmap() {
    let columns: Vec<Vec<DayNode>> = vec![];
    let result = Heatmap::from_columns(&columns);
    assert_eq!(
        result,
        Err(HeatmapError::QueryElement {
            alias: "heatmap".to_string(),
            selector: "svg.js-calendar-graph-svg g g".to_string(),
        })
    );
}

#[test]
fn document_without_columns_is_rejected() {
    let fragment = Html::parse_fragment("<p>no calendar here</p>");
    let result = Heatmap::from_document(&fragment);
    assert_eq!(
        result,
        Err(HeatmapError::QueryElement {
            alias: "heatmap".to_string(),
            selector: "svg.js-calendar-graph-svg g g".to_string(),
        })
    );
}

#[test]
fn renders_day_major_lines_with_blank_and_filled_cells() {
    let empty_day: Option<Contribution> = None;
    let week_one = ContributionWeek {
        contributions: vec![empty_day; 7],
    };
    let mut populated = vec![empty_day; 7];
    populated[0] = Some(Contribution { heat_level: 1 });
    let week_two = ContributionWeek {
        contributions: populated,
    };
    let heatmap = Heatmap {
        contribution_weeks: vec![week_one, week_two],
    };

    let lines = heatmap.render_lines(&ColorValues::Red);
    assert_eq!(lines.len(), 7);

    let glyph = "\u{025A0} ".color(Color::TrueColor { r: 64, g: 0, b: 0 }).to_string();
    let mut expected_first = "  ".to_string();
    expected_first.push_str(&glyph);
    assert_eq!(lines[0], expected_first);
}

#[test]
fn renders_plain_heatmap_without_color() {
    let empty_day: Option<Contribution> = None;
    let mut populated = vec![empty_day; 7];
    populated[0] = Some(Contribution { heat_level: 3 });
    populated[6] = Some(Contribution { heat_level: 1 });
    let heatmap = ContributionHeatmap {
        contribution_weeks: vec![
            ContributionWeek { contributions: vec![empty_day; 7] },
            ContributionWeek { contributions: populated },
        ],
    };

    let lines = heatmap.render();
    assert_eq!(lines.len(), 7);
    assert_eq!(lines[0], "  \u{025A0} ");
    assert_eq!(lines[1], "    ");
    assert_eq!(lines[6], "  \u{025A0} ");
}

#[test]
fn rendered_cell_contains_the_glyph() {
    let cell = Contribution { heat_level: 2 }.render(&ColorValues::Green);
    assert!(cell.contains("\u{025A0} "));
}

#[test]
fn lenient_build_gives_one_week_per_column() {
    let columns: Vec<Vec<DayNode>> = vec![];
    let heatmap = ContributionHeatmap::from_columns(&columns).unwrap();
    assert_eq!(heatmap.contribution_weeks.len(), 0);

    let columns = vec![vec![], vec![day_node(Some("30"), Some("2"))]];
    let heatmap = ContributionHeatmap::from_columns(&columns).unwrap();
    assert_eq!(heatmap.contribution_weeks.len(), 2);
    assert_eq!(heatmap.contribution_weeks[0].contributions, vec![None; 7]);
    assert_eq!(
        heatmap.contribution_weeks[1].contributions[2],
        Some(Contribution { heat_level: 2 })
    );

    let columns = vec![vec![day_node(None, Some("1"))]];
    let error = ContributionHeatmap::from_columns(&columns).unwrap_err();
    assert_eq!(
        error,
        HeatmapError::QueryAttribute {
            attr: "y".to_string(),
            on_alias: "heatmap node".to_string()
        }
    );
}

#[test]
fn lenient_heatmap_accepts_sparse_documents() {
    let fragment = Html::parse_fragment("<p>no calendar here</p>");
    let heatmap = ContributionHeatmap::from_document(&fragment).unwrap();
    assert_eq!(heatmap.contribution_weeks.len(), 0);

    let fragment = Html::parse_fragment(
        r#"
            <svg class="js-calendar-graph-svg">
                <g>
                    <g>
                        <rect y='30' data-level='2' class="ContributionCalendar-day" />
                    </g>
                </g>
            </svg>
        "#,
    );
    let heatmap = ContributionHeatmap::from_document(&fragment).unwrap();
    assert_eq!(heatmap.contribution_weeks.len(), 1);
    assert_eq!(
        heatmap.contribution_weeks[0].contributions[2],
        Some(Contribution { heat_level: 2 })
    );
}

#[test]
fn describes_errors_in_words() {
    let error = HeatmapError::QueryAttribute {
        attr: "y".to_string(),
        on_alias: "heatmap node".to_string(),
    };
    assert_eq!(error.message(), "Failed to query attribute 'y' on 'heatmap node'!");

    let error = HeatmapError::UnknownNodeFormat;
    assert_eq!(
        error.message(),
        "Failed to parse Heatmap nodes. Unknown node size scraped from Github frontend."
    );
}
