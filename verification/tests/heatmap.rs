use github_heatmap::{Contribution, ContributionWeek, DAY_SELECTOR, Heatmap, HeatmapError};
use scraper::{Html, Selector};

#[test]
fn constructs_heatmap() {
    let fragment = Html::parse_fragment(
        r#"
            <svg class="js-calendar-graph-svg">
                <g>
                    <g>
                        <rect y='45' data-level='1' class="ContributionCalendar-day" />
                        <rect y='60' data-level='2' class="ContributionCalendar-day" />
                        <rect y='75' data-level='3' class="ContributionCalendar-day" />
                        <rect y='90' data-level='4' class="ContributionCalendar-day" />
                    </g>
                    <g>
                        <rect y='0' data-level='1' class="ContributionCalendar-day" />
                        <rect y='15' data-level='2' class="ContributionCalendar-day" />
                        <rect y='30' data-level='3' class="ContributionCalendar-day" />
                        <rect y='45' data-level='4' class="ContributionCalendar-day" />
                        <rect y='60' data-level='4' class="ContributionCalendar-day" />
                        <rect y='75' data-level='4' class="ContributionCalendar-day" />
                        <rect y='90' data-level='4' class="ContributionCalendar-day" />
                    </g>
               </g>
            </svg>
        "#,
    );

    let heatmap = Heatmap::from_document(&fragment).unwrap();
    let expected = Heatmap {
        contribution_weeks: vec![
            ContributionWeek {
                contributions: vec![
                    None,
                    None,
                    None,
                    Some(Contribution { heat_level: 1 }),
                    Some(Contribution { heat_level: 2 }),
                    Some(Contribution { heat_level: 3 }),
                    Some(Contribution { heat_level: 4 }),
                ],
            },
            ContributionWeek {
                contributions: vec![
                    Some(Contribution { heat_level: 1 }),
                    Some(Contribution { heat_level: 2 }),
                    Some(Contribution { heat_level: 3 }),
                    Some(Contribution { heat_level: 4 }),
                    Some(Contribution { heat_level: 4 }),
                    Some(Contribution { heat_level: 4 }),
                    Some(Contribution { heat_level: 4 }),
                ],
            },
        ],
    };

    assert_eq!(heatmap, expected)
}

#[test]
fn gets_contribution_week() {
    let fragment = Html::parse_fragment(
        r#"
            <g>
                <rect y='0' data-level='1' class="ContributionCalendar-day" />
                <rect y='15' data-level='2' class="ContributionCalendar-day" />
                <rect y='30' data-level='3' class="ContributionCalendar-day" />
                <rect y='45' data-level='4' class="ContributionCalendar-day" />
                <rect y='60' data-level='4' class="ContributionCalendar-day" />
                <rect y='75' data-level='4' class="ContributionCalendar-day" />
                <rect y='90' data-level='4' class="ContributionCalendar-day" />
            </g>
        "#,
    );

    let el = fragment.root_element();
    let selector = Selector::parse(DAY_SELECTOR).unwrap();
    let contribution_week = Heatmap::get_contribution_week(&el, &selector).unwrap();

    let expected = ContributionWeek {
        contributions: vec![
            Some(Contribution { heat_level: 1 }),
            Some(Contribution { heat_level: 2 }),
            Some(Contribution { heat_level: 3 }),
            Some(Contribution { heat_level: 4 }),
            Some(Contribution { heat_level: 4 }),
            Some(Contribution { heat_level: 4 }),
            Some(Contribution { heat_level: 4 }),
        ],
    };

    assert_eq!(contribution_week, expected)
}

#[test]
fn error_if_cannot_parse_contribution_week() {
    let fragment = Html::parse_fragment(
        r#"
            <rect y='0' data-level='1' class="InvalidClass" />
            <rect y='15' data-level='2' class="InvalidClass" />
            <rect y='30' data-level='3' class="InvalidClass" />
            <rect y='45' data-level='4' class="InvalidClass" />
            <rect y='60' data-level='4' class="InvalidClass" />
            <rect y='75' data-level='4' class="InvalidClass" />
            <rect y='90' data-level='4' class="InvalidClass" />
        "#,
    );

    let el = fragment.root_element();
    let selector = Selector::parse(DAY_SELECTOR).unwrap();
    let contribution_week = Heatmap::get_contribution_week(&el, &selector);
    let expected = Err(HeatmapError::QueryElement {
        alias: "heatmap node".to_string(),
        selector: DAY_SELECTOR.to_string(),
    });

    assert_eq!(contribution_week, expected)
}
