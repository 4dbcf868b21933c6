use thermometer::config::Team;
use thermometer::config::ThermometerConfig;
use thermometer::config::team_amounts;
use thermometer::geometry::layout;
use thermometer::geometry::percent_of_ppm;
use thermometer::geometry::round_div;
use thermometer::numfmt::fmt_hundredths;
use thermometer::numfmt::fmt_u128_dec;
use thermometer::palette::Theme;
use thermometer::progress::compute_completion;
use thermometer::progress::sum_cents;
use thermometer::scene::compose;
use thermometer::scene::fallback_scene;
use thermometer::scene::generate_thermometer_svg;

fn demo_config(goal_cents: i64) -> ThermometerConfig {
    ThermometerConfig {
        organization_name: String::from("Community Animal Rescue Effort"),
        title: String::from("Animal Shelter Donation Drive"),
        goal_cents,
        teams: vec![
            Team {
                name: String::from("Team Alpha"),
                image_url: Some(String::from("https://example.com/alpha.jpg")),
                total_raised_cents: 250_000,
            },
            Team {
                name: String::from("Team Beta"),
                image_url: None,
                total_raised_cents: 320_050,
            },
            Team {
                name: String::from("Team Gamma"),
                image_url: None,
                total_raised_cents: 180_000,
            },
        ],
        last_updated: String::from("2024-12-01T00:00:00Z"),
    }
}

// Reads a two-decimal numeral back into hundredths, as a cross-check that
// displayed strings carry exactly the rounded values.
fn parse_hundredths(s: &str) -> i64 {
    let neg = s.starts_with('-');
    let body = if neg { &s[1..] } else { s };
    let dot = body.find('.').expect("two-decimal numeral");
    assert_eq!(body.len() - dot, 3, "exactly two fractional digits");
    let whole: i64 = body[..dot].parse().unwrap();
    let frac: i64 = body[dot + 1..].parse().unwrap();
    let v = whole * 100 + frac;
    if neg { -v } else { v }
}

#[test]
fn completion_of_demo_teams_is_75_005_percent() {
    let amounts = vec![250_000i64, 320_050, 180_000];
    assert_eq!(compute_completion(1_000_000, &amounts), 750_050);
    assert_eq!(percent_of_ppm(750_050), 75);
}

#[test]
fn completion_is_clamped_to_one_when_goal_is_reached() {
    assert_eq!(compute_completion(1_000_000, &vec![1_000_000]), 1_000_000);
    assert_eq!(compute_completion(1_000_000, &vec![999_999, 2]), 1_000_000);
    assert_eq!(compute_completion(1, &vec![900_000_000]), 1_000_000);
}

#[test]
fn completion_is_zero_for_nonpositive_goal() {
    assert_eq!(compute_completion(0, &vec![250_000, 320_050]), 0);
    assert_eq!(compute_completion(-500, &vec![250_000]), 0);
    assert_eq!(compute_completion(0, &vec![]), 0);
}

#[test]
fn completion_is_clamped_to_zero_for_negative_sums() {
    assert_eq!(compute_completion(1_000_000, &vec![-250_000]), 0);
    assert_eq!(compute_completion(1_000_000, &vec![100, -300]), 0);
}

#[test]
fn completion_rounds_to_the_nearest_millionth() {
    // 1 / 3 of the goal: 333333.33... rounds down.
    assert_eq!(compute_completion(300, &vec![100]), 333_333);
    // 2 / 3 of the goal: 666666.66... rounds up.
    assert_eq!(compute_completion(300, &vec![200]), 666_667);
}

#[test]
fn sums_pass_negative_and_large_amounts_through() {
    assert_eq!(sum_cents(&vec![250_000, 320_050, 180_000]), 750_050);
    assert_eq!(sum_cents(&vec![-100, 40]), -60);
    assert_eq!(sum_cents(&vec![i64::MAX, i64::MAX]), 2 * (i64::MAX as i128));
    assert_eq!(sum_cents(&vec![]), 0);
}

#[test]
fn team_amounts_keep_configuration_order() {
    let config = demo_config(1_000_000);
    assert_eq!(team_amounts(&config.teams), vec![250_000, 320_050, 180_000]);
}

#[test]
fn layout_at_width_800_has_the_documented_frame() {
    let r = layout(800, 750_050, Theme::Light);
    assert_eq!(r.width, 800);
    // height = width * 1.2
    assert_eq!(r.height, 960);
    // Bounding box x=80, y=144, w=280, h=576, all in hundredths below:
    // tube y is the bounding y; the bulb radius is 0.4 * 280 = 112; the
    // tube height is 576 - 112 = 464; the tube is centered in the box:
    // x = 80 + (280 - 98) / 2 = 171.
    assert_eq!(r.tube_y, 14_400);
    assert_eq!(r.bulb_radius, 11_200);
    assert_eq!(r.tube_height, 46_400);
    assert_eq!(r.tube_x, 17_100);
    assert_eq!(r.tube_width, 9_800);
}

#[test]
fn layout_at_width_800_derives_the_remaining_geometry() {
    let r = layout(800, 750_050, Theme::Light);
    assert_eq!(r.title_x, 40_000);
    assert_eq!(r.title_y, 9_600);
    assert_eq!(r.title_font_size, 2_800);
    assert_eq!(r.fill_x, 17_350);
    assert_eq!(r.fill_width, 9_300);
    assert_eq!(r.bulb_center_x, 22_000);
    assert_eq!(r.bulb_center_y, 72_000);
    assert_eq!(r.bulb_fill_radius, 10_900);
    assert_eq!(r.text_x, 44_000);
    assert_eq!(r.achieved_y, 33_600);
    assert_eq!(r.achieved_label_y, 36_000);
    assert_eq!(r.goal_y, 52_800);
    assert_eq!(r.goal_label_y, 55_200);
    assert_eq!(r.percent_y, 72_000);
    assert_eq!(r.percent_label_y, 74_000);
    assert_eq!(r.amount_font_size, 4_800);
    assert_eq!(r.label_font_size, 2_000);
    assert_eq!(r.percent_font_size, 7_200);
    assert_eq!(r.percent_label_font_size, 1_760);
    assert_eq!(r.percent_display, 75);
}

#[test]
fn fill_height_is_tube_height_times_completion() {
    // tube height 464.00 times 0.750050 is 348.0232, rounded to 348.02.
    let r = layout(800, 750_050, Theme::Light);
    assert_eq!(r.fill_height, 34_802);
    assert_eq!(r.fill_y, 25_998);
}

#[test]
fn fill_is_empty_at_zero_completion() {
    let r = layout(800, 0, Theme::Light);
    assert_eq!(r.fill_height, 0);
    // The empty fill sits at the tube's bottom edge.
    assert_eq!(r.fill_y, 60_800);
    assert_eq!(r.percent_display, 0);
}

#[test]
fn fill_reaches_the_tube_top_at_full_completion() {
    let r = layout(800, 1_000_000, Theme::Light);
    assert_eq!(r.fill_height, r.tube_height);
    assert_eq!(r.fill_y, r.tube_y);
    assert_eq!(r.percent_display, 100);
}

#[test]
fn markers_stand_at_the_six_fixed_levels_top_first() {
    let r = layout(800, 750_050, Theme::Light);
    let levels: Vec<u32> = r.markers.iter().map(|m| m.percentage).collect();
    assert_eq!(levels, vec![100, 80, 60, 40, 20, 0]);
    let ys: Vec<i64> = r.markers.iter().map(|m| m.y).collect();
    assert_eq!(ys, vec![14_400, 23_680, 32_960, 42_240, 51_520, 60_800]);
    for m in &r.markers {
        assert_eq!(m.line_x1, 9_600);
        assert_eq!(m.line_x2, 16_600);
        assert_eq!(m.text_x, 9_100);
        assert_eq!(m.text_y, m.y + 560);
        assert_eq!(m.font_size, 1_600);
    }
}

#[test]
fn layout_is_deterministic_and_ignores_the_theme() {
    let a = layout(800, 750_050, Theme::Light);
    let b = layout(800, 750_050, Theme::Dark);
    assert_eq!(a.markers, b.markers);
    assert_eq!(a.tube_x, b.tube_x);
    assert_eq!(a.fill_height, b.fill_height);
    assert_eq!(a.fill_y, b.fill_y);
    assert_eq!(a.percent_display, b.percent_display);
    assert_eq!(a.height, b.height);
}

#[test]
fn doubling_the_width_doubles_the_proportional_dimensions() {
    let small = layout(800, 750_050, Theme::Light);
    let large = layout(1_600, 750_050, Theme::Light);
    assert_eq!(large.height, 2 * small.height);
    assert_eq!(large.tube_x, 2 * small.tube_x);
    assert_eq!(large.tube_y, 2 * small.tube_y);
    assert_eq!(large.tube_width, 2 * small.tube_width);
    assert_eq!(large.tube_height, 2 * small.tube_height);
    assert_eq!(large.title_font_size, 2 * small.title_font_size);
    assert_eq!(large.amount_font_size, 2 * small.amount_font_size);
    assert_eq!(large.bulb_radius, 2 * small.bulb_radius);
    // Rounded dimensions may drift by half a hundredth of the factor.
    assert!((large.fill_height - 2 * small.fill_height).abs() <= 1);
    // Absolute pixel insets do not scale, by design.
    assert_eq!(large.bulb_fill_radius, 2 * small.bulb_radius - 300);
}

#[test]
fn round_div_rounds_halves_away_from_zero() {
    assert_eq!(round_div(5, 2), 3);
    assert_eq!(round_div(-5, 2), -3);
    assert_eq!(round_div(4, 2), 2);
    assert_eq!(round_div(7, 10), 1);
    assert_eq!(round_div(-7, 10), -1);
    assert_eq!(round_div(4, 10), 0);
    assert_eq!(round_div(0, 7), 0);
}

#[test]
fn percent_display_rounds_to_whole_percent() {
    assert_eq!(percent_of_ppm(750_050), 75);
    assert_eq!(percent_of_ppm(0), 0);
    assert_eq!(percent_of_ppm(1_000_000), 100);
    assert_eq!(percent_of_ppm(994_999), 99);
    assert_eq!(percent_of_ppm(995_000), 100);
    assert_eq!(percent_of_ppm(4_999), 0);
    assert_eq!(percent_of_ppm(5_000), 1);
}

#[test]
fn hundredths_format_to_exactly_two_decimals() {
    assert_eq!(fmt_hundredths(750_050), "7500.50");
    assert_eq!(fmt_hundredths(34_802), "348.02");
    assert_eq!(fmt_hundredths(0), "0.00");
    assert_eq!(fmt_hundredths(99), "0.99");
    assert_eq!(fmt_hundredths(100), "1.00");
    assert_eq!(fmt_hundredths(-5), "-0.05");
    assert_eq!(fmt_hundredths(-123_456), "-1234.56");
    assert_eq!(fmt_u128_dec(0), "0");
    assert_eq!(fmt_u128_dec(960), "960");
}

#[test]
fn displayed_numerals_read_back_to_their_values() {
    for v in [750_050i64, 34_802, 0, 99, 100, -5, -123_456, 25_998] {
        assert_eq!(parse_hundredths(&fmt_hundredths(v as i128)), v);
    }
}

#[test]
fn scene_carries_the_intrinsic_size_and_closes() {
    let config = demo_config(1_000_000);
    let svg = generate_thermometer_svg(&config, 800, Theme::Light);
    assert!(svg.starts_with(
        "<svg width=\"800\" height=\"960\" viewBox=\"0 0 800 960\" xmlns=\"http://www.w3.org/2000/svg\">"
    ));
    assert!(svg.ends_with("</svg>"));
}

#[test]
fn scene_displays_the_exact_rounded_metrics() {
    let config = demo_config(1_000_000);
    let svg = generate_thermometer_svg(&config, 800, Theme::Light);
    assert!(svg.contains(">$7500.50</text>"));
    assert!(svg.contains(">$10000.00</text>"));
    assert!(svg.contains(">75%</text>"));
    assert!(svg.contains(
        "<rect x=\"173.50\" y=\"259.98\" width=\"93.00\" height=\"348.02\" fill=\"url(#fillGradient)\"/>"
    ));
}

#[test]
fn scene_has_six_markers_and_one_gradient() {
    let config = demo_config(1_000_000);
    let svg = generate_thermometer_svg(&config, 800, Theme::Light);
    assert_eq!(svg.matches("<line ").count(), 6);
    assert!(svg.contains(">100%</text>"));
    assert!(svg.contains(">0%</text>"));
    assert_eq!(svg.matches("<linearGradient").count(), 1);
    // The gradient paints the fill rectangle and the bulb's inner circle.
    assert_eq!(svg.matches("url(#fillGradient)").count(), 2);
}

#[test]
fn scene_is_byte_identical_for_identical_inputs() {
    let config = demo_config(1_000_000);
    let a = generate_thermometer_svg(&config, 800, Theme::Light);
    let b = generate_thermometer_svg(&config, 800, Theme::Light);
    assert_eq!(a, b);
}

#[test]
fn themes_select_their_palettes_only() {
    let config = demo_config(1_000_000);
    let light = generate_thermometer_svg(&config, 800, Theme::Light);
    let dark = generate_thermometer_svg(&config, 800, Theme::Dark);
    assert!(light.contains("#DC143C"));
    assert!(light.contains("fill=\"white\""));
    assert!(dark.contains("#FF4444"));
    assert!(dark.contains("#1a1a1a"));
    assert!(!dark.contains("#DC143C"));
    // Same geometry in both: the fill rectangle is byte-identical.
    assert!(dark.contains(
        "<rect x=\"173.50\" y=\"259.98\" width=\"93.00\" height=\"348.02\" fill=\"url(#fillGradient)\"/>"
    ));
}

#[test]
fn zero_goal_scene_shows_an_empty_gauge() {
    let config = demo_config(0);
    let svg = generate_thermometer_svg(&config, 800, Theme::Light);
    assert!(svg.contains("height=\"0.00\" fill=\"url(#fillGradient)\""));
    assert!(svg.contains(">0%</text>"));
    // The amounts still pass through unchanged.
    assert!(svg.contains(">$7500.50</text>"));
}

#[test]
fn compose_works_from_a_record_alone() {
    let rec = layout(800, 750_050, Theme::Light);
    let svg = compose(&rec, 750_050, 1_000_000, Theme::Light);
    let config = demo_config(1_000_000);
    assert_eq!(svg, generate_thermometer_svg(&config, 800, Theme::Light));
}

#[test]
fn empty_team_list_shows_an_empty_gauge() {
    let config = ThermometerConfig {
        organization_name: String::from("Org"),
        title: String::from("Drive"),
        goal_cents: 1_000_000,
        teams: vec![],
        last_updated: String::new(),
    };
    let svg = generate_thermometer_svg(&config, 800, Theme::Light);
    assert!(svg.contains(">$0.00</text>"));
    assert!(svg.contains(">0%</text>"));
    assert!(svg.contains("height=\"0.00\" fill=\"url(#fillGradient)\""));
}

#[test]
fn negative_amounts_flow_into_the_displayed_sum() {
    let config = ThermometerConfig {
        organization_name: String::from("Org"),
        title: String::from("Drive"),
        goal_cents: 1_000_000,
        teams: vec![Team {
            name: String::from("Refunds"),
            image_url: None,
            total_raised_cents: -12_345,
        }],
        last_updated: String::new(),
    };
    let svg = generate_thermometer_svg(&config, 800, Theme::Light);
    // The achieved text passes the negative sum through unchanged, while
    // the completion ratio is clamped to zero.
    assert!(svg.contains(">$-123.45</text>"));
    assert!(svg.contains(">0%</text>"));
    assert!(svg.contains("height=\"0.00\" fill=\"url(#fillGradient)\""));
}

#[test]
fn fallback_scene_is_the_fixed_placeholder() {
    assert_eq!(
        fallback_scene(),
        "<svg><text>Error rendering thermometer</text></svg>"
    );
}
