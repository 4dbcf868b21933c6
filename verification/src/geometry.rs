//! The geometry layout engine.
//!
//! Every dimension of the gauge is a fixed proportion of the output width,
//! so the drawing is resolution independent.  All coordinates are carried in
//! hundredths of a pixel, and each one is the exact rational value of its
//! proportion, rounded to the nearest hundredth (half away from zero): the
//! two-decimal rounding the drawing shows is part of the contract here, not
//! a display nicety.

use vstd::prelude::*;
use crate::palette::Theme;

verus! {

/// The widest drawing the engine accepts: any wider and the canvas height,
/// six fifths of the width, would no longer fit in 32 bits.
pub const MAX_LAYOUT_WIDTH: u32 = 3_579_139_412;

/// A quotient rounded to the nearest integer, halves away from zero.
pub open spec fn spec_round_div(a: int, d: int) -> int {
    if a >= 0 {
        (2 * a + d) / (2 * d)
    } else {
        -((2 * (-a) + d) / (2 * d))
    }
}

/// Rounds `a / d` to the nearest integer, halves away from zero.
pub fn round_div(a: i64, d: i64) -> (r: i64)
    requires
        1 <= d <= 0x2000_0000_0000_0000,
        -0x2000_0000_0000_0000 <= a <= 0x2000_0000_0000_0000,
    ensures
        r == spec_round_div(a as int, d as int),
{
    if a >= 0 {
        (2 * a + d) / (2 * d)
    } else {
        -((2 * (-a) + d) / (2 * d))
    }
}

/// The canvas height: six fifths of the width, rounded down.
pub open spec fn spec_height(w: int) -> int {
    6 * w / 5
}

/// Horizontal center of the title line, in hundredths.
pub open spec fn spec_title_x(w: int) -> int {
    50 * w
}

/// Baseline of the title line.
pub open spec fn spec_title_y(w: int) -> int {
    10 * spec_height(w)
}

/// Font size of the title line.
pub open spec fn spec_title_font(w: int) -> int {
    spec_round_div(7 * w, 2)
}

/// Left edge of the tube.
pub open spec fn spec_tube_x(w: int) -> int {
    spec_round_div(171 * w, 8)
}

/// Top edge of the tube.
pub open spec fn spec_tube_y(w: int) -> int {
    15 * spec_height(w)
}

/// Width of the tube.
pub open spec fn spec_tube_width(w: int) -> int {
    spec_round_div(49 * w, 4)
}

/// Height of the tube: the thermometer's bounding height less the bulb
/// radius.  This one is exact, no rounding is involved.
pub open spec fn spec_tube_height(w: int) -> int {
    60 * spec_height(w) - 14 * w
}

/// Left edge of the fill rectangle: the tube's, inset by 2.5 pixels.
pub open spec fn spec_fill_x(w: int) -> int {
    spec_round_div(171 * w + 2000, 8)
}

/// Width of the fill rectangle: the tube's, less 5 pixels.
pub open spec fn spec_fill_width(w: int) -> int {
    spec_round_div(49 * w - 2000, 4)
}

/// Height of the fill rectangle: the tube height times the completion.
pub open spec fn spec_fill_height(w: int, ppm: int) -> int {
    spec_round_div(spec_tube_height(w) * ppm, 1_000_000)
}

/// Top edge of the fill rectangle: it is anchored to the tube's bottom.
pub open spec fn spec_fill_y(w: int, ppm: int) -> int {
    spec_round_div(
        (15 * spec_height(w) + spec_tube_height(w)) * 1_000_000 - spec_tube_height(w) * ppm,
        1_000_000,
    )
}

/// Horizontal center of the bulb.
pub open spec fn spec_bulb_center_x(w: int) -> int {
    spec_round_div(55 * w, 2)
}

/// Vertical center of the bulb: directly below the tube, offset down by its
/// own radius.
pub open spec fn spec_bulb_center_y(w: int) -> int {
    75 * spec_height(w)
}

/// Radius of the bulb outline.
pub open spec fn spec_bulb_radius(w: int) -> int {
    14 * w
}

/// Radius of the bulb's inner fill: the outline's, less 3 pixels.
pub open spec fn spec_bulb_fill_radius(w: int) -> int {
    14 * w - 300
}

/// Left edge of the text column.
pub open spec fn spec_text_x(w: int) -> int {
    55 * w
}

/// Baseline of the achieved-amount row.
pub open spec fn spec_achieved_y(w: int) -> int {
    35 * spec_height(w)
}

/// Baseline of the label under the achieved amount.
pub open spec fn spec_achieved_label_y(w: int) -> int {
    35 * spec_height(w) + 3 * w
}

/// Baseline of the goal row.
pub open spec fn spec_goal_y(w: int) -> int {
    55 * spec_height(w)
}

/// Baseline of the label under the goal amount.
pub open spec fn spec_goal_label_y(w: int) -> int {
    55 * spec_height(w) + 3 * w
}

/// Baseline of the percentage row.
pub open spec fn spec_percent_y(w: int) -> int {
    75 * spec_height(w)
}

/// Baseline of the label under the percentage.
pub open spec fn spec_percent_label_y(w: int) -> int {
    spec_round_div(150 * spec_height(w) + 5 * w, 2)
}

/// Font size of the two amount rows.
pub open spec fn spec_amount_font(w: int) -> int {
    6 * w
}

/// Font size of the two small labels.
pub open spec fn spec_label_font(w: int) -> int {
    spec_round_div(5 * w, 2)
}

/// Font size of the percentage row.
pub open spec fn spec_percent_font(w: int) -> int {
    9 * w
}

/// Font size of the label under the percentage.
pub open spec fn spec_percent_label_font(w: int) -> int {
    spec_round_div(11 * w, 5)
}

/// Font size of the marker labels.
pub open spec fn spec_marker_font(w: int) -> int {
    2 * w
}

/// The percentage level of the marker at position `i`, top first:
/// 100, 80, 60, 40, 20, 0.
pub open spec fn spec_marker_level(i: int) -> int {
    100 - 20 * i
}

/// Height of the marker for level `p`: at the tube top for 100, at its
/// bottom for 0.
pub open spec fn spec_marker_y(w: int, p: int) -> int {
    spec_round_div(1500 * spec_height(w) + spec_tube_height(w) * (100 - p), 100)
}

/// Left end of a marker tick line.
pub open spec fn spec_marker_line_x1(w: int) -> int {
    spec_round_div(101 * w - 4000, 8)
}

/// Right end of a marker tick line: 5 pixels left of the tube.
pub open spec fn spec_marker_line_x2(w: int) -> int {
    spec_round_div(171 * w - 4000, 8)
}

/// Right-anchored x of a marker label: 5 pixels left of its tick line.
pub open spec fn spec_marker_text_x(w: int) -> int {
    spec_round_div(101 * w - 8000, 8)
}

/// Baseline of a marker label: its line height corrected down by
/// `0.35 * fontSize`.
pub open spec fn spec_marker_text_y(w: int, p: int) -> int {
    spec_round_div(1500 * spec_height(w) + spec_tube_height(w) * (100 - p) + 70 * w, 100)
}

/// The whole percent figure shown in the big percentage row.
pub open spec fn spec_percent_display(ppm: int) -> int {
    spec_round_div(ppm, 10_000)
}

/// One percentage marker: a tick line beside the tube and its label.
/// All coordinates are in hundredths of a pixel.
#[derive(Clone, Copy, Debug, PartialEq, Eq, Structural)]
pub struct Marker {
    pub line_x1: i64,
    pub y: i64,
    pub line_x2: i64,
    pub text_x: i64,
    pub text_y: i64,
    pub font_size: i64,
    pub percentage: u32,
}

/// Everything the scene needs to draw one gauge: each coordinate, size and
/// font in hundredths of a pixel, the markers top first, and the rounded
/// whole percentage.  A record is a pure value: it has no identity beyond
/// its fields.
#[derive(Debug)]
pub struct GeometryRecord {
    pub width: u32,
    pub height: u32,
    pub title_x: i64,
    pub title_y: i64,
    pub title_font_size: i64,
    pub tube_x: i64,
    pub tube_y: i64,
    pub tube_width: i64,
    pub tube_height: i64,
    pub fill_x: i64,
    pub fill_y: i64,
    pub fill_width: i64,
    pub fill_height: i64,
    pub bulb_center_x: i64,
    pub bulb_center_y: i64,
    pub bulb_radius: i64,
    pub bulb_fill_radius: i64,
    pub markers: Vec<Marker>,
    pub text_x: i64,
    pub achieved_y: i64,
    pub achieved_label_y: i64,
    pub goal_y: i64,
    pub goal_label_y: i64,
    pub percent_y: i64,
    pub percent_label_y: i64,
    pub amount_font_size: i64,
    pub label_font_size: i64,
    pub percent_font_size: i64,
    pub percent_label_font_size: i64,
    pub percent_display: u32,
}

/// The marker at position `i` carries exactly the derived coordinates for
/// its level.
pub open spec fn marker_matches(m: Marker, w: int, i: int) -> bool {
    &&& m.line_x1 == spec_marker_line_x1(w)
    &&& m.y == spec_marker_y(w, spec_marker_level(i))
    &&& m.line_x2 == spec_marker_line_x2(w)
    &&& m.text_x == spec_marker_text_x(w)
    &&& m.text_y == spec_marker_text_y(w, spec_marker_level(i))
    &&& m.font_size == spec_marker_font(w)
    &&& m.percentage == spec_marker_level(i)
}

/// The record holds exactly the geometry derived from `(w, ppm)`.  The
/// theme is absent on purpose: it selects colors only and moves nothing.
pub open spec fn layout_matches(r: GeometryRecord, w: int, ppm: int) -> bool {
    &&& r.width == w
    &&& r.height == spec_height(w)
    &&& r.title_x == spec_title_x(w)
    &&& r.title_y == spec_title_y(w)
    &&& r.title_font_size == spec_title_font(w)
    &&& r.tube_x == spec_tube_x(w)
    &&& r.tube_y == spec_tube_y(w)
    &&& r.tube_width == spec_tube_width(w)
    &&& r.tube_height == spec_tube_height(w)
    &&& r.fill_x == spec_fill_x(w)
    &&& r.fill_y == spec_fill_y(w, ppm)
    &&& r.fill_width == spec_fill_width(w)
    &&& r.fill_height == spec_fill_height(w, ppm)
    &&& r.bulb_center_x == spec_bulb_center_x(w)
    &&& r.bulb_center_y == spec_bulb_center_y(w)
    &&& r.bulb_radius == spec_bulb_radius(w)
    &&& r.bulb_fill_radius == spec_bulb_fill_radius(w)
    &&& r.markers@.len() == 6
    &&& forall|i: int| 0 <= i < 6 ==> marker_matches(#[trigger] r.markers@[i], w, i)
    &&& r.text_x == spec_text_x(w)
    &&& r.achieved_y == spec_achieved_y(w)
    &&& r.achieved_label_y == spec_achieved_label_y(w)
    &&& r.goal_y == spec_goal_y(w)
    &&& r.goal_label_y == spec_goal_label_y(w)
    &&& r.percent_y == spec_percent_y(w)
    &&& r.percent_label_y == spec_percent_label_y(w)
    &&& r.amount_font_size == spec_amount_font(w)
    &&& r.label_font_size == spec_label_font(w)
    &&& r.percent_font_size == spec_percent_font(w)
    &&& r.percent_label_font_size == spec_percent_label_font(w)
    &&& r.percent_display == spec_percent_display(ppm)
}

/// Derives every coordinate, dimension and font size of the gauge from the
/// output width and the completion ratio.  The theme is accepted for the
/// caller's convenience and deliberately ignored: it never affects
/// geometry.  The fill height is never negative.
pub fn layout(width: u32, completion_ppm: u32, theme: Theme) -> (r: GeometryRecord)
    requires
        1 <= width <= MAX_LAYOUT_WIDTH,
        completion_ppm <= 1_000_000,
    ensures
        layout_matches(r, width as int, completion_ppm as int),
        0 <= r.fill_height <= r.tube_height,
        r.tube_height > 0,
{
    let _ = theme;
    let w: i64 = width as i64;
    let ppm: i64 = completion_ppm as i64;
    let h: i64 = 6 * w / 5;
    proof {
        vstd::arithmetic::div_mod::lemma_fundamental_div_mod(6 * (width as int), 5);
        vstd::arithmetic::div_mod::lemma_mod_division_less_than_divisor(6 * (width as int), 5);
        assert(5 * spec_height(width as int) <= 6 * (width as int));
        assert(60 * spec_height(width as int) >= 72 * (width as int) - 48);
    }
    let tube_height: i64 = 60 * h - 14 * w;
    proof {
        assert(tube_height * ppm <= tube_height * 1_000_000 && tube_height * ppm >= 0)
            by (nonlinear_arith)
            requires
                0 <= ppm <= 1_000_000,
                tube_height >= 0,
        ;
        lemma_round_div_nonneg(tube_height as int * ppm as int, 1_000_000);
        lemma_round_div_ordered(
            tube_height as int * ppm as int,
            tube_height as int * 1_000_000,
            1_000_000,
        );
        lemma_round_div_exact(tube_height as int, 1_000_000);
    }
    let fill_height: i64 = round_div(tube_height * ppm, 1_000_000);
    let mut markers: Vec<Marker> = Vec::new();
    let mut i: u32 = 0;
    while i < 6
        invariant
            i <= 6,
            1 <= width <= MAX_LAYOUT_WIDTH,
            w == width as int,
            h == spec_height(width as int),
            0 <= h,
            5 * h <= 6 * (width as int),
            tube_height == spec_tube_height(width as int),
            0 <= tube_height <= 72 * (width as int),
            markers@.len() == i,
            forall|j: int| 0 <= j < i ==> marker_matches(#[trigger] markers@[j], width as int, j),
        decreases 6 - i,
    {
        let p: i64 = 100 - 20 * (i as i64);
        proof {
            assert(tube_height * (100 - p) <= tube_height * 100 && tube_height * (100 - p) >= 0)
                by (nonlinear_arith)
                requires
                    0 <= 100 - p <= 100,
                    tube_height >= 0,
            ;
        }
        let y_num: i64 = 1500 * h + tube_height * (100 - p);
        let m = Marker {
            line_x1: round_div(101 * w - 4000, 8),
            y: round_div(y_num, 100),
            line_x2: round_div(171 * w - 4000, 8),
            text_x: round_div(101 * w - 8000, 8),
            text_y: round_div(y_num + 70 * w, 100),
            font_size: 2 * w,
            percentage: (p as u32),
        };
        markers.push(m);
        i = i + 1;
    }
    GeometryRecord {
        width,
        height: h as u32,
        title_x: 50 * w,
        title_y: 10 * h,
        title_font_size: round_div(7 * w, 2),
        tube_x: round_div(171 * w, 8),
        tube_y: 15 * h,
        tube_width: round_div(49 * w, 4),
        tube_height,
        fill_x: round_div(171 * w + 2000, 8),
        fill_y: round_div((15 * h + tube_height) * 1_000_000 - tube_height * ppm, 1_000_000),
        fill_width: round_div(49 * w - 2000, 4),
        fill_height,
        bulb_center_x: round_div(55 * w, 2),
        bulb_center_y: 75 * h,
        bulb_radius: 14 * w,
        bulb_fill_radius: 14 * w - 300,
        markers,
        text_x: 55 * w,
        achieved_y: 35 * h,
        achieved_label_y: 35 * h + 3 * w,
        goal_y: 55 * h,
        goal_label_y: 55 * h + 3 * w,
        percent_y: 75 * h,
        percent_label_y: round_div(150 * h + 5 * w, 2),
        amount_font_size: 6 * w,
        label_font_size: round_div(5 * w, 2),
        percent_font_size: 9 * w,
        percent_label_font_size: round_div(11 * w, 5),
        percent_display: percent_of_ppm(completion_ppm),
    }
}

/// The whole percent figure for a completion ratio.
pub fn percent_of_ppm(completion_ppm: u32) -> (p: u32)
    requires
        completion_ppm <= 1_000_000,
    ensures
        p == spec_percent_display(completion_ppm as int),
        p <= 100,
{
    let p: u32 = (2 * completion_ppm + 10_000) / 20_000;
    proof {
        vstd::arithmetic::div_mod::lemma_div_is_ordered(
            2 * (completion_ppm as int) + 10_000,
            2_010_000,
            20_000,
        );
    }
    p
}

/// Rounding a quotient of non-negative numbers stays non-negative.
pub proof fn lemma_round_div_nonneg(a: int, d: int)
    requires
        a >= 0,
        d >= 1,
    ensures
        spec_round_div(a, d) >= 0,
{
    vstd::arithmetic::div_mod::lemma_div_pos_is_pos(2 * a + d, 2 * d);
}

/// Rounding is monotone in the numerator.
pub proof fn lemma_round_div_ordered(a1: int, a2: int, d: int)
    requires
        a1 <= a2,
        d >= 1,
    ensures
        spec_round_div(a1, d) <= spec_round_div(a2, d),
{
    if a1 >= 0 {
        vstd::arithmetic::div_mod::lemma_div_is_ordered(2 * a1 + d, 2 * a2 + d, 2 * d);
    } else if a2 >= 0 {
        vstd::arithmetic::div_mod::lemma_div_pos_is_pos(2 * a2 + d, 2 * d);
        vstd::arithmetic::div_mod::lemma_div_pos_is_pos(2 * (-a1) + d, 2 * d);
    } else {
        vstd::arithmetic::div_mod::lemma_div_is_ordered(2 * (-a2) + d, 2 * (-a1) + d, 2 * d);
    }
}

/// An exact multiple of the divisor rounds to itself.
pub proof fn lemma_round_div_exact(q: int, d: int)
    requires
        d >= 1,
        q >= 0,
    ensures
        spec_round_div(q * d, d) == q,
{
    assert(2 * (q * d) + d == q * (2 * d) + d) by (nonlinear_arith);
    vstd::arithmetic::div_mod::lemma_hoist_over_denominator(d, q, (2 * d) as nat);
    assert((q * (2 * d) + d) / (2 * d) == q + d / (2 * d));
    vstd::arithmetic::div_mod::lemma_basic_div(d, 2 * d);
}

/// The rounded quotient is within half a unit of the exact one:
/// `d * round(a / d)` differs from `a` by at most `d / 2`.
pub proof fn lemma_round_div_close(a: int, d: int)
    requires
        d >= 1,
    ensures
        -d <= 2 * d * spec_round_div(a, d) - 2 * a <= d,
{
    if a >= 0 {
        let x = 2 * a + d;
        let q = x / (2 * d);
        vstd::arithmetic::div_mod::lemma_fundamental_div_mod(x, 2 * d);
        vstd::arithmetic::div_mod::lemma_mod_division_less_than_divisor(x, 2 * d);
        assert(2 * d * q == (2 * d) * q) by (nonlinear_arith);
    } else {
        let x = 2 * (-a) + d;
        let q = x / (2 * d);
        vstd::arithmetic::div_mod::lemma_fundamental_div_mod(x, 2 * d);
        vstd::arithmetic::div_mod::lemma_mod_division_less_than_divisor(x, 2 * d);
        assert(2 * d * (-q) == -((2 * d) * q)) by (nonlinear_arith);
    }
}

/// Scaling the numerator scales the rounded quotient, up to the two
/// roundings involved: `round(k * a / d)` differs from `k * round(a / d)`
/// by at most `(k + 1) / 2`.
pub proof fn lemma_round_div_scaled(a: int, d: int, k: int)
    requires
        d >= 1,
        k >= 1,
    ensures
        -(k + 1) <= 2 * (spec_round_div(k * a, d) - k * spec_round_div(a, d)) <= k + 1,
{
    lemma_round_div_close(a, d);
    lemma_round_div_close(k * a, d);
    let r = spec_round_div(a, d);
    let rk = spec_round_div(k * a, d);
    assert(-(k + 1) <= 2 * (rk - k * r) <= k + 1) by (nonlinear_arith)
        requires
            d >= 1,
            k >= 1,
            -d <= 2 * d * r - 2 * a <= d,
            -d <= 2 * d * rk - 2 * (k * a) <= d,
    ;
}

/// Scaling invariance of the layout: enlarging the width by a whole factor
/// `k` enlarges every proportional dimension by exactly `k`, up to the
/// rounding to hundredths.  Dimensions that the design fixes in absolute
/// pixels (the 2.5-pixel fill inset, the 3-pixel bulb inset, the 5-pixel
/// marker offsets) keep their absolute size and are not listed here.  The
/// width is asked to be a multiple of five so that the canvas height,
/// six fifths of it, is itself exact.
pub proof fn lemma_layout_scaling(w: int, k: int, ppm: int)
    requires
        1 <= w,
        w % 5 == 0,
        1 <= k,
        0 <= ppm <= 1_000_000,
    ensures
        spec_height(k * w) == k * spec_height(w),
        spec_title_x(k * w) == k * spec_title_x(w),
        spec_title_y(k * w) == k * spec_title_y(w),
        spec_tube_y(k * w) == k * spec_tube_y(w),
        spec_tube_height(k * w) == k * spec_tube_height(w),
        spec_bulb_center_y(k * w) == k * spec_bulb_center_y(w),
        spec_bulb_radius(k * w) == k * spec_bulb_radius(w),
        spec_text_x(k * w) == k * spec_text_x(w),
        spec_achieved_y(k * w) == k * spec_achieved_y(w),
        spec_achieved_label_y(k * w) == k * spec_achieved_label_y(w),
        spec_goal_y(k * w) == k * spec_goal_y(w),
        spec_goal_label_y(k * w) == k * spec_goal_label_y(w),
        spec_percent_y(k * w) == k * spec_percent_y(w),
        spec_amount_font(k * w) == k * spec_amount_font(w),
        spec_percent_font(k * w) == k * spec_percent_font(w),
        spec_marker_font(k * w) == k * spec_marker_font(w),
        -(k + 1) <= 2 * (spec_title_font(k * w) - k * spec_title_font(w)) <= k + 1,
        -(k + 1) <= 2 * (spec_tube_x(k * w) - k * spec_tube_x(w)) <= k + 1,
        -(k + 1) <= 2 * (spec_tube_width(k * w) - k * spec_tube_width(w)) <= k + 1,
        -(k + 1) <= 2 * (spec_fill_height(k * w, ppm) - k * spec_fill_height(w, ppm)) <= k + 1,
        -(k + 1) <= 2 * (spec_fill_y(k * w, ppm) - k * spec_fill_y(w, ppm)) <= k + 1,
        -(k + 1) <= 2 * (spec_bulb_center_x(k * w) - k * spec_bulb_center_x(w)) <= k + 1,
        -(k + 1) <= 2 * (spec_percent_label_y(k * w) - k * spec_percent_label_y(w)) <= k + 1,
        -(k + 1) <= 2 * (spec_label_font(k * w) - k * spec_label_font(w)) <= k + 1,
        -(k + 1) <= 2 * (spec_percent_label_font(k * w) - k * spec_percent_label_font(w)) <= k
            + 1,
        forall|p: int|
            0 <= p <= 100 ==> -(k + 1) <= 2 * (#[trigger] spec_marker_y(k * w, p) - k
                * spec_marker_y(w, p)) <= k + 1,
        forall|p: int|
            0 <= p <= 100 ==> -(k + 1) <= 2 * (#[trigger] spec_marker_text_y(k * w, p) - k
                * spec_marker_text_y(w, p)) <= k + 1,
{
    let h = spec_height(w);
    let hk = spec_height(k * w);
    let m = w / 5;
    vstd::arithmetic::div_mod::lemma_fundamental_div_mod(w, 5);
    assert(w == 5 * m);
    assert(6 * w == 5 * (6 * m) && 6 * (k * w) == 5 * (6 * (k * m))) by (nonlinear_arith)
        requires
            w == 5 * m,
    ;
    vstd::arithmetic::div_mod::lemma_div_multiples_vanish(6 * m, 5);
    vstd::arithmetic::div_mod::lemma_div_multiples_vanish(6 * (k * m), 5);
    assert(h == 6 * m && hk == 6 * (k * m));
    assert(hk == k * h) by (nonlinear_arith)
        requires
            h == 6 * m,
            hk == 6 * (k * m),
    ;
    assert(spec_tube_height(k * w) == k * spec_tube_height(w)) by (nonlinear_arith)
        requires
            hk == k * h,
            h == spec_height(w),
            hk == spec_height(k * w),
            spec_tube_height(w) == 60 * h - 14 * w,
            spec_tube_height(k * w) == 60 * hk - 14 * (k * w),
    ;
    assert(50 * (k * w) == k * (50 * w)) by (nonlinear_arith);
    assert(10 * hk == k * (10 * h) && 15 * hk == k * (15 * h) && 35 * hk == k * (35 * h) && 55
        * hk == k * (55 * h) && 75 * hk == k * (75 * h)) by (nonlinear_arith)
        requires
            hk == k * h,
    ;
    assert(14 * (k * w) == k * (14 * w) && 55 * (k * w) == k * (55 * w) && 6 * (k * w) == k * (6
        * w) && 9 * (k * w) == k * (9 * w) && 2 * (k * w) == k * (2 * w) && 3 * (k * w) == k * (3
        * w)) by (nonlinear_arith);
    assert(35 * hk + 3 * (k * w) == k * (35 * h + 3 * w) && 55 * hk + 3 * (k * w) == k * (55 * h
        + 3 * w)) by (nonlinear_arith)
        requires
            hk == k * h,
    ;
    assert(7 * (k * w) == k * (7 * w) && 171 * (k * w) == k * (171 * w) && 49 * (k * w) == k * (49
        * w) && 5 * (k * w) == k * (5 * w) && 11 * (k * w) == k * (11 * w)) by (nonlinear_arith);
    lemma_round_div_scaled(7 * w, 2, k);
    lemma_round_div_scaled(171 * w, 8, k);
    lemma_round_div_scaled(49 * w, 4, k);
    lemma_round_div_scaled(5 * w, 2, k);
    lemma_round_div_scaled(11 * w, 5, k);
    lemma_round_div_scaled(55 * w, 2, k);
    let th = spec_tube_height(w);
    assert(spec_tube_height(k * w) * ppm == k * (th * ppm)) by (nonlinear_arith)
        requires
            spec_tube_height(k * w) == k * th,
    ;
    lemma_round_div_scaled(th * ppm, 1_000_000, k);
    assert((15 * hk + spec_tube_height(k * w)) * 1_000_000 - spec_tube_height(k * w) * ppm == k * (
    (15 * h + th) * 1_000_000 - th * ppm)) by (nonlinear_arith)
        requires
            hk == k * h,
            spec_tube_height(k * w) == k * th,
    ;
    lemma_round_div_scaled((15 * h + th) * 1_000_000 - th * ppm, 1_000_000, k);
    lemma_round_div_scaled(150 * h + 5 * w, 2, k);
    assert(150 * hk + 5 * (k * w) == k * (150 * h + 5 * w)) by (nonlinear_arith)
        requires
            hk == k * h,
    ;
    assert forall|p: int| 0 <= p <= 100 implies -(k + 1) <= 2 * (#[trigger] spec_marker_y(k * w, p)
        - k * spec_marker_y(w, p)) <= k + 1 by {
        assert(1500 * hk + spec_tube_height(k * w) * (100 - p) == k * (1500 * h + th * (100 - p)))
            by (nonlinear_arith)
            requires
                hk == k * h,
                spec_tube_height(k * w) == k * th,
        ;
        lemma_round_div_scaled(1500 * h + th * (100 - p), 100, k);
    }
    assert forall|p: int| 0 <= p <= 100 implies -(k + 1) <= 2 * (#[trigger] spec_marker_text_y(
        k * w,
        p,
    ) - k * spec_marker_text_y(w, p)) <= k + 1 by {
        assert(1500 * hk + spec_tube_height(k * w) * (100 - p) + 70 * (k * w) == k * (1500 * h + th
            * (100 - p) + 70 * w)) by (nonlinear_arith)
            requires
                hk == k * h,
                spec_tube_height(k * w) == k * th,
        ;
        lemma_round_div_scaled(1500 * h + th * (100 - p) + 70 * w, 100, k);
    }
}

/// Two records derived from the same width and completion agree on every
/// field: the layout is deterministic, and the theme plays no part in it.
pub proof fn lemma_layout_deterministic(r1: GeometryRecord, r2: GeometryRecord, w: int, ppm: int)
    requires
        layout_matches(r1, w, ppm),
        layout_matches(r2, w, ppm),
    ensures
        r1.markers@ == r2.markers@,
        r1.width == r2.width && r1.height == r2.height,
        r1.title_x == r2.title_x && r1.title_y == r2.title_y,
        r1.title_font_size == r2.title_font_size,
        r1.tube_x == r2.tube_x && r1.tube_y == r2.tube_y,
        r1.tube_width == r2.tube_width && r1.tube_height == r2.tube_height,
        r1.fill_x == r2.fill_x && r1.fill_y == r2.fill_y,
        r1.fill_width == r2.fill_width && r1.fill_height == r2.fill_height,
        r1.bulb_center_x == r2.bulb_center_x && r1.bulb_center_y == r2.bulb_center_y,
        r1.bulb_radius == r2.bulb_radius && r1.bulb_fill_radius == r2.bulb_fill_radius,
        r1.text_x == r2.text_x,
        r1.achieved_y == r2.achieved_y && r1.achieved_label_y == r2.achieved_label_y,
        r1.goal_y == r2.goal_y && r1.goal_label_y == r2.goal_label_y,
        r1.percent_y == r2.percent_y && r1.percent_label_y == r2.percent_label_y,
        r1.amount_font_size == r2.amount_font_size && r1.label_font_size == r2.label_font_size,
        r1.percent_font_size == r2.percent_font_size,
        r1.percent_label_font_size == r2.percent_label_font_size,
        r1.percent_display == r2.percent_display,
{
    assert forall|i: int| 0 <= i < 6 implies r1.markers@[i] == r2.markers@[i] by {
        assert(marker_matches(r1.markers@[i], w, i));
        assert(marker_matches(r2.markers@[i], w, i));
    }
    assert(r1.markers@ =~= r2.markers@);
}

/// The markers stand at exactly the six levels 100, 80, 60, 40, 20 and 0,
/// ordered top first, in every record the layout can produce.
pub proof fn lemma_marker_levels(r: GeometryRecord, w: int, ppm: int)
    requires
        layout_matches(r, w, ppm),
    ensures
        r.markers@.len() == 6,
        r.markers@.map_values(|m: Marker| m.percentage as int) =~= seq![
            100int,
            80int,
            60int,
            40int,
            20int,
            0int,
        ],
{
    assert forall|i: int| 0 <= i < 6 implies r.markers@[i].percentage == 100 - 20 * i by {
        assert(marker_matches(r.markers@[i], w, i));
    }
}

} // verus!
