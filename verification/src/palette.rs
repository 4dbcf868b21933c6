//! The two color themes of the gauge.
//!
//! Each theme is a fixed palette of named colors; nothing about it is
//! derived at runtime, and the choice of theme never moves any geometry.

use vstd::prelude::*;

verus! {

/// The closed set of themes the gauge can be drawn in.
#[derive(Clone, Copy, Debug, PartialEq, Eq, Structural)]
pub enum Theme {
    Light,
    Dark,
}

/// The background color behind the whole drawing.
pub open spec fn spec_background(t: Theme) -> Seq<char> {
    match t {
        Theme::Light => "white"@,
        Theme::Dark => "#1a1a1a"@,
    }
}

pub fn background(t: Theme) -> (r: &'static str)
    ensures
        r@ == spec_background(t),
{
    match t {
        Theme::Light => "white",
        Theme::Dark => "#1a1a1a",
    }
}

/// The color of the title line.
pub open spec fn spec_title_text(t: Theme) -> Seq<char> {
    match t {
        Theme::Light => "#4A4A4A"@,
        Theme::Dark => "#E0E0E0"@,
    }
}

pub fn title_text(t: Theme) -> (r: &'static str)
    ensures
        r@ == spec_title_text(t),
{
    match t {
        Theme::Light => "#4A4A4A",
        Theme::Dark => "#E0E0E0",
    }
}

/// The primary text color, used for the percentage row.
pub open spec fn spec_text_primary(t: Theme) -> Seq<char> {
    match t {
        Theme::Light => "#4A4A4A"@,
        Theme::Dark => "#E0E0E0"@,
    }
}

pub fn text_primary(t: Theme) -> (r: &'static str)
    ensures
        r@ == spec_text_primary(t),
{
    match t {
        Theme::Light => "#4A4A4A",
        Theme::Dark => "#E0E0E0",
    }
}

/// The secondary text color, used for the row labels and the goal amount.
pub open spec fn spec_text_secondary(t: Theme) -> Seq<char> {
    match t {
        Theme::Light => "#888888"@,
        Theme::Dark => "#AAAAAA"@,
    }
}

pub fn text_secondary(t: Theme) -> (r: &'static str)
    ensures
        r@ == spec_text_secondary(t),
{
    match t {
        Theme::Light => "#888888",
        Theme::Dark => "#AAAAAA",
    }
}

/// The fill of the empty tube and of the bulb outline.
pub open spec fn spec_tube_fill(t: Theme) -> Seq<char> {
    match t {
        Theme::Light => "white"@,
        Theme::Dark => "#2a2a2a"@,
    }
}

pub fn tube_fill(t: Theme) -> (r: &'static str)
    ensures
        r@ == spec_tube_fill(t),
{
    match t {
        Theme::Light => "white",
        Theme::Dark => "#2a2a2a",
    }
}

/// The stroke of the tube and of the bulb.
pub open spec fn spec_tube_stroke(t: Theme) -> Seq<char> {
    match t {
        Theme::Light => "#6B6B6B"@,
        Theme::Dark => "#9B9B9B"@,
    }
}

pub fn tube_stroke(t: Theme) -> (r: &'static str)
    ensures
        r@ == spec_tube_stroke(t),
{
    match t {
        Theme::Light => "#6B6B6B",
        Theme::Dark => "#9B9B9B",
    }
}

/// The lower stop of the progress-fill gradient.
pub open spec fn spec_fill_color_1(t: Theme) -> Seq<char> {
    match t {
        Theme::Light => "#DC143C"@,
        Theme::Dark => "#FF4444"@,
    }
}

pub fn fill_color_1(t: Theme) -> (r: &'static str)
    ensures
        r@ == spec_fill_color_1(t),
{
    match t {
        Theme::Light => "#DC143C",
        Theme::Dark => "#FF4444",
    }
}

/// The upper stop of the progress-fill gradient.
pub open spec fn spec_fill_color_2(t: Theme) -> Seq<char> {
    match t {
        Theme::Light => "#FF6B6B"@,
        Theme::Dark => "#FF7777"@,
    }
}

pub fn fill_color_2(t: Theme) -> (r: &'static str)
    ensures
        r@ == spec_fill_color_2(t),
{
    match t {
        Theme::Light => "#FF6B6B",
        Theme::Dark => "#FF7777",
    }
}

/// The color of the achieved-amount figure.
pub open spec fn spec_achieved_text(t: Theme) -> Seq<char> {
    match t {
        Theme::Light => "#DC143C"@,
        Theme::Dark => "#FF6B6B"@,
    }
}

pub fn achieved_text(t: Theme) -> (r: &'static str)
    ensures
        r@ == spec_achieved_text(t),
{
    match t {
        Theme::Light => "#DC143C",
        Theme::Dark => "#FF6B6B",
    }
}

/// The stroke of the percentage marker ticks.
pub open spec fn spec_marker_stroke(t: Theme) -> Seq<char> {
    match t {
        Theme::Light => "#888"@,
        Theme::Dark => "#AAAAAA"@,
    }
}

pub fn marker_stroke(t: Theme) -> (r: &'static str)
    ensures
        r@ == spec_marker_stroke(t),
{
    match t {
        Theme::Light => "#888",
        Theme::Dark => "#AAAAAA",
    }
}

/// The color of the percentage marker labels.
pub open spec fn spec_marker_text(t: Theme) -> Seq<char> {
    match t {
        Theme::Light => "#888"@,
        Theme::Dark => "#AAAAAA"@,
    }
}

pub fn marker_text(t: Theme) -> (r: &'static str)
    ensures
        r@ == spec_marker_text(t),
{
    match t {
        Theme::Light => "#888",
        Theme::Dark => "#AAAAAA",
    }
}

} // verus!
