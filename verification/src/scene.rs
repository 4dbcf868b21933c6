//! The scene composer: serializes a geometry record and a palette into an
//! SVG document.
//!
//! Composition is pure template filling.  Every byte of the output is
//! pinned by the contracts here: the scene is a function of the record, the
//! two displayed amounts and the theme, and of nothing else, so identical
//! inputs always yield byte-identical documents.

use vstd::prelude::*;
use crate::config::ThermometerConfig;
use crate::config::spec_team_amounts;
use crate::config::team_amounts;
use crate::geometry::GeometryRecord;
use crate::geometry::Marker;
use crate::geometry::MAX_LAYOUT_WIDTH;
use crate::geometry::layout;
use crate::geometry::layout_matches;
use crate::geometry::marker_matches;
use crate::geometry::spec_achieved_label_y;
use crate::geometry::spec_achieved_y;
use crate::geometry::spec_amount_font;
use crate::geometry::spec_bulb_center_x;
use crate::geometry::spec_bulb_center_y;
use crate::geometry::spec_bulb_fill_radius;
use crate::geometry::spec_bulb_radius;
use crate::geometry::spec_fill_height;
use crate::geometry::spec_fill_width;
use crate::geometry::spec_fill_x;
use crate::geometry::spec_fill_y;
use crate::geometry::spec_goal_label_y;
use crate::geometry::spec_goal_y;
use crate::geometry::spec_height;
use crate::geometry::spec_label_font;
use crate::geometry::spec_marker_font;
use crate::geometry::spec_marker_level;
use crate::geometry::spec_marker_line_x1;
use crate::geometry::spec_marker_line_x2;
use crate::geometry::spec_marker_text_x;
use crate::geometry::spec_marker_text_y;
use crate::geometry::spec_marker_y;
use crate::geometry::spec_percent_display;
use crate::geometry::spec_percent_font;
use crate::geometry::spec_percent_label_font;
use crate::geometry::spec_percent_label_y;
use crate::geometry::spec_percent_y;
use crate::geometry::spec_text_x;
use crate::geometry::spec_title_font;
use crate::geometry::spec_title_x;
use crate::geometry::spec_title_y;
use crate::geometry::spec_tube_height;
use crate::geometry::spec_tube_width;
use crate::geometry::spec_tube_x;
use crate::geometry::spec_tube_y;
use crate::numfmt::push_hundredths;
use crate::numfmt::push_u128_dec;
use crate::numfmt::spec_fmt_hundredths;
use crate::numfmt::spec_udec;
use crate::palette::Theme;
use crate::palette::achieved_text;
use crate::palette::background;
use crate::palette::fill_color_1;
use crate::palette::fill_color_2;
use crate::palette::marker_stroke;
use crate::palette::marker_text;
use crate::palette::spec_achieved_text;
use crate::palette::spec_background;
use crate::palette::spec_fill_color_1;
use crate::palette::spec_fill_color_2;
use crate::palette::spec_marker_stroke;
use crate::palette::spec_marker_text;
use crate::palette::spec_text_primary;
use crate::palette::spec_text_secondary;
use crate::palette::spec_title_text;
use crate::palette::spec_tube_fill;
use crate::palette::spec_tube_stroke;
use crate::palette::text_primary;
use crate::palette::text_secondary;
use crate::palette::title_text;
use crate::palette::tube_fill;
use crate::palette::tube_stroke;
use crate::progress::completion_from_sum;
use crate::progress::spec_completion_ppm;
use crate::progress::spec_sum_cents;
use crate::progress::sum_cents;

verus! {

/// The opening tag of the document, with the intrinsic size.
pub open spec fn spec_scene_head(w: nat, h: nat) -> Seq<char> {
    "<svg width=\""@ + spec_udec(w) + "\" height=\""@ + spec_udec(h) + "\" viewBox=\"0 0 "@
        + spec_udec(w) + " "@ + spec_udec(h) + "\" xmlns=\"http://www.w3.org/2000/svg\">"@
}

fn push_scene_head(out: &mut String, w: u32, h: u32)
    ensures
        final(out)@ == old(out)@ + spec_scene_head(w as nat, h as nat),
{
    out.append("<svg width=\"");
    push_u128_dec(out, w as u128);
    out.append("\" height=\"");
    push_u128_dec(out, h as u128);
    out.append("\" viewBox=\"0 0 ");
    proof {
        assert(out@ =~= old(out)@ + ("<svg width=\""@ + spec_udec(w as nat) + "\" height=\""@
            + spec_udec(h as nat) + "\" viewBox=\"0 0 "@));
    }
    push_u128_dec(out, w as u128);
    out.append(" ");
    push_u128_dec(out, h as u128);
    out.append("\" xmlns=\"http://www.w3.org/2000/svg\">");
    proof {
        assert(final(out)@ =~= old(out)@ + spec_scene_head(w as nat, h as nat));
    }
}

/// The gradient definition of the progress fill, from the theme's two
/// fill-color stops.
pub open spec fn spec_defs(t: Theme) -> Seq<char> {
    "<defs><linearGradient id=\"fillGradient\" x1=\"0\" y1=\"1\" x2=\"0\" y2=\"0\"><stop offset=\"0\" stop-color=\""@
        + spec_fill_color_1(t)
        + "\"/><stop offset=\"1\" stop-color=\""@
        + spec_fill_color_2(t)
        + "\"/></linearGradient></defs>"@
}

fn push_defs(out: &mut String, t: Theme)
    ensures
        final(out)@ == old(out)@ + spec_defs(t),
{
    out.append(
        "<defs><linearGradient id=\"fillGradient\" x1=\"0\" y1=\"1\" x2=\"0\" y2=\"0\"><stop offset=\"0\" stop-color=\"",
    );
    out.append(fill_color_1(t));
    out.append("\"/><stop offset=\"1\" stop-color=\"");
    out.append(fill_color_2(t));
    out.append("\"/></linearGradient></defs>");
    proof {
        assert(final(out)@ =~= old(out)@ + spec_defs(t));
    }
}

/// The background rectangle covering the whole canvas.
pub open spec fn spec_background_rect(w: nat, h: nat, t: Theme) -> Seq<char> {
    "<rect x=\"0\" y=\"0\" width=\""@ + spec_udec(w) + "\" height=\""@ + spec_udec(h)
        + "\" fill=\""@ + spec_background(t) + "\"/>"@
}

fn push_background_rect(out: &mut String, w: u32, h: u32, t: Theme)
    ensures
        final(out)@ == old(out)@ + spec_background_rect(w as nat, h as nat, t),
{
    out.append("<rect x=\"0\" y=\"0\" width=\"");
    push_u128_dec(out, w as u128);
    out.append("\" height=\"");
    push_u128_dec(out, h as u128);
    proof {
        assert(out@ =~= old(out)@ + ("<rect x=\"0\" y=\"0\" width=\""@ + spec_udec(w as nat)
            + "\" height=\""@ + spec_udec(h as nat)));
    }
    out.append("\" fill=\"");
    out.append(background(t));
    out.append("\"/>");
    proof {
        assert(final(out)@ =~= old(out)@ + spec_background_rect(w as nat, h as nat, t));
    }
}

/// The centered, bold title line.
pub open spec fn spec_title_row(x: int, y: int, font: int, t: Theme) -> Seq<char> {
    "<text x=\""@ + spec_fmt_hundredths(x) + "\" y=\""@ + spec_fmt_hundredths(y)
        + "\" font-size=\""@ + spec_fmt_hundredths(font) + "\" fill=\""@ + spec_title_text(t)
        + "\" text-anchor=\"middle\" font-family=\"sans-serif\" font-weight=\"bold\">Donation Progress</text>"@
}

fn push_title_row(out: &mut String, x: i64, y: i64, font: i64, t: Theme)
    ensures
        final(out)@ == old(out)@ + spec_title_row(x as int, y as int, font as int, t),
{
    out.append("<text x=\"");
    push_hundredths(out, x as i128);
    out.append("\" y=\"");
    push_hundredths(out, y as i128);
    proof {
        assert(out@ =~= old(out)@ + ("<text x=\""@ + spec_fmt_hundredths(x as int) + "\" y=\""@
            + spec_fmt_hundredths(y as int)));
    }
    out.append("\" font-size=\"");
    push_hundredths(out, font as i128);
    out.append("\" fill=\"");
    out.append(title_text(t));
    out.append(
        "\" text-anchor=\"middle\" font-family=\"sans-serif\" font-weight=\"bold\">Donation Progress</text>",
    );
    proof {
        assert(final(out)@ =~= old(out)@ + spec_title_row(x as int, y as int, font as int, t));
    }
}

/// The tube outline.
pub open spec fn spec_tube_rect(x: int, y: int, wd: int, ht: int, t: Theme) -> Seq<char> {
    "<rect x=\""@ + spec_fmt_hundredths(x) + "\" y=\""@ + spec_fmt_hundredths(y)
        + "\" width=\""@ + spec_fmt_hundredths(wd) + "\" height=\""@ + spec_fmt_hundredths(ht)
        + "\" fill=\""@ + spec_tube_fill(t) + "\" stroke=\""@ + spec_tube_stroke(t)
        + "\" stroke-width=\"3\"/>"@
}

fn push_tube_rect(out: &mut String, x: i64, y: i64, wd: i64, ht: i64, t: Theme)
    ensures
        final(out)@ == old(out)@ + spec_tube_rect(x as int, y as int, wd as int, ht as int, t),
{
    out.append("<rect x=\"");
    push_hundredths(out, x as i128);
    out.append("\" y=\"");
    push_hundredths(out, y as i128);
    proof {
        assert(out@ =~= old(out)@ + ("<rect x=\""@ + spec_fmt_hundredths(x as int) + "\" y=\""@
            + spec_fmt_hundredths(y as int)));
    }
    out.append("\" width=\"");
    push_hundredths(out, wd as i128);
    out.append("\" height=\"");
    push_hundredths(out, ht as i128);
    proof {
        assert(out@ =~= old(out)@ + ("<rect x=\""@ + spec_fmt_hundredths(x as int) + "\" y=\""@
            + spec_fmt_hundredths(y as int) + "\" width=\""@ + spec_fmt_hundredths(wd as int)
            + "\" height=\""@ + spec_fmt_hundredths(ht as int)));
    }
    out.append("\" fill=\"");
    out.append(tube_fill(t));
    out.append("\" stroke=\"");
    out.append(tube_stroke(t));
    out.append("\" stroke-width=\"3\"/>");
    proof {
        assert(final(out)@ =~= old(out)@ + spec_tube_rect(
            x as int,
            y as int,
            wd as int,
            ht as int,
            t,
        ));
    }
}

/// The gradient-filled progress rectangle.
pub open spec fn spec_fill_rect(x: int, y: int, wd: int, ht: int) -> Seq<char> {
    "<rect x=\""@ + spec_fmt_hundredths(x) + "\" y=\""@ + spec_fmt_hundredths(y)
        + "\" width=\""@ + spec_fmt_hundredths(wd) + "\" height=\""@ + spec_fmt_hundredths(ht)
        + "\" fill=\"url(#fillGradient)\"/>"@
}

fn push_fill_rect(out: &mut String, x: i64, y: i64, wd: i64, ht: i64)
    ensures
        final(out)@ == old(out)@ + spec_fill_rect(x as int, y as int, wd as int, ht as int),
{
    out.append("<rect x=\"");
    push_hundredths(out, x as i128);
    out.append("\" y=\"");
    push_hundredths(out, y as i128);
    proof {
        assert(out@ =~= old(out)@ + ("<rect x=\""@ + spec_fmt_hundredths(x as int) + "\" y=\""@
            + spec_fmt_hundredths(y as int)));
    }
    out.append("\" width=\"");
    push_hundredths(out, wd as i128);
    out.append("\" height=\"");
    push_hundredths(out, ht as i128);
    out.append("\" fill=\"url(#fillGradient)\"/>");
    proof {
        assert(final(out)@ =~= old(out)@ + spec_fill_rect(
            x as int,
            y as int,
            wd as int,
            ht as int,
        ));
    }
}

/// The bulb's outlined circle.
pub open spec fn spec_bulb_outline(cx: int, cy: int, r: int, t: Theme) -> Seq<char> {
    "<circle cx=\""@ + spec_fmt_hundredths(cx) + "\" cy=\""@ + spec_fmt_hundredths(cy)
        + "\" r=\""@ + spec_fmt_hundredths(r) + "\" fill=\""@ + spec_tube_fill(t)
        + "\" stroke=\""@ + spec_tube_stroke(t) + "\" stroke-width=\"3\"/>"@
}

/// The slightly smaller gradient-filled circle inside the bulb.
pub open spec fn spec_bulb_inner(cx: int, cy: int, fr: int) -> Seq<char> {
    "<circle cx=\""@ + spec_fmt_hundredths(cx) + "\" cy=\""@ + spec_fmt_hundredths(cy)
        + "\" r=\""@ + spec_fmt_hundredths(fr) + "\" fill=\"url(#fillGradient)\"/>"@
}

/// The bulb: an outlined circle and a slightly smaller filled one inside.
pub open spec fn spec_bulb_circles(cx: int, cy: int, r: int, fr: int, t: Theme) -> Seq<char> {
    spec_bulb_outline(cx, cy, r, t) + spec_bulb_inner(cx, cy, fr)
}

fn push_bulb_outline(out: &mut String, cx: i64, cy: i64, r: i64, t: Theme)
    ensures
        final(out)@ == old(out)@ + spec_bulb_outline(cx as int, cy as int, r as int, t),
{
    out.append("<circle cx=\"");
    push_hundredths(out, cx as i128);
    out.append("\" cy=\"");
    push_hundredths(out, cy as i128);
    proof {
        assert(out@ =~= old(out)@ + ("<circle cx=\""@ + spec_fmt_hundredths(cx as int)
            + "\" cy=\""@ + spec_fmt_hundredths(cy as int)));
    }
    out.append("\" r=\"");
    push_hundredths(out, r as i128);
    out.append("\" fill=\"");
    out.append(tube_fill(t));
    out.append("\" stroke=\"");
    out.append(tube_stroke(t));
    out.append("\" stroke-width=\"3\"/>");
    proof {
        assert(final(out)@ =~= old(out)@ + spec_bulb_outline(cx as int, cy as int, r as int, t));
    }
}

fn push_bulb_inner(out: &mut String, cx: i64, cy: i64, fr: i64)
    ensures
        final(out)@ == old(out)@ + spec_bulb_inner(cx as int, cy as int, fr as int),
{
    out.append("<circle cx=\"");
    push_hundredths(out, cx as i128);
    out.append("\" cy=\"");
    push_hundredths(out, cy as i128);
    out.append("\" r=\"");
    push_hundredths(out, fr as i128);
    out.append("\" fill=\"url(#fillGradient)\"/>");
    proof {
        assert(final(out)@ =~= old(out)@ + spec_bulb_inner(cx as int, cy as int, fr as int));
    }
}

fn push_bulb_circles(out: &mut String, cx: i64, cy: i64, r: i64, fr: i64, t: Theme)
    ensures
        final(out)@ == old(out)@ + spec_bulb_circles(cx as int, cy as int, r as int, fr as int, t),
{
    push_bulb_outline(out, cx, cy, r, t);
    push_bulb_inner(out, cx, cy, fr);
    proof {
        assert(final(out)@ =~= old(out)@ + spec_bulb_circles(
            cx as int,
            cy as int,
            r as int,
            fr as int,
            t,
        ));
    }
}

/// The tick line of one percentage marker.
pub open spec fn spec_marker_line(m: Marker, t: Theme) -> Seq<char> {
    "<line x1=\""@ + spec_fmt_hundredths(m.line_x1 as int) + "\" y1=\""@ + spec_fmt_hundredths(
        m.y as int,
    ) + "\" x2=\""@ + spec_fmt_hundredths(m.line_x2 as int) + "\" y2=\""@ + spec_fmt_hundredths(
        m.y as int,
    ) + "\" stroke=\""@ + spec_marker_stroke(t) + "\" stroke-width=\"1\"/>"@
}

/// The right-anchored label of one percentage marker.
pub open spec fn spec_marker_label(m: Marker, t: Theme) -> Seq<char> {
    "<text x=\""@ + spec_fmt_hundredths(m.text_x as int) + "\" y=\""@ + spec_fmt_hundredths(
        m.text_y as int,
    ) + "\" font-size=\""@ + spec_fmt_hundredths(m.font_size as int) + "\" fill=\""@
        + spec_marker_text(t) + "\" text-anchor=\"end\" font-family=\"sans-serif\">"@ + spec_udec(
        m.percentage as nat,
    ) + "%</text>"@
}

/// One percentage marker: its tick line and its right-anchored label.
pub open spec fn spec_marker_svg(m: Marker, t: Theme) -> Seq<char> {
    spec_marker_line(m, t) + spec_marker_label(m, t)
}

fn push_marker_line(out: &mut String, m: &Marker, t: Theme)
    ensures
        final(out)@ == old(out)@ + spec_marker_line(*m, t),
{
    out.append("<line x1=\"");
    push_hundredths(out, m.line_x1 as i128);
    out.append("\" y1=\"");
    push_hundredths(out, m.y as i128);
    proof {
        assert(out@ =~= old(out)@ + ("<line x1=\""@ + spec_fmt_hundredths(m.line_x1 as int)
            + "\" y1=\""@ + spec_fmt_hundredths(m.y as int)));
    }
    out.append("\" x2=\"");
    push_hundredths(out, m.line_x2 as i128);
    out.append("\" y2=\"");
    push_hundredths(out, m.y as i128);
    proof {
        assert(out@ =~= old(out)@ + ("<line x1=\""@ + spec_fmt_hundredths(m.line_x1 as int)
            + "\" y1=\""@ + spec_fmt_hundredths(m.y as int) + "\" x2=\""@ + spec_fmt_hundredths(
            m.line_x2 as int,
        ) + "\" y2=\""@ + spec_fmt_hundredths(m.y as int)));
    }
    out.append("\" stroke=\"");
    out.append(marker_stroke(t));
    out.append("\" stroke-width=\"1\"/>");
    proof {
        assert(final(out)@ =~= old(out)@ + spec_marker_line(*m, t));
    }
}

fn push_marker_label(out: &mut String, m: &Marker, t: Theme)
    ensures
        final(out)@ == old(out)@ + spec_marker_label(*m, t),
{
    out.append("<text x=\"");
    push_hundredths(out, m.text_x as i128);
    out.append("\" y=\"");
    push_hundredths(out, m.text_y as i128);
    proof {
        assert(out@ =~= old(out)@ + ("<text x=\""@ + spec_fmt_hundredths(m.text_x as int)
            + "\" y=\""@ + spec_fmt_hundredths(m.text_y as int)));
    }
    out.append("\" font-size=\"");
    push_hundredths(out, m.font_size as i128);
    out.append("\" fill=\"");
    out.append(marker_text(t));
    proof {
        assert(out@ =~= old(out)@ + ("<text x=\""@ + spec_fmt_hundredths(m.text_x as int)
            + "\" y=\""@ + spec_fmt_hundredths(m.text_y as int) + "\" font-size=\""@
            + spec_fmt_hundredths(m.font_size as int) + "\" fill=\""@ + spec_marker_text(t)));
    }
    out.append("\" text-anchor=\"end\" font-family=\"sans-serif\">");
    push_u128_dec(out, m.percentage as u128);
    out.append("%</text>");
    proof {
        assert(final(out)@ =~= old(out)@ + spec_marker_label(*m, t));
    }
}

fn push_marker_svg(out: &mut String, m: &Marker, t: Theme)
    ensures
        final(out)@ == old(out)@ + spec_marker_svg(*m, t),
{
    push_marker_line(out, m, t);
    push_marker_label(out, m, t);
    proof {
        assert(final(out)@ =~= old(out)@ + spec_marker_svg(*m, t));
    }
}

/// All markers of a record, in their stored order.
pub open spec fn spec_markers(ms: Seq<Marker>, t: Theme) -> Seq<char>
    decreases ms.len(),
{
    if ms.len() == 0 {
        Seq::<char>::empty()
    } else {
        spec_markers(ms.drop_last(), t) + spec_marker_svg(ms.last(), t)
    }
}

fn push_markers(out: &mut String, ms: &Vec<Marker>, t: Theme)
    ensures
        final(out)@ == old(out)@ + spec_markers(ms@, t),
{
    let mut i: usize = 0;
    while i < ms.len()
        invariant
            i <= ms.len(),
            out@ == old(out)@ + spec_markers(ms@.take(i as int), t),
        decreases ms.len() - i,
    {
        push_marker_svg(out, &ms[i], t);
        proof {
            assert(ms@.take(i as int + 1).drop_last() =~= ms@.take(i as int));
            assert(ms@.take(i as int + 1).last() == ms@[i as int]);
            assert(out@ =~= old(out)@ + spec_markers(ms@.take(i as int + 1), t));
        }
        i = i + 1;
    }
    proof {
        assert(ms@.take(ms@.len() as int) =~= ms@);
    }
}

/// A bold money row: a dollar sign and the exact two-decimal amount.
pub open spec fn spec_amount_row(x: int, y: int, font: int, color: Seq<char>, amount: int) -> Seq<
    char,
> {
    "<text x=\""@ + spec_fmt_hundredths(x) + "\" y=\""@ + spec_fmt_hundredths(y)
        + "\" font-size=\""@ + spec_fmt_hundredths(font) + "\" fill=\""@ + color
        + "\" font-family=\"sans-serif\" font-weight=\"bold\">$"@ + spec_fmt_hundredths(amount)
        + "</text>"@
}

fn push_amount_row(out: &mut String, x: i64, y: i64, font: i64, color: &str, amount: i128)
    requires
        amount > i128::MIN,
    ensures
        final(out)@ == old(out)@ + spec_amount_row(
            x as int,
            y as int,
            font as int,
            color@,
            amount as int,
        ),
{
    out.append("<text x=\"");
    push_hundredths(out, x as i128);
    out.append("\" y=\"");
    push_hundredths(out, y as i128);
    proof {
        assert(out@ =~= old(out)@ + ("<text x=\""@ + spec_fmt_hundredths(x as int) + "\" y=\""@
            + spec_fmt_hundredths(y as int)));
    }
    out.append("\" font-size=\"");
    push_hundredths(out, font as i128);
    out.append("\" fill=\"");
    out.append(color);
    proof {
        assert(out@ =~= old(out)@ + ("<text x=\""@ + spec_fmt_hundredths(x as int) + "\" y=\""@
            + spec_fmt_hundredths(y as int) + "\" font-size=\""@ + spec_fmt_hundredths(font as int)
            + "\" fill=\""@ + color@));
    }
    out.append("\" font-family=\"sans-serif\" font-weight=\"bold\">$");
    push_hundredths(out, amount);
    out.append("</text>");
    proof {
        assert(final(out)@ =~= old(out)@ + spec_amount_row(
            x as int,
            y as int,
            font as int,
            color@,
            amount as int,
        ));
    }
}

/// A plain text row with the given fixed label.
pub open spec fn spec_label_row(x: int, y: int, font: int, color: Seq<char>, label: Seq<
    char,
>) -> Seq<char> {
    "<text x=\""@ + spec_fmt_hundredths(x) + "\" y=\""@ + spec_fmt_hundredths(y)
        + "\" font-size=\""@ + spec_fmt_hundredths(font) + "\" fill=\""@ + color
        + "\" font-family=\"sans-serif\">"@ + label + "</text>"@
}

fn push_label_row(out: &mut String, x: i64, y: i64, font: i64, color: &str, label: &str)
    ensures
        final(out)@ == old(out)@ + spec_label_row(x as int, y as int, font as int, color@, label@),
{
    out.append("<text x=\"");
    push_hundredths(out, x as i128);
    out.append("\" y=\"");
    push_hundredths(out, y as i128);
    proof {
        assert(out@ =~= old(out)@ + ("<text x=\""@ + spec_fmt_hundredths(x as int) + "\" y=\""@
            + spec_fmt_hundredths(y as int)));
    }
    out.append("\" font-size=\"");
    push_hundredths(out, font as i128);
    out.append("\" fill=\"");
    out.append(color);
    proof {
        assert(out@ =~= old(out)@ + ("<text x=\""@ + spec_fmt_hundredths(x as int) + "\" y=\""@
            + spec_fmt_hundredths(y as int) + "\" font-size=\""@ + spec_fmt_hundredths(font as int)
            + "\" fill=\""@ + color@));
    }
    out.append("\" font-family=\"sans-serif\">");
    out.append(label);
    out.append("</text>");
    proof {
        assert(final(out)@ =~= old(out)@ + spec_label_row(
            x as int,
            y as int,
            font as int,
            color@,
            label@,
        ));
    }
}

/// The big bold percentage row.
pub open spec fn spec_percent_row(x: int, y: int, font: int, color: Seq<char>, pd: nat) -> Seq<
    char,
> {
    "<text x=\""@ + spec_fmt_hundredths(x) + "\" y=\""@ + spec_fmt_hundredths(y)
        + "\" font-size=\""@ + spec_fmt_hundredths(font) + "\" fill=\""@ + color
        + "\" font-family=\"sans-serif\" font-weight=\"bold\">"@ + spec_udec(pd) + "%</text>"@
}

fn push_percent_row(out: &mut String, x: i64, y: i64, font: i64, color: &str, pd: u32)
    ensures
        final(out)@ == old(out)@ + spec_percent_row(
            x as int,
            y as int,
            font as int,
            color@,
            pd as nat,
        ),
{
    out.append("<text x=\"");
    push_hundredths(out, x as i128);
    out.append("\" y=\"");
    push_hundredths(out, y as i128);
    proof {
        assert(out@ =~= old(out)@ + ("<text x=\""@ + spec_fmt_hundredths(x as int) + "\" y=\""@
            + spec_fmt_hundredths(y as int)));
    }
    out.append("\" font-size=\"");
    push_hundredths(out, font as i128);
    out.append("\" fill=\"");
    out.append(color);
    proof {
        assert(out@ =~= old(out)@ + ("<text x=\""@ + spec_fmt_hundredths(x as int) + "\" y=\""@
            + spec_fmt_hundredths(y as int) + "\" font-size=\""@ + spec_fmt_hundredths(font as int)
            + "\" fill=\""@ + color@));
    }
    out.append("\" font-family=\"sans-serif\" font-weight=\"bold\">");
    push_u128_dec(out, pd as u128);
    out.append("%</text>");
    proof {
        assert(final(out)@ =~= old(out)@ + spec_percent_row(
            x as int,
            y as int,
            font as int,
            color@,
            pd as nat,
        ));
    }
}

/// The whole document for a given geometry record: header, gradient
/// definition, background, title, tube, fill, bulb, the six markers, and
/// the three metric rows with their labels.
pub open spec fn spec_scene(r: GeometryRecord, achieved: int, goal: int, t: Theme) -> Seq<char> {
    spec_scene_head(r.width as nat, r.height as nat) + spec_defs(t) + spec_background_rect(
        r.width as nat,
        r.height as nat,
        t,
    ) + spec_title_row(r.title_x as int, r.title_y as int, r.title_font_size as int, t)
        + spec_tube_rect(
        r.tube_x as int,
        r.tube_y as int,
        r.tube_width as int,
        r.tube_height as int,
        t,
    ) + spec_fill_rect(r.fill_x as int, r.fill_y as int, r.fill_width as int, r.fill_height as int)
        + spec_bulb_circles(
        r.bulb_center_x as int,
        r.bulb_center_y as int,
        r.bulb_radius as int,
        r.bulb_fill_radius as int,
        t,
    ) + spec_markers(r.markers@, t) + spec_amount_row(
        r.text_x as int,
        r.achieved_y as int,
        r.amount_font_size as int,
        spec_achieved_text(t),
        achieved,
    ) + spec_label_row(
        r.text_x as int,
        r.achieved_label_y as int,
        r.label_font_size as int,
        spec_text_secondary(t),
        "Raised So Far"@,
    ) + spec_amount_row(
        r.text_x as int,
        r.goal_y as int,
        r.amount_font_size as int,
        spec_text_secondary(t),
        goal,
    ) + spec_label_row(
        r.text_x as int,
        r.goal_label_y as int,
        r.label_font_size as int,
        spec_text_secondary(t),
        "Goal"@,
    ) + spec_percent_row(
        r.text_x as int,
        r.percent_y as int,
        r.percent_font_size as int,
        spec_text_primary(t),
        r.percent_display as nat,
    ) + spec_label_row(
        r.text_x as int,
        r.percent_label_y as int,
        r.percent_label_font_size as int,
        spec_text_secondary(t),
        "Complete"@,
    ) + "</svg>"@
}

/// Fills the geometry and palette into the fixed document skeleton.  A pure
/// formatting step: no decision is taken here, and the output is pinned
/// byte for byte by the inputs.
pub fn compose(rec: &GeometryRecord, achieved_cents: i128, goal_cents: i64, theme: Theme) -> (s:
    String)
    requires
        achieved_cents > i128::MIN,
    ensures
        s@ == spec_scene(*rec, achieved_cents as int, goal_cents as int, theme),
{
    let mut out = String::new();
    push_scene_head(&mut out, rec.width, rec.height);
    push_defs(&mut out, theme);
    push_background_rect(&mut out, rec.width, rec.height, theme);
    push_title_row(&mut out, rec.title_x, rec.title_y, rec.title_font_size, theme);
    push_tube_rect(&mut out, rec.tube_x, rec.tube_y, rec.tube_width, rec.tube_height, theme);
    push_fill_rect(&mut out, rec.fill_x, rec.fill_y, rec.fill_width, rec.fill_height);
    push_bulb_circles(
        &mut out,
        rec.bulb_center_x,
        rec.bulb_center_y,
        rec.bulb_radius,
        rec.bulb_fill_radius,
        theme,
    );
    push_markers(&mut out, &rec.markers, theme);
    push_amount_row(
        &mut out,
        rec.text_x,
        rec.achieved_y,
        rec.amount_font_size,
        achieved_text(theme),
        achieved_cents,
    );
    push_label_row(
        &mut out,
        rec.text_x,
        rec.achieved_label_y,
        rec.label_font_size,
        text_secondary(theme),
        "Raised So Far",
    );
    push_amount_row(
        &mut out,
        rec.text_x,
        rec.goal_y,
        rec.amount_font_size,
        text_secondary(theme),
        goal_cents as i128,
    );
    push_label_row(
        &mut out,
        rec.text_x,
        rec.goal_label_y,
        rec.label_font_size,
        text_secondary(theme),
        "Goal",
    );
    push_percent_row(
        &mut out,
        rec.text_x,
        rec.percent_y,
        rec.percent_font_size,
        text_primary(theme),
        rec.percent_display,
    );
    push_label_row(
        &mut out,
        rec.text_x,
        rec.percent_label_y,
        rec.percent_label_font_size,
        text_secondary(theme),
        "Complete",
    );
    out.append("</svg>");
    proof {
        assert(out@ =~= spec_scene(*rec, achieved_cents as int, goal_cents as int, theme));
    }
    out
}

/// The marker value the layout derives for position `i`, written with the
/// geometry spec functions alone.
pub open spec fn spec_marker_of(w: int, i: int) -> Marker {
    Marker {
        line_x1: spec_marker_line_x1(w) as i64,
        y: spec_marker_y(w, spec_marker_level(i)) as i64,
        line_x2: spec_marker_line_x2(w) as i64,
        text_x: spec_marker_text_x(w) as i64,
        text_y: spec_marker_text_y(w, spec_marker_level(i)) as i64,
        font_size: spec_marker_font(w) as i64,
        percentage: spec_marker_level(i) as u32,
    }
}

/// The whole document as a function of the width, the completion ratio,
/// the two amounts and the theme alone: what a gauge for these inputs must
/// look like, byte for byte.
pub open spec fn spec_gauge_svg(w: int, ppm: int, achieved: int, goal: int, t: Theme) -> Seq<
    char,
> {
    spec_scene_head(w as nat, spec_height(w) as nat) + spec_defs(t) + spec_background_rect(
        w as nat,
        spec_height(w) as nat,
        t,
    ) + spec_title_row(spec_title_x(w), spec_title_y(w), spec_title_font(w), t) + spec_tube_rect(
        spec_tube_x(w),
        spec_tube_y(w),
        spec_tube_width(w),
        spec_tube_height(w),
        t,
    ) + spec_fill_rect(
        spec_fill_x(w),
        spec_fill_y(w, ppm),
        spec_fill_width(w),
        spec_fill_height(w, ppm),
    ) + spec_bulb_circles(
        spec_bulb_center_x(w),
        spec_bulb_center_y(w),
        spec_bulb_radius(w),
        spec_bulb_fill_radius(w),
        t,
    ) + spec_markers(
        seq![
            spec_marker_of(w, 0),
            spec_marker_of(w, 1),
            spec_marker_of(w, 2),
            spec_marker_of(w, 3),
            spec_marker_of(w, 4),
            spec_marker_of(w, 5),
        ],
        t,
    ) + spec_amount_row(
        spec_text_x(w),
        spec_achieved_y(w),
        spec_amount_font(w),
        spec_achieved_text(t),
        achieved,
    ) + spec_label_row(
        spec_text_x(w),
        spec_achieved_label_y(w),
        spec_label_font(w),
        spec_text_secondary(t),
        "Raised So Far"@,
    ) + spec_amount_row(
        spec_text_x(w),
        spec_goal_y(w),
        spec_amount_font(w),
        spec_text_secondary(t),
        goal,
    ) + spec_label_row(
        spec_text_x(w),
        spec_goal_label_y(w),
        spec_label_font(w),
        spec_text_secondary(t),
        "Goal"@,
    ) + spec_percent_row(
        spec_text_x(w),
        spec_percent_y(w),
        spec_percent_font(w),
        spec_text_primary(t),
        spec_percent_display(ppm) as nat,
    ) + spec_label_row(
        spec_text_x(w),
        spec_percent_label_y(w),
        spec_percent_label_font(w),
        spec_text_secondary(t),
        "Complete"@,
    ) + "</svg>"@
}

/// A record that matches `(w, ppm)` composes to exactly the document that
/// `(w, ppm)` and the amounts dictate.
pub proof fn lemma_scene_of_layout(
    r: GeometryRecord,
    w: int,
    ppm: int,
    achieved: int,
    goal: int,
    t: Theme,
)
    requires
        layout_matches(r, w, ppm),
    ensures
        spec_scene(r, achieved, goal, t) == spec_gauge_svg(w, ppm, achieved, goal, t),
{
    assert forall|i: int| 0 <= i < 6 implies r.markers@[i] == spec_marker_of(w, i) by {
        assert(marker_matches(r.markers@[i], w, i));
    }
    let m0 = spec_marker_of(w, 0);
    let m1 = spec_marker_of(w, 1);
    let m2 = spec_marker_of(w, 2);
    let m3 = spec_marker_of(w, 3);
    let m4 = spec_marker_of(w, 4);
    let m5 = spec_marker_of(w, 5);
    assert(r.markers@ =~= seq![m0, m1, m2, m3, m4, m5]);
    assert(spec_scene(r, achieved, goal, t) == spec_gauge_svg(w, ppm, achieved, goal, t));
}

/// Renders the gauge for a configuration: sums the team amounts, derives
/// the completion ratio and the geometry, and composes the scene.  The
/// result is a pure function of the configuration's goal and amounts, the
/// width and the theme.
pub fn generate_thermometer_svg(config: &ThermometerConfig, width: u32, theme: Theme) -> (svg:
    String)
    requires
        1 <= width <= MAX_LAYOUT_WIDTH,
    ensures
        svg@ == spec_gauge_svg(
            width as int,
            spec_completion_ppm(
                config.goal_cents as int,
                spec_sum_cents(spec_team_amounts(config.teams@)),
            ),
            spec_sum_cents(spec_team_amounts(config.teams@)),
            config.goal_cents as int,
            theme,
        ),
{
    let amounts = team_amounts(&config.teams);
    let total = sum_cents(&amounts);
    let ppm = completion_from_sum(config.goal_cents, total);
    let rec = layout(width, ppm, theme);
    let svg = compose(&rec, total, config.goal_cents, theme);
    proof {
        lemma_scene_of_layout(
            rec,
            width as int,
            ppm as int,
            total as int,
            config.goal_cents as int,
            theme,
        );
    }
    svg
}

/// The minimal placeholder document of the never-hard-fail policy: a
/// composition that cannot produce its scene degrades to this fixed text
/// rather than surfacing a fault to the image response.
pub open spec fn spec_fallback_scene() -> Seq<char> {
    "<svg><text>Error rendering thermometer</text></svg>"@
}

/// The placeholder scene itself.
pub fn fallback_scene() -> (s: String)
    ensures
        s@ == spec_fallback_scene(),
{
    String::from_str("<svg><text>Error rendering thermometer</text></svg>")
}

} // verus!
