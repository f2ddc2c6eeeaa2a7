//! Axes: a data range with an optional title and a tick-density policy,
//! laid out as a ruler (main line, tick marks, numeric labels and title)
//! along a horizontal or vertical placement in pixel space.

use vstd::prelude::*;
use vstd::math::{max, min};
use vstd::string::StringExecFns;
use vstd::arithmetic::div_mod::{
    lemma_div_is_ordered, lemma_div_is_ordered_by_denominator, lemma_div_multiples_vanish_fancy,
    lemma_div_pos_is_pos,
};
use core::ops::Range;
use crate::command::{
    CommandModel, DrawCommand, PixelPoint, PointModel, TextAlignment, TextBaseline,
};
use crate::range_conv::{
    fits_i32, lemma_scale_fits_moderate, scale_between_ranges, scale_fits, scale_value, trunc_div,
    within_moderate, MODERATE,
};
use embedded_graphics::geometry::{Dimensions, Point};
use embedded_graphics::mono_font::ascii::FONT_5X8;
use embedded_graphics::mono_font::MonoTextStyle;
use embedded_graphics::pixelcolor::BinaryColor;
use embedded_graphics::text::{Alignment, Baseline, Text, TextStyleBuilder};

verus! {

/// Used to provide the placement of an axis: it will be drawn exactly on
/// the line marked by the two endpoint coordinates.
#[derive(Clone, Copy, Debug)]
pub enum Placement {
    X { x1: i32, x2: i32, y: i32 },
    Y { y1: i32, y2: i32, x: i32 },
}

/// Used to describe how densely ticks should be drawn.
#[derive(Clone, Copy, Debug, PartialEq, Eq, Structural)]
pub enum Scale {
    /// Ticks at every increment of the given absolute distance; for
    /// example, on range 0..30 and `Fixed(10)`, ticks at 0, 10 and 20.
    Fixed(usize),
    /// The given number of equal-width sections over the entire range; for
    /// example, on range 0..60 and `RangeFraction(3)`, ticks at 0, 20
    /// and 40.
    RangeFraction(usize),
}

impl Default for Scale {
    /// The default tick policy: five equal-width sections.
    fn default() -> (r: Self)
        ensures
            r == Scale::RangeFraction(5usize),
    {
        Scale::RangeFraction(5)
    }
}

/// Character styling for axis text, reduced to what the layout reads: the
/// color for tick labels and the title, where `None` stands for the
/// drawing target's default color.  An axis without a text style falls
/// back to its axis color for text.
#[derive(Clone, Copy, Debug)]
pub struct AxisTextStyle<C> {
    pub text_color: Option<C>,
}

/// The character for a single decimal digit.
pub open spec fn digit_char(d: int) -> char
    recommends
        0 <= d <= 9,
{
    if d == 0 {
        '0'
    } else if d == 1 {
        '1'
    } else if d == 2 {
        '2'
    } else if d == 3 {
        '3'
    } else if d == 4 {
        '4'
    } else if d == 5 {
        '5'
    } else if d == 6 {
        '6'
    } else if d == 7 {
        '7'
    } else if d == 8 {
        '8'
    } else {
        '9'
    }
}

/// The decimal digits of a nonnegative integer, most significant first.
pub open spec fn decimal_digits(n: int) -> Seq<char>
    recommends
        n >= 0,
    decreases n,
{
    if n < 10 {
        seq![digit_char(n)]
    } else {
        decimal_digits(n / 10).push(digit_char(n % 10))
    }
}

/// The decimal text of an integer: its digits, with a leading minus sign
/// when it is negative.
pub open spec fn decimal(v: int) -> Seq<char> {
    if v < 0 {
        seq!['-'] + decimal_digits(-v)
    } else {
        decimal_digits(v)
    }
}

/// A character of decimal text: a digit or the minus sign.  In particular a
/// printable character and not a line break.
pub open spec fn is_decimal_char(c: char) -> bool {
    c == '-' || c == '0' || c == '1' || c == '2' || c == '3' || c == '4' || c == '5' || c == '6'
        || c == '7' || c == '8' || c == '9'
}

/// Text made of decimal characters only.
pub open spec fn plain_decimal_text(s: Seq<char>) -> bool {
    forall|i: int| 0 <= i < s.len() ==> is_decimal_char(#[trigger] s[i])
}

/// Powers of ten.
pub open spec fn pow10(k: int) -> int
    decreases k,
{
    if k <= 0 {
        1
    } else {
        10 * pow10(k - 1)
    }
}

/// A nonnegative integer below the `k`-th power of ten has at most `k`
/// decimal digits, at least one, and all of them decimal characters.
proof fn lemma_decimal_digits_bound(n: int, k: int)
    requires
        0 <= n,
        1 <= k,
        n < pow10(k),
    ensures
        1 <= decimal_digits(n).len() <= k,
        plain_decimal_text(decimal_digits(n)),
    decreases k,
{
    if n < 10 {
        assert(decimal_digits(n) =~= seq![digit_char(n)]);
    } else {
        assert(k >= 2) by {
            if k == 1 {
                assert(pow10(1) == 10);
            }
        }
        assert(pow10(k) == 10 * pow10(k - 1));
        assert(pow10(k - 1) >= 1) by {
            lemma_pow10_positive(k - 1);
        }
        assert(n / 10 < pow10(k - 1)) by {
            lemma_div_is_ordered(n, 10 * pow10(k - 1) - 1, 10);
            assert(10 * pow10(k - 1) - 1 == 10 * (pow10(k - 1) - 1) + 9);
            lemma_div_multiples_vanish_fancy(pow10(k - 1) - 1, 9, 10);
        }
        assert(n / 10 >= 0) by {
            lemma_div_pos_is_pos(n, 10);
        }
        lemma_decimal_digits_bound(n / 10, k - 1);
        assert(decimal_digits(n) == decimal_digits(n / 10).push(digit_char(n % 10)));
        assert(forall|i: int|
            0 <= i < decimal_digits(n).len() ==> is_decimal_char(#[trigger] decimal_digits(n)[i]));
    }
}

/// Powers of ten are positive.
proof fn lemma_pow10_positive(k: int)
    ensures
        pow10(k) >= 1,
    decreases (if k >= 0 {
        k
    } else {
        0
    }),
{
    if k > 0 {
        lemma_pow10_positive(k - 1);
    }
}

/// The decimal text of any value within the `i32` range takes between 1 and
/// 11 characters, all of them digits or a minus sign.
pub proof fn lemma_decimal_i32(v: int)
    requires
        i32::MIN <= v <= i32::MAX,
    ensures
        1 <= decimal(v).len() <= 11,
        plain_decimal_text(decimal(v)),
{
    assert(pow10(10) == 10000000000) by {
        reveal_with_fuel(pow10, 11);
    }
    if v < 0 {
        lemma_decimal_digits_bound(-v, 10);
        assert(decimal(v) == seq!['-'] + decimal_digits(-v));
        assert(forall|i: int|
            0 <= i < decimal(v).len() ==> is_decimal_char(#[trigger] decimal(v)[i]));
    } else {
        lemma_decimal_digits_bound(v, 10);
    }
}

/// The text for one decimal digit.
fn digit_str(d: u32) -> (r: &'static str)
    requires
        d <= 9,
    ensures
        r@ =~= seq![digit_char(d as int)],
{
    proof {
        reveal_strlit("0");
        reveal_strlit("1");
        reveal_strlit("2");
        reveal_strlit("3");
        reveal_strlit("4");
        reveal_strlit("5");
        reveal_strlit("6");
        reveal_strlit("7");
        reveal_strlit("8");
        reveal_strlit("9");
    }
    match d {
        0 => "0",
        1 => "1",
        2 => "2",
        3 => "3",
        4 => "4",
        5 => "5",
        6 => "6",
        7 => "7",
        8 => "8",
        _ => "9",
    }
}

/// Formats a nonnegative value as its decimal digits.
fn format_digits(n: u32) -> (s: String)
    ensures
        s@ == decimal_digits(n as int),
    decreases n,
{
    if n < 10 {
        let s = String::from_str(digit_str(n));
        proof {
            assert(s@ =~= decimal_digits(n as int));
        }
        s
    } else {
        let mut s = format_digits(n / 10);
        s.append(digit_str(n % 10));
        proof {
            assert(s@ =~= decimal_digits(n as int));
        }
        s
    }
}

/// Formats a value as decimal text, with a leading minus sign when it is
/// negative.  The text of any `i32` value fits eleven characters.
pub fn format_i32(v: i32) -> (s: String)
    ensures
        s@ == decimal(v as int),
{
    if v >= 0 {
        format_digits(v as u32)
    } else {
        let mut s = String::from_str("-");
        proof {
            reveal_strlit("-");
        }
        let magnitude: u32 = (-(v as i64)) as u32;
        let digits = format_digits(magnitude);
        s.append(digits.as_str());
        proof {
            assert(s@ =~= decimal(v as int));
        }
        s
    }
}

/// Relies on `embedded_graphics::text::Text::bounding_box`: right-aligned,
/// top-baseline, single-line text in the builtin 5-by-8 monospace font
/// (character width 5, no inter-character spacing) anchored at `x` covers
/// the pixel columns `x - 5*len + 1 ..= x`, so the left edge of its
/// bounding box lies at `x - 5*len + 1`.  The measurement computes `x + 1`
/// on the machine, so the anchor must leave room for one pixel to its
/// right.
#[verifier::external_body]
fn label_left_edge(content: &str, x: i32) -> (r: i32)
    requires
        1 <= content@.len() <= 11,
        plain_decimal_text(content@),
        x - 5 * content@.len() + 1 >= i32::MIN,
        x < i32::MAX,
    ensures
        r == x - 5 * content@.len() + 1,
{
    let style = MonoTextStyle::new(&FONT_5X8, BinaryColor::On);
    let text_style = TextStyleBuilder::new().alignment(Alignment::Right).baseline(
        Baseline::Top,
    ).build();
    let text = Text::with_text_style(content, Point::new(x, 0), style, text_style);
    text.bounding_box().top_left.x
}

/// The length of a data range as the tick stepper sees it: zero when the
/// range is empty or reversed.
pub open spec fn range_len(range: Range<i32>) -> int {
    max(range.end - range.start, 0)
}

/// The tick step a policy yields on a range.  A step or divisor of zero is
/// treated as one, so tick generation can neither divide by zero nor stall.
pub open spec fn tick_step(scale: Scale, range: Range<i32>) -> int {
    match scale {
        Scale::Fixed(interval) => max(interval as int, 1),
        Scale::RangeFraction(fraction) => max(range_len(range) / max(fraction as int, 1), 1),
    }
}

/// The tick policy of an axis: the configured one, or the default.
pub open spec fn scale_or_default(scale: Option<Scale>) -> Scale {
    match scale {
        Some(s) => s,
        None => Scale::RangeFraction(5usize),
    }
}

/// The view of an optional title.
pub open spec fn title_view(title: Option<&str>) -> Option<Seq<char>> {
    match title {
        Some(t) => Some(t@),
        None => None,
    }
}

/// The thickness of the main axis line and its ticks: the configured
/// value, or 1.
pub open spec fn axis_thickness(t: Option<usize>) -> int {
    match t {
        Some(v) => v as int,
        None => 1,
    }
}

/// The tick half-length: the configured value, or 2.
pub open spec fn axis_tick_size(t: Option<usize>) -> int {
    match t {
        Some(v) => v as int,
        None => 2,
    }
}

/// The color of axis text: the text style's color when one is set, else
/// the axis color.
pub open spec fn axis_text_color<C>(
    text_style: Option<AxisTextStyle<C>>,
    color: Option<C>,
) -> Option<C> {
    match text_style {
        Some(style) => style.text_color,
        None => color,
    }
}

/// The tick commands of a horizontal axis from data position `m` upward:
/// per tick a vertical mark through the axis line and a numeric label to
/// its lower right.
pub open spec fn x_tick_models<C>(
    m: int,
    range: Range<i32>,
    step: int,
    x1: i32,
    x2: i32,
    y: i32,
    tick_size: int,
    color: Option<C>,
    text_color: Option<C>,
    thickness: int,
) -> Seq<CommandModel<C>>
    decreases max(range.end - m, 0),
    when step >= 1
{
    if m >= range.end {
        Seq::empty()
    } else {
        let px = scale_value(m, range, Range { start: x1, end: x2 });
        seq![
            CommandModel::Line {
                start: PointModel { x: px, y: y - tick_size },
                end: PointModel { x: px, y: y + tick_size },
                color,
                thickness,
            },
            CommandModel::Text {
                content: decimal(m),
                position: PointModel { x: px + 2, y: y + 2 },
                alignment: TextAlignment::Left,
                baseline: TextBaseline::Top,
                color: text_color,
            },
        ] + x_tick_models(m + step, range, step, x1, x2, y, tick_size, color, text_color, thickness)
    }
}

/// The tick commands of a vertical axis from data position `m` upward: per
/// tick a horizontal mark through the axis line and a numeric label ending
/// at the line.
pub open spec fn y_tick_models<C>(
    m: int,
    range: Range<i32>,
    step: int,
    y1: i32,
    y2: i32,
    x: i32,
    tick_size: int,
    color: Option<C>,
    text_color: Option<C>,
    thickness: int,
) -> Seq<CommandModel<C>>
    decreases max(range.end - m, 0),
    when step >= 1
{
    if m >= range.end {
        Seq::empty()
    } else {
        let py = scale_value(m, range, Range { start: y2, end: y1 });
        seq![
            CommandModel::Line {
                start: PointModel { x: x - tick_size, y: py },
                end: PointModel { x: x + tick_size, y: py },
                color,
                thickness,
            },
            CommandModel::Text {
                content: decimal(m),
                position: PointModel { x: x as int, y: py },
                alignment: TextAlignment::Right,
                baseline: TextBaseline::Top,
                color: text_color,
            },
        ] + y_tick_models(m + step, range, step, y1, y2, x, tick_size, color, text_color, thickness)
    }
}

/// The left edge of the leftmost tick label of a vertical axis whose ticks
/// start at data position `m`; the largest `i32` value when there is no
/// tick.  A label of `n` characters, right-aligned at `x`, starts at
/// `x - 5*n + 1`.
pub open spec fn y_labels_left_bound(m: int, end: int, step: int, x: i32) -> int
    decreases max(end - m, 0),
    when step >= 1
{
    if m >= end {
        i32::MAX as int
    } else {
        min(x - 5 * decimal(m).len() + 1, y_labels_left_bound(m + step, end, step, x))
    }
}

/// All drawing commands of an axis at its placement: the main line; for a
/// horizontal axis the title below the middle of the line, then the ticks;
/// for a vertical axis the ticks, then the title, pushed left of the
/// widest tick label.
pub open spec fn axis_models<C>(
    range: Range<i32>,
    title: Option<Seq<char>>,
    scale: Scale,
    placement: Placement,
    color: Option<C>,
    text_color: Option<C>,
    tick_size: int,
    thickness: int,
) -> Seq<CommandModel<C>> {
    let step = tick_step(scale, range);
    match placement {
        Placement::X { x1, x2, y } => seq![
            CommandModel::Line {
                start: PointModel { x: x1 as int, y: y as int },
                end: PointModel { x: x2 as int, y: y as int },
                color,
                thickness,
            },
        ] + (match title {
            Some(t) => seq![
                CommandModel::Text {
                    content: t,
                    position: PointModel { x: x1 + trunc_div(x2 - x1, 2), y: y + 10 },
                    alignment: TextAlignment::Center,
                    baseline: TextBaseline::Top,
                    color: text_color,
                },
            ],
            None => Seq::empty(),
        }) + x_tick_models(
            range.start as int,
            range,
            step,
            x1,
            x2,
            y,
            tick_size,
            color,
            text_color,
            thickness,
        ),
        Placement::Y { y1, y2, x } => seq![
            CommandModel::Line {
                start: PointModel { x: x as int, y: y1 as int },
                end: PointModel { x: x as int, y: y2 as int },
                color,
                thickness,
            },
        ] + y_tick_models(
            range.start as int,
            range,
            step,
            y1,
            y2,
            x,
            tick_size,
            color,
            text_color,
            thickness,
        ) + (match title {
            Some(t) => seq![
                CommandModel::Text {
                    content: t,
                    position: PointModel {
                        x: y_labels_left_bound(range.start as int, range.end as int, step, x) - 1,
                        y: y1 + trunc_div(y2 - y1, 2),
                    },
                    alignment: TextAlignment::Right,
                    baseline: TextBaseline::Middle,
                    color: text_color,
                },
            ],
            None => Seq::empty(),
        }),
    }
}

/// Every data value of the range maps into the destination range within
/// machine bounds, with room for `extra` pixels beside the mapped value.
pub open spec fn marks_fit(range: Range<i32>, dest: Range<i32>, extra: int) -> bool {
    forall|m: int|
        range.start <= m < range.end ==> #[trigger] scale_fits(m, range, dest) && fits_i32(
            scale_value(m, range, dest) + extra,
        )
}

/// The number of ticks generated on a data range from position `m`: one
/// per step until the end of the range.
pub open spec fn tick_count(m: int, end: int, step: int) -> int
    decreases max(end - m, 0),
    when step >= 1
{
    if m >= end {
        0
    } else {
        1 + tick_count(m + step, end, step)
    }
}

/// Every tick policy yields a step of at least one: a zero step or a zero
/// divisor is treated as one, so tick generation never divides by zero and
/// never stalls.
pub proof fn lemma_tick_step_at_least_one(scale: Scale, range: Range<i32>)
    ensures
        tick_step(scale, range) >= 1,
{
}

/// A horizontal axis draws two commands per generated tick — the mark and
/// its label — and a non-empty range generates at least one tick.
pub proof fn lemma_x_tick_command_count<C>(
    m: int,
    range: Range<i32>,
    step: int,
    x1: i32,
    x2: i32,
    y: i32,
    tick_size: int,
    color: Option<C>,
    text_color: Option<C>,
    thickness: int,
)
    requires
        step >= 1,
    ensures
        x_tick_models(m, range, step, x1, x2, y, tick_size, color, text_color, thickness).len()
            == 2 * tick_count(m, range.end as int, step),
        m < range.end ==> tick_count(m, range.end as int, step) >= 1,
    decreases max(range.end - m, 0),
{
    if m < range.end {
        lemma_x_tick_command_count(
            m + step,
            range,
            step,
            x1,
            x2,
            y,
            tick_size,
            color,
            text_color,
            thickness,
        );
        assert(tick_count(m + step, range.end as int, step) >= 0);
    }
}

/// The number of generated ticks in closed form: the span of the range
/// divided by the step, rounded upward.  For the range-fraction policy
/// with divisor `n` on a range of length `L`, the step is `L / n`
/// (floored to one), so about `n` ticks are generated.
pub proof fn lemma_tick_count_closed_form(m: int, end: int, step: int)
    requires
        step >= 1,
        m < end,
    ensures
        tick_count(m, end, step) == (end - m - 1) / step + 1,
    decreases max(end - m, 0),
{
    if m + step >= end {
        assert(tick_count(m + step, end, step) == 0);
        assert(tick_count(m, end, step) == 1);
        assert(0 <= end - m - 1 < step);
        vstd::arithmetic::div_mod::lemma_basic_div(end - m - 1, step);
    } else {
        lemma_tick_count_closed_form(m + step, end, step);
        assert(tick_count(m, end, step) == 1 + tick_count(m + step, end, step));
        vstd::arithmetic::div_mod::lemma_div_plus_one(end - m - step - 1, step);
        assert(step + (end - m - step - 1) == end - m - 1);
        assert((end - m - 1) / step == 1 + (end - m - step - 1) / step);
    }
}

/// Machine-bound conditions for laying out an axis: every coordinate the
/// layout computes stays within `i32`.  These constrain only what the
/// machine arithmetic could overflow.
pub open spec fn axis_layout_fits(
    range: Range<i32>,
    placement: Placement,
    tick_size: int,
    has_title: bool,
) -> bool {
    match placement {
        Placement::X { x1, x2, y } => {
            &&& (has_title ==> fits_i32(x2 - x1) && fits_i32(y + 10))
            &&& (range.start < range.end ==> {
                &&& tick_size <= i32::MAX
                &&& fits_i32(y - tick_size)
                &&& fits_i32(y + tick_size)
                &&& fits_i32(y + 2)
                &&& marks_fit(range, Range { start: x1, end: x2 }, 2)
            })
        },
        Placement::Y { y1, y2, x } => {
            &&& (has_title ==> fits_i32(y2 - y1))
            &&& (range.start < range.end ==> {
                &&& tick_size <= i32::MAX
                &&& fits_i32(x - tick_size)
                &&& fits_i32(x + tick_size)
                &&& fits_i32(x - 55)
                &&& x < i32::MAX
                &&& marks_fit(range, Range { start: y2, end: y1 }, 0)
            })
        },
    }
}

/// For a range and destination of moderate magnitude every mark maps
/// within machine bounds.
pub proof fn lemma_marks_fit_moderate(range: Range<i32>, dest: Range<i32>, extra: int)
    requires
        -(MODERATE as int) <= range.start <= MODERATE as int,
        -(MODERATE as int) <= range.end <= MODERATE as int,
        -(MODERATE as int) <= dest.start <= MODERATE as int,
        -(MODERATE as int) <= dest.end <= MODERATE as int,
        0 <= extra <= MODERATE as int,
    ensures
        marks_fit(range, dest, extra),
{
    assert forall|m: int| range.start <= m < range.end implies #[trigger] scale_fits(
        m,
        range,
        dest,
    ) && fits_i32(scale_value(m, range, dest) + extra) by {
        lemma_scale_fits_moderate(m, range, dest);
    }
}

/// For a placement, range and tick size of moderate magnitude the whole
/// axis layout stays within machine bounds.
pub proof fn lemma_axis_layout_fits_moderate(
    range: Range<i32>,
    placement: Placement,
    tick_size: int,
    has_title: bool,
)
    requires
        -(MODERATE as int) <= range.start <= MODERATE as int,
        -(MODERATE as int) <= range.end <= MODERATE as int,
        0 <= tick_size <= MODERATE as int,
        match placement {
            Placement::X { x1, x2, y } => {
                &&& -(MODERATE as int) <= x1 <= MODERATE as int
                &&& -(MODERATE as int) <= x2 <= MODERATE as int
                &&& -(MODERATE as int) <= y <= MODERATE as int
            },
            Placement::Y { y1, y2, x } => {
                &&& -(MODERATE as int) <= y1 <= MODERATE as int
                &&& -(MODERATE as int) <= y2 <= MODERATE as int
                &&& -(MODERATE as int) <= x <= MODERATE as int
            },
        },
    ensures
        axis_layout_fits(range, placement, tick_size, has_title),
{
    match placement {
        Placement::X { x1, x2, y } => {
            if range.start < range.end {
                lemma_marks_fit_moderate(range, Range { start: x1, end: x2 }, 2);
            }
        },
        Placement::Y { y1, y2, x } => {
            if range.start < range.end {
                lemma_marks_fit_moderate(range, Range { start: y2, end: y1 }, 0);
            }
        },
    }
}

/// The label bound of a vertical axis lies between `x - 54` and the
/// largest `i32` value.
proof fn lemma_y_labels_left_bound_range(m: int, end: int, step: int, x: i32)
    requires
        step >= 1,
        i32::MIN <= m,
        end <= i32::MAX,
    ensures
        min(x - 54, i32::MAX as int) <= y_labels_left_bound(m, end, step, x) <= i32::MAX,
    decreases max(end - m, 0),
{
    if m < end {
        lemma_decimal_i32(m);
        lemma_y_labels_left_bound_range(m + step, end, step, x);
    }
}

/// Display-agnostic axis object: contains a data range, an optional title
/// and an optional tick policy; converted to a drawable axis for a
/// placement on a specific display.
pub struct Axis<'a> {
    /// range that the scale will be drawn for
    range: Range<i32>,
    /// axis title displayed right next to it
    title: Option<&'a str>,
    /// definition of how scale ticks should be drawn
    scale: Option<Scale>,
}

impl<'a> Axis<'a> {
    /// The data range of this axis.
    pub closed spec fn spec_range(&self) -> Range<i32> {
        self.range
    }

    /// The configured title, if any.
    pub closed spec fn spec_title(&self) -> Option<&'a str> {
        self.title
    }

    /// The configured tick policy, if any.
    pub closed spec fn spec_scale(&self) -> Option<Scale> {
        self.scale
    }

    /// create new axis data
    pub fn new(range: Range<i32>) -> (r: Axis<'a>)
        ensures
            r.spec_range() == range,
            r.spec_title() is None,
            r.spec_scale() is None,
    {
        Axis { range, title: None, scale: None }
    }

    /// define how scale ticks should be drawn
    pub fn set_scale(self, scale: Scale) -> (r: Axis<'a>)
        ensures
            r.spec_range() == self.spec_range(),
            r.spec_title() == self.spec_title(),
            r.spec_scale() == Some(scale),
    {
        Axis { range: self.range, title: self.title, scale: Some(scale) }
    }

    /// set axis title
    pub fn set_title(self, title: &'a str) -> (r: Axis<'a>)
        ensures
            r.spec_range() == self.spec_range(),
            r.spec_title() == Some(title),
            r.spec_scale() == self.spec_scale(),
    {
        Axis { range: self.range, title: Some(title), scale: self.scale }
    }

    /// turn axis data into a drawable object bound to a placement
    pub fn into_drawable_axis<C>(self, placement: Placement) -> (r: DrawableAxis<'a, C>)
        ensures
            r.spec_axis() == self,
            r.spec_placement() == placement,
            r.spec_color() is None,
            r.spec_text_style() is None,
            r.spec_tick_size() is None,
            r.spec_thickness() is None,
    {
        DrawableAxis {
            axis: self,
            placement,
            color: None,
            text_style: None,
            tick_size: None,
            thickness: None,
        }
    }
}

/// Drawable axis object, bound to a placement and ready for styling.
pub struct DrawableAxis<'a, C> {
    axis: Axis<'a>,
    placement: Placement,
    color: Option<C>,
    text_style: Option<AxisTextStyle<C>>,
    tick_size: Option<usize>,
    thickness: Option<usize>,
}

impl<'a, C> DrawableAxis<'a, C> {
    /// The underlying axis data.
    pub closed spec fn spec_axis(&self) -> Axis<'a> {
        self.axis
    }

    /// The placement this axis is bound to.
    pub closed spec fn spec_placement(&self) -> Placement {
        self.placement
    }

    /// The configured axis color, if any.
    pub closed spec fn spec_color(&self) -> Option<C> {
        self.color
    }

    /// The configured text style, if any.
    pub closed spec fn spec_text_style(&self) -> Option<AxisTextStyle<C>> {
        self.text_style
    }

    /// The configured tick half-length, if any.
    pub closed spec fn spec_tick_size(&self) -> Option<usize> {
        self.tick_size
    }

    /// The configured main-line thickness, if any.
    pub closed spec fn spec_thickness(&self) -> Option<usize> {
        self.thickness
    }

    /// All drawing commands this axis produces.
    pub open spec fn spec_commands(&self) -> Seq<CommandModel<C>> {
        axis_models(
            self.spec_axis().spec_range(),
            title_view(self.spec_axis().spec_title()),
            scale_or_default(self.spec_axis().spec_scale()),
            self.spec_placement(),
            self.spec_color(),
            axis_text_color(self.spec_text_style(), self.spec_color()),
            axis_tick_size(self.spec_tick_size()),
            axis_thickness(self.spec_thickness()),
        )
    }

    /// The layout of this axis stays within machine bounds.
    pub open spec fn spec_layout_fits(&self) -> bool {
        axis_layout_fits(
            self.spec_axis().spec_range(),
            self.spec_placement(),
            axis_tick_size(self.spec_tick_size()),
            self.spec_axis().spec_title() is Some,
        )
    }

    /// set axis color
    pub fn set_color(self, val: C) -> (r: DrawableAxis<'a, C>)
        ensures
            r.spec_axis() == self.spec_axis(),
            r.spec_placement() == self.spec_placement(),
            r.spec_color() == Some(val),
            r.spec_text_style() == self.spec_text_style(),
            r.spec_tick_size() == self.spec_tick_size(),
            r.spec_thickness() == self.spec_thickness(),
    {
        DrawableAxis {
            axis: self.axis,
            placement: self.placement,
            color: Some(val),
            text_style: self.text_style,
            tick_size: self.tick_size,
            thickness: self.thickness,
        }
    }

    /// set the style of tick labels and the title
    pub fn set_text_style(self, val: AxisTextStyle<C>) -> (r: DrawableAxis<'a, C>)
        ensures
            r.spec_axis() == self.spec_axis(),
            r.spec_placement() == self.spec_placement(),
            r.spec_color() == self.spec_color(),
            r.spec_text_style() == Some(val),
            r.spec_tick_size() == self.spec_tick_size(),
            r.spec_thickness() == self.spec_thickness(),
    {
        DrawableAxis {
            axis: self.axis,
            placement: self.placement,
            color: self.color,
            text_style: Some(val),
            tick_size: self.tick_size,
            thickness: self.thickness,
        }
    }

    /// set how wide a tick should be drawn on the axis
    pub fn set_tick_size(self, val: usize) -> (r: DrawableAxis<'a, C>)
        ensures
            r.spec_axis() == self.spec_axis(),
            r.spec_placement() == self.spec_placement(),
            r.spec_color() == self.spec_color(),
            r.spec_text_style() == self.spec_text_style(),
            r.spec_tick_size() == Some(val),
            r.spec_thickness() == self.spec_thickness(),
    {
        DrawableAxis {
            axis: self.axis,
            placement: self.placement,
            color: self.color,
            text_style: self.text_style,
            tick_size: Some(val),
            thickness: self.thickness,
        }
    }

    /// set thickness of the main line of the axis
    pub fn set_thickness(self, val: usize) -> (r: DrawableAxis<'a, C>)
        ensures
            r.spec_axis() == self.spec_axis(),
            r.spec_placement() == self.spec_placement(),
            r.spec_color() == self.spec_color(),
            r.spec_text_style() == self.spec_text_style(),
            r.spec_tick_size() == self.spec_tick_size(),
            r.spec_thickness() == Some(val),
    {
        DrawableAxis {
            axis: self.axis,
            placement: self.placement,
            color: self.color,
            text_style: self.text_style,
            tick_size: self.tick_size,
            thickness: Some(val),
        }
    }
}

impl<'a, C> DrawableAxis<'a, C> {
    /// The range, placement and tick size of this axis all lie within the
    /// moderate band.
    pub open spec fn spec_moderate_layout(&self) -> bool {
        &&& within_moderate(self.spec_axis().spec_range().start as int)
        &&& within_moderate(self.spec_axis().spec_range().end as int)
        &&& axis_tick_size(self.spec_tick_size()) <= MODERATE as int
        &&& match self.spec_placement() {
            Placement::X { x1, x2, y } => within_moderate(x1 as int) && within_moderate(x2 as int)
                && within_moderate(y as int),
            Placement::Y { y1, y2, x } => within_moderate(y1 as int) && within_moderate(y2 as int)
                && within_moderate(x as int),
        }
    }

    /// Tests that everything this axis lays out lies within the moderate
    /// band `[-MODERATE, MODERATE]`; that is sufficient (not necessary)
    /// for the layout to stay within machine bounds, so `draw_commands`
    /// may then be called.
    pub fn layout_fits_moderate(&self) -> (r: bool)
        ensures
            r == self.spec_moderate_layout(),
            r ==> self.spec_layout_fits(),
    {
        let range_ok = -MODERATE <= self.axis.range.start && self.axis.range.start <= MODERATE
            && -MODERATE <= self.axis.range.end && self.axis.range.end <= MODERATE;
        let tick_size: usize = match self.tick_size {
            None => 2,
            Some(t) => t,
        };
        let tick_ok = tick_size <= MODERATE as usize;
        let placement_ok = match self.placement {
            Placement::X { x1, x2, y } => -MODERATE <= x1 && x1 <= MODERATE && -MODERATE <= x2
                && x2 <= MODERATE && -MODERATE <= y && y <= MODERATE,
            Placement::Y { y1, y2, x } => -MODERATE <= y1 && y1 <= MODERATE && -MODERATE <= y2
                && y2 <= MODERATE && -MODERATE <= x && x <= MODERATE,
        };
        let r = range_ok && tick_ok && placement_ok;
        proof {
            if r {
                lemma_axis_layout_fits_moderate(
                    self.spec_axis().spec_range(),
                    self.spec_placement(),
                    axis_tick_size(self.spec_tick_size()),
                    self.spec_axis().spec_title() is Some,
                );
            }
        }
        r
    }
}

/// The coordinate halfway between `a` and `b`, rounded toward `a`, as the
/// machine computes `a + (b - a) / 2`.
fn segment_midpoint(a: i32, b: i32) -> (r: i32)
    requires
        fits_i32(b - a),
    ensures
        r == a + trunc_div(b as int - a as int, 2),
{
    let d: i64 = b as i64 - a as i64;
    if d < 0 {
        let half: i64 = -((-d) / 2);
        proof {
            lemma_div_pos_is_pos(-d as int, 2);
            lemma_div_is_ordered_by_denominator(-d as int, 1, 2);
            vstd::arithmetic::div_mod::lemma_div_basics(-d as int);
        }
        (a as i64 + half) as i32
    } else {
        let half: i64 = d / 2;
        proof {
            lemma_div_pos_is_pos(d as int, 2);
            lemma_div_is_ordered_by_denominator(d as int, 1, 2);
            vstd::arithmetic::div_mod::lemma_div_basics(d as int);
        }
        (a as i64 + half) as i32
    }
}

impl<'a, C: Copy> DrawableAxis<'a, C> {
    /// draw the axis: the main line, then per generated tick a mark across
    /// the line and a numeric label, and the title, if one is set
    pub fn draw_commands(&self) -> (cmds: Vec<DrawCommand<C>>)
        requires
            self.spec_layout_fits(),
        ensures
            cmds.deep_view() == self.spec_commands(),
    {
        let ghost g_full = self.spec_commands();
        let ghost g_range = self.spec_axis().spec_range();
        let range_start = self.axis.range.start;
        let range_end = self.axis.range.end;
        let color = self.color;
        let thickness: usize = match self.thickness {
            None => 1,
            Some(t) => t,
        };
        let tick_size: usize = match self.tick_size {
            None => 2,
            Some(t) => t,
        };
        let text_color: Option<C> = match &self.text_style {
            Some(style) => style.text_color,
            None => color,
        };
        let scale = match self.axis.scale {
            None => Scale::default(),
            Some(s) => s,
        };
        let step: u64 = match scale {
            Scale::Fixed(interval) => if interval == 0 {
                1
            } else {
                interval as u64
            },
            Scale::RangeFraction(fraction) => {
                let len_wide: i64 = range_end as i64 - range_start as i64;
                let len: u64 = if len_wide > 0 {
                    len_wide as u64
                } else {
                    0
                };
                let divisor: u64 = if fraction == 0 {
                    1
                } else {
                    fraction as u64
                };
                let quotient: u64 = len / divisor;
                if quotient == 0 {
                    1
                } else {
                    quotient
                }
            },
        };
        let ghost g_step = tick_step(scale_or_default(self.spec_axis().spec_scale()), g_range);
        proof {
            assert(step as int == g_step);
        }
        let step_iter: i64 = if step > 0xFFFF_FFFFu64 {
            0x1_0000_0000i64
        } else {
            step as i64
        };
        match self.placement {
            Placement::X { x1, x2, y } => {
                let mut cmds: Vec<DrawCommand<C>> = Vec::new();
                cmds.push(
                    DrawCommand::Line {
                        start: PixelPoint { x: x1, y },
                        end: PixelPoint { x: x2, y },
                        color,
                        thickness,
                    },
                );
                match self.axis.title {
                    Some(title) => {
                        let mid = segment_midpoint(x1, x2);
                        cmds.push(
                            DrawCommand::Text {
                                content: String::from_str(title),
                                position: PixelPoint { x: mid, y: y + 10 },
                                alignment: TextAlignment::Center,
                                baseline: TextBaseline::Top,
                                color: text_color,
                            },
                        );
                    },
                    None => {},
                }
                let mut mark: i64 = range_start as i64;
                proof {
                    assert(cmds.deep_view() + x_tick_models(
                        mark as int,
                        g_range,
                        g_step,
                        x1,
                        x2,
                        y,
                        tick_size as int,
                        color,
                        text_color,
                        thickness as int,
                    ) =~= g_full);
                }
                while mark < range_end as i64
                    invariant
                        self.spec_layout_fits(),
                        self.spec_placement() == (Placement::X { x1, x2, y }),
                        g_range == self.spec_axis().spec_range(),
                        g_range.start == range_start,
                        g_range.end == range_end,
                        color == self.spec_color(),
                        text_color == axis_text_color(self.spec_text_style(), self.spec_color()),
                        thickness as int == axis_thickness(self.spec_thickness()),
                        tick_size as int == axis_tick_size(self.spec_tick_size()),
                        g_step == step as int,
                        step >= 1,
                        step <= 0xFFFF_FFFFu64 ==> step_iter == step as int,
                        step > 0xFFFF_FFFFu64 ==> step_iter == 0x1_0000_0000i64,
                        range_start as i64 <= mark,
                        cmds.deep_view() + x_tick_models(
                            mark as int,
                            g_range,
                            g_step,
                            x1,
                            x2,
                            y,
                            tick_size as int,
                            color,
                            text_color,
                            thickness as int,
                        ) == g_full,
                    decreases max(range_end as int - mark as int, 0),
                {
                    let ghost old_dv = cmds.deep_view();
                    let ghost g_mark = mark as int;
                    let m32 = mark as i32;
                    proof {
                        assert(g_range.start < g_range.end);
                        assert(m32 as int == g_mark);
                        assert(axis_layout_fits(
                            g_range,
                            Placement::X { x1, x2, y },
                            tick_size as int,
                            self.spec_axis().spec_title() is Some,
                        ));
                        assert(marks_fit(g_range, Range { start: x1, end: x2 }, 2));
                        assert(scale_fits(g_mark, g_range, Range { start: x1, end: x2 }));
                        assert(fits_i32(scale_value(g_mark, g_range, Range { start: x1, end: x2 })
                            + 2));
                    }
                    let dest = Range { start: x1, end: x2 };
                    let px = scale_between_ranges(m32, &self.axis.range, &dest);
                    proof {
                        assert(px as int == scale_value(g_mark, g_range, Range { start: x1, end: x2 }));
                        assert(fits_i32(px as int + 2) && fits_i32(y as int + 2));
                    }
                    let ts32 = tick_size as i32;
                    cmds.push(
                        DrawCommand::Line {
                            start: PixelPoint { x: px, y: y - ts32 },
                            end: PixelPoint { x: px, y: y + ts32 },
                            color,
                            thickness,
                        },
                    );
                    let label = format_i32(m32);
                    cmds.push(
                        DrawCommand::Text {
                            content: label,
                            position: PixelPoint { x: px + 2, y: y + 2 },
                            alignment: TextAlignment::Left,
                            baseline: TextBaseline::Top,
                            color: text_color,
                        },
                    );
                    proof {
                        let rest = x_tick_models(
                            g_mark + g_step,
                            g_range,
                            g_step,
                            x1,
                            x2,
                            y,
                            tick_size as int,
                            color,
                            text_color,
                            thickness as int,
                        );
                        assert(cmds.deep_view() =~= old_dv + x_tick_models(
                            g_mark,
                            g_range,
                            g_step,
                            x1,
                            x2,
                            y,
                            tick_size as int,
                            color,
                            text_color,
                            thickness as int,
                        ).take(2));
                        assert(cmds.deep_view() + rest =~= g_full);
                        if step > 0xFFFF_FFFFu64 {
                            assert(g_mark + step_iter as int >= range_end);
                            assert(g_mark + g_step >= range_end);
                        }
                    }
                    mark = mark + step_iter;
                }
                proof {
                    assert(cmds.deep_view() =~= g_full);
                }
                cmds
            },
            Placement::Y { y1, y2, x } => {
                let mut cmds: Vec<DrawCommand<C>> = Vec::new();
                cmds.push(
                    DrawCommand::Line {
                        start: PixelPoint { x, y: y1 },
                        end: PixelPoint { x, y: y2 },
                        color,
                        thickness,
                    },
                );
                let mut bound: i32 = i32::MAX;
                let mut mark: i64 = range_start as i64;
                proof {
                    assert(cmds.deep_view() + y_tick_models(
                        mark as int,
                        g_range,
                        g_step,
                        y1,
                        y2,
                        x,
                        tick_size as int,
                        color,
                        text_color,
                        thickness as int,
                    ) + (match title_view(self.spec_axis().spec_title()) {
                        Some(t) => seq![
                            CommandModel::<C>::Text {
                                content: t,
                                position: PointModel {
                                    x: y_labels_left_bound(
                                        range_start as int,
                                        range_end as int,
                                        g_step,
                                        x,
                                    ) - 1,
                                    y: y1 + trunc_div(y2 - y1, 2),
                                },
                                alignment: TextAlignment::Right,
                                baseline: TextBaseline::Middle,
                                color: text_color,
                            },
                        ],
                        None => Seq::empty(),
                    }) =~= g_full);
                }
                while mark < range_end as i64
                    invariant
                        self.spec_layout_fits(),
                        self.spec_placement() == (Placement::Y { y1, y2, x }),
                        g_range == self.spec_axis().spec_range(),
                        g_range.start == range_start,
                        g_range.end == range_end,
                        color == self.spec_color(),
                        text_color == axis_text_color(self.spec_text_style(), self.spec_color()),
                        thickness as int == axis_thickness(self.spec_thickness()),
                        tick_size as int == axis_tick_size(self.spec_tick_size()),
                        g_step == step as int,
                        step >= 1,
                        step <= 0xFFFF_FFFFu64 ==> step_iter == step as int,
                        step > 0xFFFF_FFFFu64 ==> step_iter == 0x1_0000_0000i64,
                        range_start as i64 <= mark,
                        min(
                            bound as int,
                            y_labels_left_bound(mark as int, range_end as int, g_step, x),
                        ) == y_labels_left_bound(range_start as int, range_end as int, g_step, x),
                        cmds.deep_view() + y_tick_models(
                            mark as int,
                            g_range,
                            g_step,
                            y1,
                            y2,
                            x,
                            tick_size as int,
                            color,
                            text_color,
                            thickness as int,
                        ) + (match title_view(self.spec_axis().spec_title()) {
                            Some(t) => seq![
                                CommandModel::<C>::Text {
                                    content: t,
                                    position: PointModel {
                                        x: y_labels_left_bound(
                                            range_start as int,
                                            range_end as int,
                                            g_step,
                                            x,
                                        ) - 1,
                                        y: y1 + trunc_div(y2 - y1, 2),
                                    },
                                    alignment: TextAlignment::Right,
                                    baseline: TextBaseline::Middle,
                                    color: text_color,
                                },
                            ],
                            None => Seq::empty(),
                        }) == g_full,
                    decreases max(range_end as int - mark as int, 0),
                {
                    let ghost old_dv = cmds.deep_view();
                    let ghost g_mark = mark as int;
                    let m32 = mark as i32;
                    proof {
                        assert(g_range.start < g_range.end);
                        assert(m32 as int == g_mark);
                        assert(axis_layout_fits(
                            g_range,
                            Placement::Y { y1, y2, x },
                            tick_size as int,
                            self.spec_axis().spec_title() is Some,
                        ));
                        assert(marks_fit(g_range, Range { start: y2, end: y1 }, 0));
                        assert(scale_fits(g_mark, g_range, Range { start: y2, end: y1 }));
                        lemma_decimal_i32(g_mark);
                    }
                    let dest = Range { start: y2, end: y1 };
                    let py = scale_between_ranges(m32, &self.axis.range, &dest);
                    let ts32 = tick_size as i32;
                    cmds.push(
                        DrawCommand::Line {
                            start: PixelPoint { x: x - ts32, y: py },
                            end: PixelPoint { x: x + ts32, y: py },
                            color,
                            thickness,
                        },
                    );
                    let label = format_i32(m32);
                    let left = label_left_edge(label.as_str(), x);
                    if left < bound {
                        bound = left;
                    }
                    cmds.push(
                        DrawCommand::Text {
                            content: label,
                            position: PixelPoint { x, y: py },
                            alignment: TextAlignment::Right,
                            baseline: TextBaseline::Top,
                            color: text_color,
                        },
                    );
                    proof {
                        let rest = y_tick_models(
                            g_mark + g_step,
                            g_range,
                            g_step,
                            y1,
                            y2,
                            x,
                            tick_size as int,
                            color,
                            text_color,
                            thickness as int,
                        );
                        assert(cmds.deep_view() =~= old_dv + y_tick_models(
                            g_mark,
                            g_range,
                            g_step,
                            y1,
                            y2,
                            x,
                            tick_size as int,
                            color,
                            text_color,
                            thickness as int,
                        ).take(2));
                        assert(cmds.deep_view() + rest + (match title_view(
                            self.spec_axis().spec_title(),
                        ) {
                            Some(t) => seq![
                                CommandModel::<C>::Text {
                                    content: t,
                                    position: PointModel {
                                        x: y_labels_left_bound(
                                            range_start as int,
                                            range_end as int,
                                            g_step,
                                            x,
                                        ) - 1,
                                        y: y1 + trunc_div(y2 - y1, 2),
                                    },
                                    alignment: TextAlignment::Right,
                                    baseline: TextBaseline::Middle,
                                    color: text_color,
                                },
                            ],
                            None => Seq::empty(),
                        }) =~= g_full);
                        assert(y_labels_left_bound(g_mark, range_end as int, g_step, x) == min(
                            x - 5 * decimal(g_mark).len() + 1,
                            y_labels_left_bound(g_mark + g_step, range_end as int, g_step, x),
                        ));
                        assert(left as int == x - 5 * decimal(g_mark).len() + 1);
                        if step > 0xFFFF_FFFFu64 {
                            assert(g_mark + step_iter as int >= range_end);
                            assert(g_mark + g_step >= range_end);
                            assert(y_labels_left_bound(
                                g_mark + g_step,
                                range_end as int,
                                g_step,
                                x,
                            ) == i32::MAX as int);
                            assert(y_labels_left_bound(
                                g_mark + step_iter as int,
                                range_end as int,
                                g_step,
                                x,
                            ) == i32::MAX as int);
                        }
                        assert(min(
                            bound as int,
                            y_labels_left_bound(
                                g_mark + step_iter as int,
                                range_end as int,
                                g_step,
                                x,
                            ),
                        ) == y_labels_left_bound(range_start as int, range_end as int, g_step, x));
                    }
                    mark = mark + step_iter;
                }
                match self.axis.title {
                    Some(title) => {
                        proof {
                            if range_start < range_end {
                                lemma_y_labels_left_bound_range(
                                    range_start as int,
                                    range_end as int,
                                    g_step,
                                    x,
                                );
                            }
                            assert(bound as int == y_labels_left_bound(
                                range_start as int,
                                range_end as int,
                                g_step,
                                x,
                            ));
                        }
                        let mid = segment_midpoint(y1, y2);
                        cmds.push(
                            DrawCommand::Text {
                                content: String::from_str(title),
                                position: PixelPoint { x: bound - 1, y: mid },
                                alignment: TextAlignment::Right,
                                baseline: TextBaseline::Middle,
                                color: text_color,
                            },
                        );
                    },
                    None => {},
                }
                proof {
                    assert(cmds.deep_view() =~= g_full);
                }
                cmds
            },
        }
    }
}

} // verus!

