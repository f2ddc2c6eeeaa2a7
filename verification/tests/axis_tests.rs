use embedded_plots::axis::{Axis, AxisTextStyle, Placement, Scale};
use embedded_plots::command::{DrawCommand, PixelPoint, TextAlignment, TextBaseline};
use embedded_graphics::pixelcolor::BinaryColor;

type Cmd = DrawCommand<BinaryColor>;

fn axis_commands(
    range: core::ops::Range<i32>,
    title: Option<&str>,
    scale: Option<Scale>,
    placement: Placement,
) -> Vec<Cmd> {
    let mut axis = Axis::new(range);
    if let Some(t) = title {
        axis = axis.set_title(t);
    }
    if let Some(s) = scale {
        axis = axis.set_scale(s);
    }
    axis.into_drawable_axis::<BinaryColor>(placement).draw_commands()
}

#[test]
fn default_scale_is_five_range_fractions() {
    assert!(matches!(Scale::default(), Scale::RangeFraction(5)));
}

#[test]
fn horizontal_axis_line_ticks_and_labels() {
    let commands = axis_commands(
        0..30,
        None,
        Some(Scale::Fixed(10)),
        Placement::X { x1: 0, x2: 300, y: 100 },
    );
    // The main line, then per tick (at 0, 10, 20) a mark and a label.
    assert_eq!(commands.len(), 7);
    match &commands[0] {
        DrawCommand::Line { start, end, color, thickness } => {
            assert_eq!(start, &PixelPoint { x: 0, y: 100 });
            assert_eq!(end, &PixelPoint { x: 300, y: 100 });
            assert_eq!(color, &None);
            assert_eq!(*thickness, 1);
        }
        other => panic!("expected the axis line, got {:?}", other),
    }
    let expected = [(0, "0"), (100, "10"), (200, "20")];
    for (i, (px, label)) in expected.iter().enumerate() {
        match &commands[1 + 2 * i] {
            DrawCommand::Line { start, end, .. } => {
                assert_eq!(start, &PixelPoint { x: *px, y: 98 });
                assert_eq!(end, &PixelPoint { x: *px, y: 102 });
            }
            other => panic!("expected a tick mark, got {:?}", other),
        }
        match &commands[2 + 2 * i] {
            DrawCommand::Text { content, position, alignment, baseline, .. } => {
                assert_eq!(content, label);
                assert_eq!(position, &PixelPoint { x: px + 2, y: 102 });
                assert_eq!(alignment, &TextAlignment::Left);
                assert_eq!(baseline, &TextBaseline::Top);
            }
            other => panic!("expected a tick label, got {:?}", other),
        }
    }
}

#[test]
fn horizontal_axis_title_is_centered_below() {
    let commands = axis_commands(
        0..30,
        Some("X"),
        Some(Scale::Fixed(10)),
        Placement::X { x1: 50, x2: 350, y: 100 },
    );
    match &commands[1] {
        DrawCommand::Text { content, position, alignment, baseline, .. } => {
            assert_eq!(content, "X");
            assert_eq!(position, &PixelPoint { x: 200, y: 110 });
            assert_eq!(alignment, &TextAlignment::Center);
            assert_eq!(baseline, &TextBaseline::Top);
        }
        other => panic!("expected the title, got {:?}", other),
    }
}

#[test]
fn fixed_step_zero_is_treated_as_one() {
    let commands = axis_commands(
        0..3,
        None,
        Some(Scale::Fixed(0)),
        Placement::X { x1: 0, x2: 30, y: 0 },
    );
    // Ticks at 0, 1 and 2: the zero step fell back to one, not a hang.
    assert_eq!(commands.len(), 1 + 3 * 2);
}

#[test]
fn range_fraction_zero_divisor_is_treated_as_one() {
    let commands = axis_commands(
        0..10,
        None,
        Some(Scale::RangeFraction(0)),
        Placement::X { x1: 0, x2: 100, y: 0 },
    );
    // Divisor 1 makes the step span the whole range: a single tick at 0.
    assert_eq!(commands.len(), 1 + 1 * 2);
}

#[test]
fn range_fraction_generates_one_tick_per_section() {
    let commands = axis_commands(
        0..60,
        None,
        Some(Scale::RangeFraction(3)),
        Placement::X { x1: 0, x2: 60, y: 0 },
    );
    // Ticks at 0, 20 and 40.
    assert_eq!(commands.len(), 1 + 3 * 2);
}

#[test]
fn empty_range_draws_only_the_line() {
    let commands = axis_commands(
        7..7,
        None,
        Some(Scale::RangeFraction(5)),
        Placement::X { x1: 0, x2: 100, y: 0 },
    );
    assert_eq!(commands.len(), 1);
}

#[test]
fn vertical_axis_is_inverted() {
    let commands = axis_commands(
        0..2,
        None,
        Some(Scale::RangeFraction(2)),
        Placement::Y { y1: 10, y2: 250, x: 50 },
    );
    // Data 0 sits at the bottom row (250), data 1 in between (130): the
    // range maximum would sit at the top row (10).
    assert_eq!(commands.len(), 1 + 2 * 2);
    match &commands[1] {
        DrawCommand::Line { start, end, .. } => {
            assert_eq!(start, &PixelPoint { x: 48, y: 250 });
            assert_eq!(end, &PixelPoint { x: 52, y: 250 });
        }
        other => panic!("expected a tick mark, got {:?}", other),
    }
    match &commands[3] {
        DrawCommand::Line { start, end, .. } => {
            assert_eq!(start, &PixelPoint { x: 48, y: 130 });
            assert_eq!(end, &PixelPoint { x: 52, y: 130 });
        }
        other => panic!("expected a tick mark, got {:?}", other),
    }
}

#[test]
fn vertical_axis_title_clears_the_widest_label() {
    let commands = axis_commands(
        0..2,
        Some("Y"),
        Some(Scale::RangeFraction(2)),
        Placement::Y { y1: 10, y2: 250, x: 50 },
    );
    // Labels "0" and "1" are one character wide: right-aligned at x=50
    // they start at pixel column 46, so the title ends at column 45.
    // This position comes from the real text bounding box: were the
    // measurement wrong, the title would overlap the labels.
    let last = commands.last().unwrap();
    match last {
        DrawCommand::Text { content, position, alignment, baseline, .. } => {
            assert_eq!(content, "Y");
            assert_eq!(position, &PixelPoint { x: 45, y: 130 });
            assert_eq!(alignment, &TextAlignment::Right);
            assert_eq!(baseline, &TextBaseline::Middle);
        }
        other => panic!("expected the title, got {:?}", other),
    }
}

#[test]
fn vertical_axis_title_clears_wide_negative_labels() {
    let commands = axis_commands(
        -100..101,
        Some("Y"),
        Some(Scale::Fixed(100)),
        Placement::Y { y1: 0, y2: 200, x: 40 },
    );
    // The widest label is "-100": four characters of five pixels, so
    // right-aligned at x=40 it begins at column 21 and the title ends at
    // column 20.
    match commands.last().unwrap() {
        DrawCommand::Text { content, position, .. } => {
            assert_eq!(content, "Y");
            assert_eq!(position.x, 20);
        }
        other => panic!("expected the title, got {:?}", other),
    }
}

#[test]
fn text_style_color_overrides_axis_color_for_text() {
    let axis: Vec<Cmd> = Axis::new(0..1)
        .set_scale(Scale::Fixed(1))
        .into_drawable_axis(Placement::X { x1: 0, x2: 10, y: 0 })
        .set_color(BinaryColor::On)
        .set_text_style(AxisTextStyle { text_color: Some(BinaryColor::Off) })
        .draw_commands();
    match &axis[0] {
        DrawCommand::Line { color, .. } => assert_eq!(color, &Some(BinaryColor::On)),
        other => panic!("expected the axis line, got {:?}", other),
    }
    match &axis[2] {
        DrawCommand::Text { color, .. } => assert_eq!(color, &Some(BinaryColor::Off)),
        other => panic!("expected a tick label, got {:?}", other),
    }
}

#[test]
fn widest_possible_label_is_measured_correctly() {
    let commands = axis_commands(
        -2147483647..-2147483640,
        Some("Y"),
        Some(Scale::Fixed(100)),
        Placement::Y { y1: 0, y2: 100, x: 50 },
    );
    // A single tick at the range start, whose label takes the full eleven
    // characters; right-aligned at x=50 it begins at column -4, so the
    // title ends at column -5.
    assert_eq!(commands.len(), 1 + 2 + 1);
    match &commands[2] {
        DrawCommand::Text { content, .. } => assert_eq!(content, "-2147483647"),
        other => panic!("expected a tick label, got {:?}", other),
    }
    match commands.last().unwrap() {
        DrawCommand::Text { content, position, .. } => {
            assert_eq!(content, "Y");
            assert_eq!(position.x, -5);
        }
        other => panic!("expected the title, got {:?}", other),
    }
}

#[test]
fn moderate_layout_check_accepts_ordinary_axes() {
    let axis = Axis::new(0..30)
        .set_scale(Scale::Fixed(10))
        .into_drawable_axis::<BinaryColor>(Placement::X { x1: 0, x2: 300, y: 100 });
    assert!(axis.layout_fits_moderate());
}

#[test]
fn moderate_layout_check_rejects_extreme_axes() {
    let axis = Axis::new(0..30)
        .set_scale(Scale::Fixed(10))
        .into_drawable_axis::<BinaryColor>(Placement::Y { y1: 0, y2: 100, x: i32::MAX });
    assert!(!axis.layout_fits_moderate());
}

#[test]
fn negative_values_format_with_minus_sign() {
    let commands = axis_commands(
        -20..1,
        None,
        Some(Scale::Fixed(20)),
        Placement::X { x1: 0, x2: 100, y: 0 },
    );
    match &commands[2] {
        DrawCommand::Text { content, .. } => assert_eq!(content, "-20"),
        other => panic!("expected a tick label, got {:?}", other),
    }
}
