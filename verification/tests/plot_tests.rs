use embedded_plots::axis::Scale;
use embedded_plots::command::{DrawCommand, PixelPoint};
use embedded_plots::curve::{Curve, PlotPoint};
use embedded_plots::single_plot::SinglePlot;
use embedded_graphics::pixelcolor::BinaryColor;

type Cmd = DrawCommand<BinaryColor>;

#[test]
fn empty_plot_is_rejected() {
    let curves: Vec<(Curve, BinaryColor)> = Vec::new();
    let result = SinglePlot::new(&curves, Scale::Fixed(1), Scale::Fixed(1));
    assert_eq!(result.err(), Some("No curves provided"));
}

#[test]
fn single_curve_plot_is_accepted() {
    let points = vec![PlotPoint { x: 0, y: 0 }, PlotPoint { x: 1, y: 1 }];
    let curves = vec![(Curve::from_data(&points), BinaryColor::On)];
    let result = SinglePlot::new(&curves, Scale::Fixed(1), Scale::Fixed(1));
    assert!(result.is_ok());
}

#[test]
fn end_to_end_plot_commands() {
    let points = vec![
        PlotPoint { x: 0, y: 0 },
        PlotPoint { x: 1, y: 2 },
        PlotPoint { x: 2, y: 2 },
        PlotPoint { x: 3, y: 0 },
    ];
    let curves = vec![(Curve::from_data(&points), BinaryColor::On)];
    let plot = SinglePlot::new(&curves, Scale::RangeFraction(3), Scale::RangeFraction(2))
        .unwrap();
    let commands: Vec<Cmd> = plot
        .into_drawable(PixelPoint { x: 50, y: 10 }, PixelPoint { x: 430, y: 250 })
        .draw_commands();

    // X axis: line, title, three ticks with labels (range 0..3, step 1).
    // Y axis: line, two ticks with labels (range 0..2, step 1), title.
    // Curve: three segments connecting the four mapped points.
    let x_axis_len = 2 + 3 * 2;
    let y_axis_len = 2 + 2 * 2;
    assert_eq!(commands.len(), x_axis_len + y_axis_len + 3);

    let segments: Vec<&Cmd> = commands[x_axis_len + y_axis_len..].iter().collect();
    let expected = [
        (PixelPoint { x: 50, y: 250 }, PixelPoint { x: 176, y: 10 }),
        (PixelPoint { x: 176, y: 10 }, PixelPoint { x: 303, y: 10 }),
        (PixelPoint { x: 303, y: 10 }, PixelPoint { x: 430, y: 250 }),
    ];
    for (segment, (expected_start, expected_end)) in segments.iter().zip(expected.iter()) {
        match segment {
            DrawCommand::Line { start, end, color, thickness } => {
                assert_eq!(start, expected_start);
                assert_eq!(end, expected_end);
                assert_eq!(color, &Some(BinaryColor::On));
                assert_eq!(*thickness, 2);
                // No curve coordinate leaves the destination rectangle.
                for point in [start, end] {
                    assert!(50 <= point.x && point.x <= 430);
                    assert!(10 <= point.y && point.y <= 250);
                }
            }
            other => panic!("expected a curve segment, got {:?}", other),
        }
    }

    // Both axis lines span the rectangle's bottom and left edges.
    match &commands[0] {
        DrawCommand::Line { start, end, .. } => {
            assert_eq!(start, &PixelPoint { x: 50, y: 250 });
            assert_eq!(end, &PixelPoint { x: 430, y: 250 });
        }
        other => panic!("expected the x axis line, got {:?}", other),
    }
    match &commands[x_axis_len] {
        DrawCommand::Line { start, end, .. } => {
            assert_eq!(start, &PixelPoint { x: 50, y: 10 });
            assert_eq!(end, &PixelPoint { x: 50, y: 250 });
        }
        other => panic!("expected the y axis line, got {:?}", other),
    }

    // The axis titles are "X" and "Y".
    match &commands[1] {
        DrawCommand::Text { content, .. } => assert_eq!(content, "X"),
        other => panic!("expected the x axis title, got {:?}", other),
    }
    match commands[..x_axis_len + y_axis_len].last().unwrap() {
        DrawCommand::Text { content, .. } => assert_eq!(content, "Y"),
        other => panic!("expected the y axis title, got {:?}", other),
    }
}

#[test]
fn curve_that_cannot_render_is_skipped() {
    let good = vec![PlotPoint { x: 0, y: 0 }, PlotPoint { x: 1, y: 1 }];
    let degenerate = vec![PlotPoint { x: 5, y: 1 }, PlotPoint { x: 5, y: 2 }];
    let curves = vec![
        (Curve::from_data(&good), BinaryColor::On),
        (Curve::from_data(&degenerate), BinaryColor::Off),
    ];
    let plot = SinglePlot::new(&curves, Scale::Fixed(1), Scale::Fixed(1)).unwrap();
    let commands: Vec<Cmd> = plot
        .into_drawable(PixelPoint { x: 0, y: 0 }, PixelPoint { x: 100, y: 100 })
        .draw_commands();
    // The degenerate second curve contributes nothing, but the plot still
    // renders: exactly one curve segment follows the axes.
    let segment_colors: Vec<_> = commands
        .iter()
        .filter_map(|command| match command {
            DrawCommand::Line { color: Some(c), .. } => Some(*c),
            _ => None,
        })
        .collect();
    assert_eq!(segment_colors, vec![BinaryColor::On]);
}

#[test]
fn moderate_layout_check_accepts_ordinary_plots() {
    let points = vec![PlotPoint { x: 0, y: 0 }, PlotPoint { x: 3, y: 2 }];
    let curves = vec![(Curve::from_data(&points), BinaryColor::On)];
    let plot = SinglePlot::new(&curves, Scale::Fixed(1), Scale::Fixed(1)).unwrap();
    let drawable = plot.into_drawable(PixelPoint { x: 50, y: 10 }, PixelPoint { x: 430, y: 250 });
    assert!(drawable.layout_fits_moderate());
}

#[test]
fn moderate_layout_check_rejects_extreme_samples() {
    let points = vec![PlotPoint { x: 0, y: 0 }, PlotPoint { x: 100000, y: 2 }];
    let curves = vec![(Curve::from_data(&points), BinaryColor::On)];
    let plot = SinglePlot::new(&curves, Scale::Fixed(1), Scale::Fixed(1)).unwrap();
    let drawable = plot.into_drawable(PixelPoint { x: 0, y: 0 }, PixelPoint { x: 100, y: 100 });
    assert!(!drawable.layout_fits_moderate());
}

#[test]
fn plot_styling_falls_back_to_main_color() {
    let points = vec![PlotPoint { x: 0, y: 0 }, PlotPoint { x: 1, y: 1 }];
    let curves = vec![(Curve::from_data(&points), BinaryColor::Off)];
    let plot = SinglePlot::new(&curves, Scale::Fixed(1), Scale::Fixed(1)).unwrap();
    let commands: Vec<Cmd> = plot
        .into_drawable(PixelPoint { x: 0, y: 0 }, PixelPoint { x: 100, y: 100 })
        .set_color(BinaryColor::On)
        .set_thickness(3)
        .draw_commands();
    // Axis lines and text take the main color; axis thickness follows the
    // curve thickness when not set separately.
    match &commands[0] {
        DrawCommand::Line { color, thickness, .. } => {
            assert_eq!(color, &Some(BinaryColor::On));
            assert_eq!(*thickness, 3);
        }
        other => panic!("expected the x axis line, got {:?}", other),
    }
    match &commands[1] {
        DrawCommand::Text { color, .. } => assert_eq!(color, &Some(BinaryColor::On)),
        other => panic!("expected the x axis title, got {:?}", other),
    }
}
