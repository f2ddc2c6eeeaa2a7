use embedded_plots::command::{DrawCommand, PixelPoint};
use embedded_plots::curve::{Curve, PlotPoint};
use embedded_graphics::pixelcolor::BinaryColor;

fn sample_points() -> Vec<PlotPoint> {
    vec![
        PlotPoint { x: 0, y: 0 },
        PlotPoint { x: 1, y: 2 },
        PlotPoint { x: 2, y: 2 },
        PlotPoint { x: 3, y: 0 },
    ]
}

#[test]
fn extents_derived_from_points() {
    let points = sample_points();
    let curve = Curve::from_data(&points);
    assert_eq!(curve.x_range, 0..3);
    assert_eq!(curve.y_range, 0..2);
}

#[test]
fn extents_of_empty_point_sequence() {
    let points: Vec<PlotPoint> = vec![];
    let curve = Curve::from_data(&points);
    assert_eq!(curve.x_range, 0..0);
    assert_eq!(curve.y_range, 0..0);
}

#[test]
fn extents_of_single_point() {
    let points = vec![PlotPoint { x: 5, y: 7 }];
    let curve = Curve::from_data(&points);
    assert_eq!(curve.x_range, 5..5);
    assert_eq!(curve.y_range, 7..7);
}

#[test]
fn identical_points_are_rejected() {
    // Four points all at x=5: the derived x extent collapses and rendering
    // must return an error instead of dividing by zero.
    let points = vec![
        PlotPoint { x: 5, y: 1 },
        PlotPoint { x: 5, y: 2 },
        PlotPoint { x: 5, y: 3 },
        PlotPoint { x: 5, y: 4 },
    ];
    let curve = Curve::from_data(&points);
    let top_left = PixelPoint { x: 0, y: 0 };
    let bottom_right = PixelPoint { x: 100, y: 100 };
    let result = curve.into_drawable_curve::<BinaryColor>(&top_left, &bottom_right);
    assert_eq!(result.err(), Some("Invalid range"));
}

#[test]
fn inverted_rectangle_is_rejected() {
    let points = sample_points();
    let curve = Curve::from_data(&points);
    let top_left = PixelPoint { x: 100, y: 0 };
    let bottom_right = PixelPoint { x: 0, y: 100 };
    let result = curve.into_drawable_curve::<BinaryColor>(&top_left, &bottom_right);
    assert_eq!(result.err(), Some("Invalid range"));
}

#[test]
fn explicit_degenerate_range_is_rejected() {
    let points = sample_points();
    let curve = Curve::new(&points, 0..3, 4..4);
    let top_left = PixelPoint { x: 0, y: 0 };
    let bottom_right = PixelPoint { x: 100, y: 100 };
    let result = curve.into_drawable_curve::<BinaryColor>(&top_left, &bottom_right);
    assert_eq!(result.err(), Some("Invalid range"));
}

#[test]
fn maximum_of_y_extent_maps_to_top_row() {
    // Vertical inversion: the largest data y lands on the rectangle's top
    // pixel row, the smallest on its bottom row.
    let points = vec![PlotPoint { x: 0, y: 0 }, PlotPoint { x: 10, y: 8 }];
    let curve = Curve::new(&points, 0..10, 0..8);
    let top_left = PixelPoint { x: 50, y: 10 };
    let bottom_right = PixelPoint { x: 430, y: 250 };
    let drawable = curve
        .into_drawable_curve::<BinaryColor>(&top_left, &bottom_right)
        .unwrap();
    let commands = drawable.draw_commands();
    assert_eq!(commands.len(), 1);
    match &commands[0] {
        DrawCommand::Line { start, end, .. } => {
            assert_eq!(start, &PixelPoint { x: 50, y: 250 });
            assert_eq!(end, &PixelPoint { x: 430, y: 10 });
        }
        other => panic!("expected a line command, got {:?}", other),
    }
}

#[test]
fn polyline_connects_consecutive_points() {
    let points = sample_points();
    let curve = Curve::from_data(&points);
    let top_left = PixelPoint { x: 0, y: 0 };
    let bottom_right = PixelPoint { x: 30, y: 20 };
    let drawable = curve
        .into_drawable_curve::<BinaryColor>(&top_left, &bottom_right)
        .unwrap();
    let commands = drawable.draw_commands();
    assert_eq!(commands.len(), 3);
    let mut previous_end: Option<PixelPoint> = None;
    for command in &commands {
        match command {
            DrawCommand::Line { start, end, color, thickness } => {
                if let Some(prev) = previous_end {
                    assert_eq!(start, &prev);
                }
                previous_end = Some(*end);
                assert_eq!(color, &None);
                assert_eq!(*thickness, 2);
            }
            other => panic!("expected a line command, got {:?}", other),
        }
    }
}

#[test]
fn styling_is_attached_to_commands() {
    let points = vec![PlotPoint { x: 0, y: 0 }, PlotPoint { x: 1, y: 1 }];
    let curve = Curve::from_data(&points);
    let top_left = PixelPoint { x: 0, y: 0 };
    let bottom_right = PixelPoint { x: 10, y: 10 };
    let drawable = curve
        .into_drawable_curve::<BinaryColor>(&top_left, &bottom_right)
        .unwrap()
        .set_color(BinaryColor::On)
        .set_thickness(7);
    let commands = drawable.draw_commands();
    assert_eq!(commands.len(), 1);
    match &commands[0] {
        DrawCommand::Line { color, thickness, .. } => {
            assert_eq!(color, &Some(BinaryColor::On));
            assert_eq!(*thickness, 7);
        }
        other => panic!("expected a line command, got {:?}", other),
    }
}
