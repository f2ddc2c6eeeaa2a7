//! Curves: ordered integer sample points with data-space extents, and their
//! conversion to a pixel-space polyline.

use vstd::prelude::*;
use core::ops::Range;
use crate::command::{CommandModel, DrawCommand, PixelPoint, PointModel};
use crate::range_conv::{
    lemma_scale_end, lemma_scale_fits_moderate, scale_between_ranges, scale_fits, scale_value,
    MODERATE,
};

verus! {

/// Representation of a single point on a curve, in data space.
#[derive(Clone, Copy, Debug, PartialEq, Eq, Structural)]
pub struct PlotPoint {
    pub x: i32,
    pub y: i32,
}

/// Curve object that contains data to be plotted: a borrowed, ordered
/// sequence of sample points plus the data-space extents they span.
pub struct Curve<'a> {
    /// slice of points to be drawn
    pub points: &'a [PlotPoint],
    pub x_range: Range<i32>,
    pub y_range: Range<i32>,
}

/// The x coordinates of a point sequence, as mathematical integers.
pub open spec fn xs(points: Seq<PlotPoint>) -> Seq<int> {
    points.map_values(|p: PlotPoint| p.x as int)
}

/// The y coordinates of a point sequence, as mathematical integers.
pub open spec fn ys(points: Seq<PlotPoint>) -> Seq<int> {
    points.map_values(|p: PlotPoint| p.y as int)
}

/// The start of the extent derived from a coordinate sequence: 0 when the
/// sequence is empty, else its minimum.
pub open spec fn derived_start(coords: Seq<int>) -> int {
    if coords.len() == 0 {
        0
    } else {
        coords.min()
    }
}

/// The end of the extent derived from a coordinate sequence: 0 when the
/// sequence is empty, else its maximum.  A single (or repeated) coordinate
/// value `v` thus yields the empty extent `[v, v)`.
pub open spec fn derived_end(coords: Seq<int>) -> int {
    if coords.len() == 0 {
        0
    } else {
        coords.max()
    }
}

/// The destination pixel range for x values: the rectangle's horizontal span.
pub open spec fn x_dest(top_left: PixelPoint, bottom_right: PixelPoint) -> Range<i32> {
    Range { start: top_left.x, end: bottom_right.x }
}

/// The destination pixel range for y values: the rectangle's vertical span,
/// deliberately reversed so that larger data values land on smaller (higher)
/// pixel rows.
pub open spec fn y_dest(top_left: PixelPoint, bottom_right: PixelPoint) -> Range<i32> {
    Range { start: bottom_right.y, end: top_left.y }
}

/// A destination rectangle and pair of extents a curve can be rendered with:
/// the rectangle is not inverted and neither extent is empty.
pub open spec fn renderable(
    x_range: Range<i32>,
    y_range: Range<i32>,
    top_left: PixelPoint,
    bottom_right: PixelPoint,
) -> bool {
    &&& top_left.x <= bottom_right.x
    &&& top_left.y <= bottom_right.y
    &&& x_range.start < x_range.end
    &&& y_range.start < y_range.end
}

/// The pixel point a sample maps to within the given extents and rectangle.
pub open spec fn mapped_point(
    p: PlotPoint,
    x_range: Range<i32>,
    y_range: Range<i32>,
    top_left: PixelPoint,
    bottom_right: PixelPoint,
) -> PointModel {
    PointModel {
        x: scale_value(p.x as int, x_range, x_dest(top_left, bottom_right)),
        y: scale_value(p.y as int, y_range, y_dest(top_left, bottom_right)),
    }
}

/// Every sample's mapping into the rectangle stays within machine bounds.
pub open spec fn curve_scaling_fits(
    points: Seq<PlotPoint>,
    x_range: Range<i32>,
    y_range: Range<i32>,
    top_left: PixelPoint,
    bottom_right: PixelPoint,
) -> bool {
    forall|i: int|
        0 <= i < points.len() ==> {
            let p = #[trigger] points[i];
            &&& scale_fits(p.x as int, x_range, x_dest(top_left, bottom_right))
            &&& scale_fits(p.y as int, y_range, y_dest(top_left, bottom_right))
        }
}

/// The pixel points all samples of a curve map to, in sample order.
pub open spec fn mapped_points(
    points: Seq<PlotPoint>,
    x_range: Range<i32>,
    y_range: Range<i32>,
    top_left: PixelPoint,
    bottom_right: PixelPoint,
) -> Seq<PointModel> {
    Seq::new(
        points.len(),
        |i: int| mapped_point(points[i], x_range, y_range, top_left, bottom_right),
    )
}

/// The mathematical values of a sequence of pixel points.
pub open spec fn pixel_models(s: Seq<PixelPoint>) -> Seq<PointModel> {
    s.map_values(|p: PixelPoint| p.deep_view())
}

impl<'a> Curve<'a> {
    /// The sample points of this curve.
    pub open spec fn spec_points(&self) -> Seq<PlotPoint> {
        self.points@
    }

    /// create new curve data with manual ranges
    pub fn new(points: &'a [PlotPoint], x_range: Range<i32>, y_range: Range<i32>) -> (r: Curve<'a>)
        ensures
            r.spec_points() == points@,
            r.x_range == x_range,
            r.y_range == y_range,
    {
        Curve { points, x_range, y_range }
    }

    /// create new curve data with ranges automatically deduced based on the
    /// provided points
    pub fn from_data(points: &'a [PlotPoint]) -> (r: Curve<'a>)
        ensures
            r.spec_points() == points@,
            r.x_range.start == derived_start(xs(points@)),
            r.x_range.end == derived_end(xs(points@)),
            r.y_range.start == derived_start(ys(points@)),
            r.y_range.end == derived_end(ys(points@)),
    {
        if points.len() == 0 {
            Curve {
                points,
                x_range: Range { start: 0, end: 0 },
                y_range: Range { start: 0, end: 0 },
            }
        } else {
            let mut x_min: i32 = points[0].x;
            let mut x_max: i32 = points[0].x;
            let mut y_min: i32 = points[0].y;
            let mut y_max: i32 = points[0].y;
            let mut i: usize = 1;
            while i < points.len()
                invariant
                    1 <= i <= points@.len(),
                    forall|j: int| 0 <= j < i ==> x_min <= (#[trigger] points@[j]).x,
                    forall|j: int| 0 <= j < i ==> points@[j].x <= x_max,
                    forall|j: int| 0 <= j < i ==> y_min <= points@[j].y,
                    forall|j: int| 0 <= j < i ==> points@[j].y <= y_max,
                    exists|j: int| 0 <= j < i && x_min == (#[trigger] points@[j]).x,
                    exists|j: int| 0 <= j < i && x_max == (#[trigger] points@[j]).x,
                    exists|j: int| 0 <= j < i && y_min == (#[trigger] points@[j]).y,
                    exists|j: int| 0 <= j < i && y_max == (#[trigger] points@[j]).y,
                decreases points@.len() - i,
            {
                if points[i].x < x_min {
                    x_min = points[i].x;
                }
                if points[i].x > x_max {
                    x_max = points[i].x;
                }
                if points[i].y < y_min {
                    y_min = points[i].y;
                }
                if points[i].y > y_max {
                    y_max = points[i].y;
                }
                i = i + 1;
            }
            proof {
                let sx = xs(points@);
                let sy = ys(points@);
                sx.min_ensures();
                sx.max_ensures();
                sy.min_ensures();
                sy.max_ensures();
                assert(forall|j: int| 0 <= j < points@.len() ==> sx[j] == (#[trigger] points@[j]).x
                    && sy[j] == points@[j].y);
                let kxl = choose|k: int| 0 <= k < sx.len() && sx[k] == sx.min();
                let kxh = choose|k: int| 0 <= k < sx.len() && sx[k] == sx.max();
                let kyl = choose|k: int| 0 <= k < sy.len() && sy[k] == sy.min();
                let kyh = choose|k: int| 0 <= k < sy.len() && sy[k] == sy.max();
                assert(x_min <= points@[kxl].x && points@[kxh].x <= x_max && y_min
                    <= points@[kyl].y && points@[kyh].y <= y_max);
                assert(x_min == sx.min() && x_max == sx.max() && y_min == sy.min() && y_max
                    == sy.max());
            }
            Curve {
                points,
                x_range: Range { start: x_min, end: x_max },
                y_range: Range { start: y_min, end: y_max },
            }
        }
    }

    /// create curve that can be drawn on a specific display: checks the
    /// destination rectangle and the extents, then maps every sample into
    /// pixel space
    pub fn into_drawable_curve<C>(&self, top_left: &PixelPoint, bottom_right: &PixelPoint) -> (r:
        Result<DrawableCurve<C>, &'static str>)
        requires
            renderable(self.x_range, self.y_range, *top_left, *bottom_right)
                ==> curve_scaling_fits(
                self.spec_points(),
                self.x_range,
                self.y_range,
                *top_left,
                *bottom_right,
            ),
        ensures
            r is Ok <==> renderable(self.x_range, self.y_range, *top_left, *bottom_right),
            r matches Ok(d) ==> {
                &&& d.spec_scaled_data().len() == self.spec_points().len()
                &&& forall|i: int|
                    0 <= i < self.spec_points().len() ==> (#[trigger] d.spec_scaled_data()[i]).deep_view()
                        == mapped_point(
                        self.spec_points()[i],
                        self.x_range,
                        self.y_range,
                        *top_left,
                        *bottom_right,
                    )
                &&& d.spec_color() is None
                &&& d.spec_thickness() is None
            },
            r matches Err(m) ==> m@ == "Invalid range"@,
    {
        if (top_left.x > bottom_right.x) || (top_left.y > bottom_right.y) || (self.x_range.start
            >= self.x_range.end) || (self.y_range.start >= self.y_range.end) {
            return Err("Invalid range");
        }
        let x_pixels = Range { start: top_left.x, end: bottom_right.x };
        let y_pixels = Range { start: bottom_right.y, end: top_left.y };
        let mut scaled: Vec<PixelPoint> = Vec::new();
        let mut i: usize = 0;
        while i < self.points.len()
            invariant
                0 <= i <= self.spec_points().len(),
                x_pixels == x_dest(*top_left, *bottom_right),
                y_pixels == y_dest(*top_left, *bottom_right),
                curve_scaling_fits(
                    self.spec_points(),
                    self.x_range,
                    self.y_range,
                    *top_left,
                    *bottom_right,
                ),
                self.x_range.start < self.x_range.end,
                self.y_range.start < self.y_range.end,
                scaled@.len() == i,
                forall|j: int|
                    0 <= j < i ==> (#[trigger] scaled@[j]).deep_view() == mapped_point(
                        self.spec_points()[j],
                        self.x_range,
                        self.y_range,
                        *top_left,
                        *bottom_right,
                    ),
            decreases self.spec_points().len() - i,
        {
            let p = self.points[i];
            scaled.push(
                PixelPoint {
                    x: scale_between_ranges(p.x, &self.x_range, &x_pixels),
                    y: scale_between_ranges(p.y, &self.y_range, &y_pixels),
                },
            );
            i = i + 1;
        }
        Ok(DrawableCurve { scaled_data: scaled, color: None, thickness: None })
    }
}

/// A non-empty curve whose samples all share one x value derives an empty
/// x extent, so rendering it into any rectangle is refused rather than
/// reaching the scale mapper's division.
pub proof fn lemma_identical_points_rejected(
    points: Seq<PlotPoint>,
    x_range: Range<i32>,
    y_range: Range<i32>,
    top_left: PixelPoint,
    bottom_right: PixelPoint,
)
    requires
        points.len() >= 1,
        forall|i: int| 0 <= i < points.len() ==> (#[trigger] points[i]).x == points[0].x,
        x_range.start == derived_start(xs(points)),
        x_range.end == derived_end(xs(points)),
    ensures
        x_range.start == x_range.end,
        !renderable(x_range, y_range, top_left, bottom_right),
{
    let sx = xs(points);
    sx.min_ensures();
    sx.max_ensures();
    assert(forall|j: int| 0 <= j < points.len() ==> sx[j] == (#[trigger] points[j]).x);
    let kl = choose|k: int| 0 <= k < sx.len() && sx[k] == sx.min();
    let kh = choose|k: int| 0 <= k < sx.len() && sx[k] == sx.max();
    assert(sx.min() == points[kl].x && sx.max() == points[kh].x);
}

/// The vertical axis is inverted: a sample at the very top of the y extent
/// maps exactly onto the rectangle's top pixel row, not its bottom one,
/// because the y destination range is deliberately reversed.
pub proof fn lemma_top_of_extent_maps_to_top_row(
    p: PlotPoint,
    x_range: Range<i32>,
    y_range: Range<i32>,
    top_left: PixelPoint,
    bottom_right: PixelPoint,
)
    requires
        y_range.start < y_range.end,
        p.y == y_range.end,
    ensures
        mapped_point(p, x_range, y_range, top_left, bottom_right).y == top_left.y,
{
    lemma_scale_end(y_range, y_dest(top_left, bottom_right));
}

/// For points, extents and a rectangle of moderate magnitude every
/// sample's mapping stays within machine bounds.
pub proof fn lemma_curve_scaling_fits_moderate(
    points: Seq<PlotPoint>,
    x_range: Range<i32>,
    y_range: Range<i32>,
    top_left: PixelPoint,
    bottom_right: PixelPoint,
)
    requires
        x_range.start != x_range.end,
        y_range.start != y_range.end,
        forall|i: int|
            0 <= i < points.len() ==> {
                let p = #[trigger] points[i];
                &&& -(MODERATE as int) <= p.x <= MODERATE as int
                &&& -(MODERATE as int) <= p.y <= MODERATE as int
            },
        -(MODERATE as int) <= x_range.start <= MODERATE as int,
        -(MODERATE as int) <= x_range.end <= MODERATE as int,
        -(MODERATE as int) <= y_range.start <= MODERATE as int,
        -(MODERATE as int) <= y_range.end <= MODERATE as int,
        -(MODERATE as int) <= top_left.x <= MODERATE as int,
        -(MODERATE as int) <= top_left.y <= MODERATE as int,
        -(MODERATE as int) <= bottom_right.x <= MODERATE as int,
        -(MODERATE as int) <= bottom_right.y <= MODERATE as int,
    ensures
        curve_scaling_fits(points, x_range, y_range, top_left, bottom_right),
{
    assert forall|i: int| 0 <= i < points.len() implies {
        let p = #[trigger] points[i];
        &&& scale_fits(p.x as int, x_range, x_dest(top_left, bottom_right))
        &&& scale_fits(p.y as int, y_range, y_dest(top_left, bottom_right))
    } by {
        lemma_scale_fits_moderate(points[i].x as int, x_range, x_dest(top_left, bottom_right));
        lemma_scale_fits_moderate(points[i].y as int, y_range, y_dest(top_left, bottom_right));
    }
}

/// Drawable curve object, constructed for a specific destination rectangle:
/// the samples already mapped to pixel space, plus optional styling.
pub struct DrawableCurve<C> {
    scaled_data: Vec<PixelPoint>,
    color: Option<C>,
    thickness: Option<usize>,
}

/// The stroke thickness used for a curve: the configured value, or 2.
pub open spec fn curve_thickness(t: Option<usize>) -> int {
    match t {
        Some(v) => v as int,
        None => 2,
    }
}

/// The polyline commands for a sequence of mapped samples: one line segment
/// per consecutive pair, in sample order.
pub open spec fn polyline_models<C>(
    scaled: Seq<PointModel>,
    color: Option<C>,
    thickness: int,
) -> Seq<CommandModel<C>> {
    Seq::new(
        if scaled.len() == 0 {
            0
        } else {
            (scaled.len() - 1) as nat
        },
        |i: int|
            CommandModel::Line { start: scaled[i], end: scaled[i + 1], color, thickness },
    )
}

impl<C> DrawableCurve<C> {
    /// The mapped sample points of this drawable curve.
    pub closed spec fn spec_scaled_data(&self) -> Seq<PixelPoint> {
        self.scaled_data@
    }

    /// The configured curve color, if any.
    pub closed spec fn spec_color(&self) -> Option<C> {
        self.color
    }

    /// The configured line thickness, if any.
    pub closed spec fn spec_thickness(&self) -> Option<usize> {
        self.thickness
    }

    /// set curve color
    pub fn set_color(self, color: C) -> (r: DrawableCurve<C>)
        ensures
            r.spec_scaled_data() == self.spec_scaled_data(),
            r.spec_color() == Some(color),
            r.spec_thickness() == self.spec_thickness(),
    {
        DrawableCurve { scaled_data: self.scaled_data, color: Some(color), thickness: self.thickness }
    }

    /// set curve line thickness
    pub fn set_thickness(self, thickness: usize) -> (r: DrawableCurve<C>)
        ensures
            r.spec_scaled_data() == self.spec_scaled_data(),
            r.spec_color() == self.spec_color(),
            r.spec_thickness() == Some(thickness),
    {
        DrawableCurve { scaled_data: self.scaled_data, color: self.color, thickness: Some(thickness) }
    }
}

impl<C: Copy> DrawableCurve<C> {
    /// draw the curve: one line segment per consecutive pair of mapped
    /// samples, connected in sample order
    pub fn draw_commands(&self) -> (cmds: Vec<DrawCommand<C>>)
        ensures
            cmds.deep_view() == polyline_models(
                pixel_models(self.spec_scaled_data()),
                self.spec_color(),
                curve_thickness(self.spec_thickness()),
            ),
    {
        let thickness: usize = match self.thickness {
            None => 2,
            Some(t) => t,
        };
        let mut cmds: Vec<DrawCommand<C>> = Vec::new();
        if self.scaled_data.len() >= 2 {
            let mut i: usize = 0;
            while i < self.scaled_data.len() - 1
                invariant
                    self.scaled_data@.len() >= 2,
                    0 <= i <= self.scaled_data@.len() - 1,
                    thickness as int == curve_thickness(self.spec_thickness()),
                    cmds@.len() == i,
                    forall|j: int|
                        0 <= j < i ==> (#[trigger] cmds@[j]).deep_view() == (CommandModel::Line {
                            start: self.scaled_data@[j].deep_view(),
                            end: self.scaled_data@[j + 1].deep_view(),
                            color: self.spec_color(),
                            thickness: thickness as int,
                        }),
                decreases self.scaled_data@.len() - i,
            {
                cmds.push(
                    DrawCommand::Line {
                        start: self.scaled_data[i],
                        end: self.scaled_data[i + 1],
                        color: self.color,
                        thickness,
                    },
                );
                i = i + 1;
            }
        }
        proof {
            assert(cmds.deep_view() =~= polyline_models(
                pixel_models(self.spec_scaled_data()),
                self.spec_color(),
                curve_thickness(self.spec_thickness()),
            ));
        }
        cmds
    }
}

} // verus!
