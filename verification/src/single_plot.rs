//! Single plots: a non-empty collection of colored curves sharing one
//! coordinate system, composed with an X and a Y axis and rendered into a
//! destination rectangle.

use vstd::prelude::*;
use vstd::math::max;
use core::ops::Range;
use crate::axis::{
    axis_layout_fits, axis_models, lemma_axis_layout_fits_moderate, Axis, AxisTextStyle,
    DrawableAxis, Placement, Scale,
};
use crate::command::{CommandModel, DrawCommand, PixelPoint};
use crate::curve::{
    curve_scaling_fits, curve_thickness, lemma_curve_scaling_fits_moderate, mapped_points,
    pixel_models, polyline_models, renderable, Curve,
};
use crate::range_conv::{within_moderate, MODERATE};

verus! {

/// Display-agnostic single plot object: a non-empty collection of curves
/// with per-curve colors, plus the tick policies of the two axes.  All
/// curves are assumed to share the first curve's coordinate system, which
/// the axes are labeled with.
#[derive(Clone, Copy)]
pub struct SinglePlot<'a, C> {
    /// curves to be drawn on the plot, each with its color
    curves: &'a [(Curve<'a>, C)],
    /// tick policy of the X axis
    x_scale: Scale,
    /// tick policy of the Y axis
    y_scale: Scale,
}

impl<'a, C> SinglePlot<'a, C> {
    /// The curves of this plot, each with its color.
    pub closed spec fn spec_curves(&self) -> Seq<(Curve<'a>, C)> {
        self.curves@
    }

    /// The tick policy of the X axis.
    pub closed spec fn spec_x_scale(&self) -> Scale {
        self.x_scale
    }

    /// The tick policy of the Y axis.
    pub closed spec fn spec_y_scale(&self) -> Scale {
        self.y_scale
    }

    /// create a SinglePlot object; a plot without curves is refused
    pub fn new(curves: &'a [(Curve<'a>, C)], x_scale: Scale, y_scale: Scale) -> (r: Result<
        SinglePlot<'a, C>,
        &'static str,
    >)
        ensures
            r is Ok <==> curves@.len() >= 1,
            r matches Ok(p) ==> {
                &&& p.spec_curves() == curves@
                &&& p.spec_x_scale() == x_scale
                &&& p.spec_y_scale() == y_scale
            },
            r matches Err(m) ==> m@ == "No curves provided"@,
    {
        if curves.len() < 1 {
            Err("No curves provided")
        } else {
            Ok(SinglePlot { curves, x_scale, y_scale })
        }
    }

    /// convert to drawable form for a specific destination rectangle
    pub fn into_drawable(self, top_left: PixelPoint, bottom_right: PixelPoint) -> (r:
        DrawableSinglePlot<'a, C>)
        ensures
            r.spec_plot() == self,
            r.spec_color() is None,
            r.spec_text_color() is None,
            r.spec_axis_color() is None,
            r.spec_thickness() is None,
            r.spec_axis_thickness() is None,
            r.spec_top_left() == top_left,
            r.spec_bottom_right() == bottom_right,
    {
        DrawableSinglePlot {
            plot: self,
            color: None,
            text_color: None,
            axis_color: None,
            thickness: None,
            axis_thickness: None,
            top_left,
            bottom_right,
        }
    }
}

/// Drawable single plot object, constructed for a specific destination
/// rectangle and ready for styling.
pub struct DrawableSinglePlot<'a, C> {
    plot: SinglePlot<'a, C>,
    color: Option<C>,
    text_color: Option<C>,
    axis_color: Option<C>,
    thickness: Option<usize>,
    axis_thickness: Option<usize>,
    top_left: PixelPoint,
    bottom_right: PixelPoint,
}

/// A curve whose extents and samples all lie within the moderate band.
pub open spec fn curve_moderate<'a>(curve: Curve<'a>) -> bool {
    &&& within_moderate(curve.x_range.start as int)
    &&& within_moderate(curve.x_range.end as int)
    &&& within_moderate(curve.y_range.start as int)
    &&& within_moderate(curve.y_range.end as int)
    &&& forall|j: int|
        0 <= j < curve.spec_points().len() ==> {
            let p = #[trigger] curve.spec_points()[j];
            &&& within_moderate(p.x as int)
            &&& within_moderate(p.y as int)
        }
}

/// A specific color when one is configured, else the general fallback.
pub open spec fn color_or<C>(specific: Option<C>, general: Option<C>) -> Option<C> {
    match specific {
        Some(c) => Some(c),
        None => general,
    }
}

/// The commands of the curves of a plot from index `i` on: each curve that
/// can be rendered into the rectangle contributes its polyline in its own
/// color; a curve that cannot is skipped without failing the plot.
pub open spec fn plot_curve_models<'a, C>(
    curves: Seq<(Curve<'a>, C)>,
    i: int,
    top_left: PixelPoint,
    bottom_right: PixelPoint,
    thickness: int,
) -> Seq<CommandModel<C>>
    decreases max(curves.len() - i, 0),
{
    if i < 0 || i >= curves.len() {
        Seq::empty()
    } else {
        (if renderable(curves[i].0.x_range, curves[i].0.y_range, top_left, bottom_right) {
            polyline_models(
                mapped_points(
                    curves[i].0.spec_points(),
                    curves[i].0.x_range,
                    curves[i].0.y_range,
                    top_left,
                    bottom_right,
                ),
                Some(curves[i].1),
                thickness,
            )
        } else {
            Seq::empty()
        }) + plot_curve_models(curves, i + 1, top_left, bottom_right, thickness)
    }
}

/// All drawing commands of a single plot: the X axis along the bottom edge
/// of the rectangle, the Y axis along its left edge — both labeled with
/// the first curve's extents — then the curves in collection order, so
/// that later curves draw over earlier ones and over the axes.
pub open spec fn plot_models<'a, C>(
    curves: Seq<(Curve<'a>, C)>,
    x_scale: Scale,
    y_scale: Scale,
    top_left: PixelPoint,
    bottom_right: PixelPoint,
    text_color: Option<C>,
    axis_color: Option<C>,
    thickness: int,
    axis_thickness: int,
) -> Seq<CommandModel<C>>
    recommends
        curves.len() >= 1,
{
    axis_models(
        curves[0].0.x_range,
        Some("X"@),
        x_scale,
        Placement::X { x1: top_left.x, x2: bottom_right.x, y: bottom_right.y },
        axis_color,
        text_color,
        2,
        axis_thickness,
    ) + axis_models(
        curves[0].0.y_range,
        Some("Y"@),
        y_scale,
        Placement::Y { y1: top_left.y, y2: bottom_right.y, x: top_left.x },
        axis_color,
        text_color,
        2,
        axis_thickness,
    ) + plot_curve_models(curves, 0, top_left, bottom_right, thickness)
}

impl<'a, C> DrawableSinglePlot<'a, C> {
    /// The underlying plot data.
    pub closed spec fn spec_plot(&self) -> SinglePlot<'a, C> {
        self.plot
    }

    /// The configured main color, if any.
    pub closed spec fn spec_color(&self) -> Option<C> {
        self.color
    }

    /// The configured text color, if any.
    pub closed spec fn spec_text_color(&self) -> Option<C> {
        self.text_color
    }

    /// The configured axis color, if any.
    pub closed spec fn spec_axis_color(&self) -> Option<C> {
        self.axis_color
    }

    /// The configured curve thickness, if any.
    pub closed spec fn spec_thickness(&self) -> Option<usize> {
        self.thickness
    }

    /// The configured axis thickness, if any.
    pub closed spec fn spec_axis_thickness(&self) -> Option<usize> {
        self.axis_thickness
    }

    /// The top-left corner of the destination rectangle.
    pub closed spec fn spec_top_left(&self) -> PixelPoint {
        self.top_left
    }

    /// The bottom-right corner of the destination rectangle.
    pub closed spec fn spec_bottom_right(&self) -> PixelPoint {
        self.bottom_right
    }

    /// The text color the plot draws with: the configured text color, else
    /// the main color.
    pub open spec fn spec_resolved_text_color(&self) -> Option<C> {
        color_or(self.spec_text_color(), self.spec_color())
    }

    /// The axis color the plot draws with: the configured axis color, else
    /// the main color.
    pub open spec fn spec_resolved_axis_color(&self) -> Option<C> {
        color_or(self.spec_axis_color(), self.spec_color())
    }

    /// The curve thickness the plot draws with: the configured value, or 2.
    pub open spec fn spec_resolved_thickness(&self) -> int {
        curve_thickness(self.spec_thickness())
    }

    /// The axis thickness the plot draws with: the configured value, else
    /// the curve thickness.
    pub open spec fn spec_resolved_axis_thickness(&self) -> int {
        match self.spec_axis_thickness() {
            Some(t) => t as int,
            None => self.spec_resolved_thickness(),
        }
    }

    /// All drawing commands this plot produces.
    pub open spec fn spec_commands(&self) -> Seq<CommandModel<C>> {
        plot_models(
            self.spec_plot().spec_curves(),
            self.spec_plot().spec_x_scale(),
            self.spec_plot().spec_y_scale(),
            self.spec_top_left(),
            self.spec_bottom_right(),
            self.spec_resolved_text_color(),
            self.spec_resolved_axis_color(),
            self.spec_resolved_thickness(),
            self.spec_resolved_axis_thickness(),
        )
    }

    /// The layout of the plot's axes and curves stays within machine
    /// bounds.
    pub open spec fn spec_layout_fits(&self) -> bool {
        let curves = self.spec_plot().spec_curves();
        let top_left = self.spec_top_left();
        let bottom_right = self.spec_bottom_right();
        &&& axis_layout_fits(
            curves[0].0.x_range,
            Placement::X { x1: top_left.x, x2: bottom_right.x, y: bottom_right.y },
            2,
            true,
        )
        &&& axis_layout_fits(
            curves[0].0.y_range,
            Placement::Y { y1: top_left.y, y2: bottom_right.y, x: top_left.x },
            2,
            true,
        )
        &&& forall|i: int|
            0 <= i < curves.len() ==> (renderable(
                (#[trigger] curves[i]).0.x_range,
                curves[i].0.y_range,
                top_left,
                bottom_right,
            ) ==> curve_scaling_fits(
                curves[i].0.spec_points(),
                curves[i].0.x_range,
                curves[i].0.y_range,
                top_left,
                bottom_right,
            ))
    }

    /// For curves, extents and a rectangle of moderate magnitude — within
    /// `MODERATE` — the whole plot layout stays within machine bounds.
    pub proof fn lemma_plot_layout_fits_moderate(&self)
        requires
            self.spec_plot().spec_curves().len() >= 1,
            -(MODERATE as int) <= self.spec_top_left().x <= MODERATE as int,
            -(MODERATE as int) <= self.spec_top_left().y <= MODERATE as int,
            -(MODERATE as int) <= self.spec_bottom_right().x <= MODERATE as int,
            -(MODERATE as int) <= self.spec_bottom_right().y <= MODERATE as int,
            forall|i: int|
                0 <= i < self.spec_plot().spec_curves().len() ==> {
                    let curve = (#[trigger] self.spec_plot().spec_curves()[i]).0;
                    &&& -(MODERATE as int) <= curve.x_range.start <= MODERATE as int
                    &&& -(MODERATE as int) <= curve.x_range.end <= MODERATE as int
                    &&& -(MODERATE as int) <= curve.y_range.start <= MODERATE as int
                    &&& -(MODERATE as int) <= curve.y_range.end <= MODERATE as int
                    &&& forall|j: int|
                        0 <= j < curve.spec_points().len() ==> {
                            let p = #[trigger] curve.spec_points()[j];
                            &&& -(MODERATE as int) <= p.x <= MODERATE as int
                            &&& -(MODERATE as int) <= p.y <= MODERATE as int
                        }
                },
        ensures
            self.spec_layout_fits(),
    {
        let curves = self.spec_plot().spec_curves();
        let top_left = self.spec_top_left();
        let bottom_right = self.spec_bottom_right();
        lemma_axis_layout_fits_moderate(
            curves[0].0.x_range,
            Placement::X { x1: top_left.x, x2: bottom_right.x, y: bottom_right.y },
            2,
            true,
        );
        lemma_axis_layout_fits_moderate(
            curves[0].0.y_range,
            Placement::Y { y1: top_left.y, y2: bottom_right.y, x: top_left.x },
            2,
            true,
        );
        assert forall|i: int|
            0 <= i < curves.len() && renderable(
                (#[trigger] curves[i]).0.x_range,
                curves[i].0.y_range,
                top_left,
                bottom_right,
            ) implies curve_scaling_fits(
            curves[i].0.spec_points(),
            curves[i].0.x_range,
            curves[i].0.y_range,
            top_left,
            bottom_right,
        ) by {
            lemma_curve_scaling_fits_moderate(
                curves[i].0.spec_points(),
                curves[i].0.x_range,
                curves[i].0.y_range,
                top_left,
                bottom_right,
            );
        }
    }

    /// The rectangle, every curve's extents and every sample of this plot
    /// all lie within the moderate band.
    pub open spec fn spec_moderate_layout(&self) -> bool {
        &&& self.spec_plot().spec_curves().len() >= 1
        &&& within_moderate(self.spec_top_left().x as int)
        &&& within_moderate(self.spec_top_left().y as int)
        &&& within_moderate(self.spec_bottom_right().x as int)
        &&& within_moderate(self.spec_bottom_right().y as int)
        &&& forall|i: int|
            0 <= i < self.spec_plot().spec_curves().len() ==> curve_moderate(
                (#[trigger] self.spec_plot().spec_curves()[i]).0,
            )
    }

    /// Tests that the plot is non-empty and that everything it lays out
    /// lies within the moderate band `[-MODERATE, MODERATE]`; that is
    /// sufficient (not necessary) for the layout to stay within machine
    /// bounds, so `draw_commands` may then be called.
    pub fn layout_fits_moderate(&self) -> (r: bool)
        ensures
            r == self.spec_moderate_layout(),
            r ==> self.spec_plot().spec_curves().len() >= 1 && self.spec_layout_fits(),
    {
        if self.plot.curves.len() < 1 {
            return false;
        }
        if !(-MODERATE <= self.top_left.x && self.top_left.x <= MODERATE && -MODERATE
            <= self.top_left.y && self.top_left.y <= MODERATE && -MODERATE <= self.bottom_right.x
            && self.bottom_right.x <= MODERATE && -MODERATE <= self.bottom_right.y
            && self.bottom_right.y <= MODERATE) {
            return false;
        }
        let ghost curves = self.spec_plot().spec_curves();
        let mut i: usize = 0;
        while i < self.plot.curves.len()
            invariant
                curves == self.spec_plot().spec_curves(),
                0 <= i <= curves.len(),
                forall|k: int| 0 <= k < i ==> curve_moderate((#[trigger] curves[k]).0),
            decreases curves.len() - i,
        {
            let curve = &self.plot.curves[i].0;
            if !(-MODERATE <= curve.x_range.start && curve.x_range.start <= MODERATE && -MODERATE
                <= curve.x_range.end && curve.x_range.end <= MODERATE && -MODERATE
                <= curve.y_range.start && curve.y_range.start <= MODERATE && -MODERATE
                <= curve.y_range.end && curve.y_range.end <= MODERATE) {
                proof {
                    assert(!curve_moderate(curves[i as int].0));
                }
                return false;
            }
            let mut j: usize = 0;
            while j < curve.points.len()
                invariant
                    curves == self.spec_plot().spec_curves(),
                    0 <= i < curves.len(),
                    curve == &curves[i as int].0,
                    0 <= j <= curve.spec_points().len(),
                    -(MODERATE as int) <= curve.x_range.start <= MODERATE as int,
                    -(MODERATE as int) <= curve.x_range.end <= MODERATE as int,
                    -(MODERATE as int) <= curve.y_range.start <= MODERATE as int,
                    -(MODERATE as int) <= curve.y_range.end <= MODERATE as int,
                    forall|l: int|
                        0 <= l < j ==> {
                            let p = #[trigger] curve.spec_points()[l];
                            &&& within_moderate(p.x as int)
                            &&& within_moderate(p.y as int)
                        },
                decreases curve.spec_points().len() - j,
            {
                let p = curve.points[j];
                if !(-MODERATE <= p.x && p.x <= MODERATE && -MODERATE <= p.y && p.y <= MODERATE) {
                    proof {
                        assert(curves[i as int].0.spec_points()[j as int] == p);
                        assert(!curve_moderate(curves[i as int].0));
                        assert(!self.spec_moderate_layout());
                    }
                    return false;
                }
                j = j + 1;
            }
            proof {
                assert(curve_moderate(curves[i as int].0));
            }
            i = i + 1;
        }
        proof {
            self.lemma_plot_layout_fits_moderate();
        }
        true
    }

    /// set the main color, used wherever no specific color is configured
    pub fn set_color(self, color: C) -> (r: DrawableSinglePlot<'a, C>)
        ensures
            r.spec_plot() == self.spec_plot(),
            r.spec_color() == Some(color),
            r.spec_text_color() == self.spec_text_color(),
            r.spec_axis_color() == self.spec_axis_color(),
            r.spec_thickness() == self.spec_thickness(),
            r.spec_axis_thickness() == self.spec_axis_thickness(),
            r.spec_top_left() == self.spec_top_left(),
            r.spec_bottom_right() == self.spec_bottom_right(),
    {
        DrawableSinglePlot {
            plot: self.plot,
            color: Some(color),
            text_color: self.text_color,
            axis_color: self.axis_color,
            thickness: self.thickness,
            axis_thickness: self.axis_thickness,
            top_left: self.top_left,
            bottom_right: self.bottom_right,
        }
    }

    /// set the color of axis labels and titles; if not set, the main color
    /// will be used
    pub fn set_text_color(self, color: C) -> (r: DrawableSinglePlot<'a, C>)
        ensures
            r.spec_plot() == self.spec_plot(),
            r.spec_color() == self.spec_color(),
            r.spec_text_color() == Some(color),
            r.spec_axis_color() == self.spec_axis_color(),
            r.spec_thickness() == self.spec_thickness(),
            r.spec_axis_thickness() == self.spec_axis_thickness(),
            r.spec_top_left() == self.spec_top_left(),
            r.spec_bottom_right() == self.spec_bottom_right(),
    {
        DrawableSinglePlot {
            plot: self.plot,
            color: self.color,
            text_color: Some(color),
            axis_color: self.axis_color,
            thickness: self.thickness,
            axis_thickness: self.axis_thickness,
            top_left: self.top_left,
            bottom_right: self.bottom_right,
        }
    }

    /// set the color of axis lines and ticks; if not set, the main color
    /// will be used
    pub fn set_axis_color(self, color: C) -> (r: DrawableSinglePlot<'a, C>)
        ensures
            r.spec_plot() == self.spec_plot(),
            r.spec_color() == self.spec_color(),
            r.spec_text_color() == self.spec_text_color(),
            r.spec_axis_color() == Some(color),
            r.spec_thickness() == self.spec_thickness(),
            r.spec_axis_thickness() == self.spec_axis_thickness(),
            r.spec_top_left() == self.spec_top_left(),
            r.spec_bottom_right() == self.spec_bottom_right(),
    {
        DrawableSinglePlot {
            plot: self.plot,
            color: self.color,
            text_color: self.text_color,
            axis_color: Some(color),
            thickness: self.thickness,
            axis_thickness: self.axis_thickness,
            top_left: self.top_left,
            bottom_right: self.bottom_right,
        }
    }

    /// set curve thickness
    pub fn set_thickness(self, thickness: usize) -> (r: DrawableSinglePlot<'a, C>)
        ensures
            r.spec_plot() == self.spec_plot(),
            r.spec_color() == self.spec_color(),
            r.spec_text_color() == self.spec_text_color(),
            r.spec_axis_color() == self.spec_axis_color(),
            r.spec_thickness() == Some(thickness),
            r.spec_axis_thickness() == self.spec_axis_thickness(),
            r.spec_top_left() == self.spec_top_left(),
            r.spec_bottom_right() == self.spec_bottom_right(),
    {
        DrawableSinglePlot {
            plot: self.plot,
            color: self.color,
            text_color: self.text_color,
            axis_color: self.axis_color,
            thickness: Some(thickness),
            axis_thickness: self.axis_thickness,
            top_left: self.top_left,
            bottom_right: self.bottom_right,
        }
    }

    /// set axis thickness; if not set, the curve thickness will be used
    pub fn set_axis_thickness(self, thickness: usize) -> (r: DrawableSinglePlot<'a, C>)
        ensures
            r.spec_plot() == self.spec_plot(),
            r.spec_color() == self.spec_color(),
            r.spec_text_color() == self.spec_text_color(),
            r.spec_axis_color() == self.spec_axis_color(),
            r.spec_thickness() == self.spec_thickness(),
            r.spec_axis_thickness() == Some(thickness),
            r.spec_top_left() == self.spec_top_left(),
            r.spec_bottom_right() == self.spec_bottom_right(),
    {
        DrawableSinglePlot {
            plot: self.plot,
            color: self.color,
            text_color: self.text_color,
            axis_color: self.axis_color,
            thickness: self.thickness,
            axis_thickness: Some(thickness),
            top_left: self.top_left,
            bottom_right: self.bottom_right,
        }
    }
}

impl<'a, C: Copy> DrawableSinglePlot<'a, C> {
    /// draw the plot: both axes first, then every curve that fits the
    /// rectangle, in collection order
    pub fn draw_commands(&self) -> (cmds: Vec<DrawCommand<C>>)
        requires
            self.spec_plot().spec_curves().len() >= 1,
            self.spec_layout_fits(),
        ensures
            cmds.deep_view() == self.spec_commands(),
    {
        let ghost g_full = self.spec_commands();
        let ghost g_curves = self.spec_plot().spec_curves();
        let color = self.color;
        let text_color: Option<C> = match self.text_color {
            Some(c) => Some(c),
            None => color,
        };
        let axis_color: Option<C> = match self.axis_color {
            Some(c) => Some(c),
            None => color,
        };
        let thickness: usize = match self.thickness {
            None => 2,
            Some(t) => t,
        };
        let axis_thickness: usize = match self.axis_thickness {
            None => thickness,
            Some(t) => t,
        };
        let text_style = AxisTextStyle { text_color };
        let first = &self.plot.curves[0].0;
        let x_range = Range { start: first.x_range.start, end: first.x_range.end };
        let y_range = Range { start: first.y_range.start, end: first.y_range.end };

        let x_axis = Axis::new(x_range).set_title("X").set_scale(self.plot.x_scale);
        let mut x_drawable: DrawableAxis<C> = x_axis.into_drawable_axis(
            Placement::X { x1: self.top_left.x, x2: self.bottom_right.x, y: self.bottom_right.y },
        );
        x_drawable = match axis_color {
            Some(c) => x_drawable.set_color(c),
            None => x_drawable,
        };
        x_drawable = x_drawable.set_text_style(text_style).set_tick_size(2).set_thickness(
            axis_thickness,
        );
        let mut cmds = x_drawable.draw_commands();

        let y_axis = Axis::new(y_range).set_title("Y").set_scale(self.plot.y_scale);
        let mut y_drawable: DrawableAxis<C> = y_axis.into_drawable_axis(
            Placement::Y { y1: self.top_left.y, y2: self.bottom_right.y, x: self.top_left.x },
        );
        y_drawable = match axis_color {
            Some(c) => y_drawable.set_color(c),
            None => y_drawable,
        };
        y_drawable = y_drawable.set_text_style(text_style).set_tick_size(2).set_thickness(
            axis_thickness,
        );
        let mut y_cmds = y_drawable.draw_commands();
        cmds.append(&mut y_cmds);

        proof {
            assert(cmds.deep_view() + plot_curve_models(
                g_curves,
                0,
                self.spec_top_left(),
                self.spec_bottom_right(),
                thickness as int,
            ) =~= g_full);
        }

        let mut i: usize = 0;
        while i < self.plot.curves.len()
            invariant
                self.spec_layout_fits(),
                g_curves == self.spec_plot().spec_curves(),
                g_full == self.spec_commands(),
                thickness as int == self.spec_resolved_thickness(),
                0 <= i <= g_curves.len(),
                cmds.deep_view() + plot_curve_models(
                    g_curves,
                    i as int,
                    self.spec_top_left(),
                    self.spec_bottom_right(),
                    thickness as int,
                ) == g_full,
            decreases g_curves.len() - i,
        {
            let ghost old_dv = cmds.deep_view();
            let entry = &self.plot.curves[i];
            match entry.0.into_drawable_curve::<C>(&self.top_left, &self.bottom_right) {
                Ok(drawable) => {
                    let styled = drawable.set_color(entry.1).set_thickness(thickness);
                    let mut curve_cmds = styled.draw_commands();
                    proof {
                        assert(pixel_models(styled.spec_scaled_data()) =~= mapped_points(
                            g_curves[i as int].0.spec_points(),
                            g_curves[i as int].0.x_range,
                            g_curves[i as int].0.y_range,
                            self.spec_top_left(),
                            self.spec_bottom_right(),
                        ));
                    }
                    cmds.append(&mut curve_cmds);
                    proof {
                        assert(cmds.deep_view() =~= old_dv + polyline_models(
                            mapped_points(
                                g_curves[i as int].0.spec_points(),
                                g_curves[i as int].0.x_range,
                                g_curves[i as int].0.y_range,
                                self.spec_top_left(),
                                self.spec_bottom_right(),
                            ),
                            Some(g_curves[i as int].1),
                            thickness as int,
                        ));
                        assert(cmds.deep_view() + plot_curve_models(
                            g_curves,
                            i + 1,
                            self.spec_top_left(),
                            self.spec_bottom_right(),
                            thickness as int,
                        ) =~= g_full);
                    }
                },
                Err(_) => {
                    proof {
                        assert(cmds.deep_view() + plot_curve_models(
                            g_curves,
                            i + 1,
                            self.spec_top_left(),
                            self.spec_bottom_right(),
                            thickness as int,
                        ) =~= g_full);
                    }
                },
            }
            i = i + 1;
        }
        proof {
            assert(cmds.deep_view() =~= g_full);
        }
        cmds
    }
}

} // verus!
