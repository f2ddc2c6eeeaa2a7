//! A small, verified 2D line-chart engine for pixel displays.
//!
//! The crate maps integer sample data into pixel space, lays out axes with
//! ticks and numeric labels, and composes one or more curves with shared axes
//! into a single plot.  Rendering is expressed as an explicit sequence of
//! primitive drawing commands (lines and text fragments); an application
//! replays those commands against a concrete drawing target.

pub mod axis;
pub mod command;
pub mod curve;
pub mod range_conv;
pub mod single_plot;
