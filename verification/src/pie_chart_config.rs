//! The geometric parameters of one chart.

use vstd::prelude::*;
use crate::path::{Ellipse, Radii};

verus! {

/// Configuration of a pie or donut chart.
///
/// Lengths are whole numbers of canvas units; a finer grid is had by choosing
/// a larger canvas. The band between the inner and the outer boundary is
/// `radial_width` thick.
#[derive(Clone, Copy, Debug, PartialEq, Eq)]
pub struct PieChartConfig {
    /// Centre of both boundaries, in canvas coordinates.
    pub center: (i32, i32),
    /// Major radius of the inner boundary.
    pub width: u32,
    /// Minor radius of the inner boundary.
    pub height: u32,
    /// Rotation of the whole figure, in thousandths of a degree.
    pub rotation: i32,
    /// Thickness of the band, added to both radii to give the outer boundary.
    pub radial_width: u32,
    /// Width of the canvas.
    pub chart_width: u32,
    /// Height of the canvas.
    pub chart_height: u32,
}

impl PieChartConfig {
    /// The canvas is not empty. Radii and the band cannot be negative.
    pub open spec fn well_formed(&self) -> bool {
        self.chart_width > 0 && self.chart_height > 0
    }

    /// The inner boundary.
    pub open spec fn spec_inner(&self) -> Ellipse {
        Ellipse {
            center: self.center,
            radii: Radii { rx: self.width as u64, ry: self.height as u64 },
            rotation: self.rotation,
        }
    }

    /// The outer boundary.
    pub open spec fn spec_outer(&self) -> Ellipse {
        Ellipse {
            center: self.center,
            radii: Radii {
                rx: (self.width + self.radial_width) as u64,
                ry: (self.height + self.radial_width) as u64,
            },
            rotation: self.rotation,
        }
    }

    /// The configuration of a donut between two circles about `center`, the
    /// inner one no wider than the outer: the inner radius on both axes, the
    /// difference of the radii as the band, and no rotation.
    pub fn from_radii(
        center: (i32, i32),
        inner_radius: u32,
        outer_radius: u32,
        chart_width: u32,
        chart_height: u32,
    ) -> (config: PieChartConfig)
        requires
            inner_radius <= outer_radius,
        ensures
            config.center == center,
            config.rotation == 0,
            config.chart_width == chart_width,
            config.chart_height == chart_height,
            config.spec_inner().radii == (Radii { rx: inner_radius as u64, ry: inner_radius as u64 }),
            config.spec_outer().radii == (Radii { rx: outer_radius as u64, ry: outer_radius as u64 }),
    {
        PieChartConfig {
            center,
            width: inner_radius,
            height: inner_radius,
            rotation: 0,
            radial_width: outer_radius - inner_radius,
            chart_width,
            chart_height,
        }
    }

    /// Whether the configuration is one that a chart can be made from.
    pub fn is_well_formed(&self) -> (r: bool)
        ensures
            r == self.well_formed(),
    {
        self.chart_width > 0 && self.chart_height > 0
    }

    /// The inner boundary: the ellipse with the configured radii.
    pub fn inner(&self) -> (r: Ellipse)
        ensures
            r == self.spec_inner(),
    {
        Ellipse {
            center: self.center,
            radii: Radii { rx: self.width as u64, ry: self.height as u64 },
            rotation: self.rotation,
        }
    }

    /// The outer boundary: the inner one, widened by the band on both axes.
    pub fn outer(&self) -> (r: Ellipse)
        ensures
            r == self.spec_outer(),
            r.radii.rx == self.width + self.radial_width,
            r.radii.ry == self.height + self.radial_width,
    {
        let band: u64 = self.radial_width as u64;
        Ellipse {
            center: self.center,
            radii: Radii { rx: self.width as u64 + band, ry: self.height as u64 + band },
            rotation: self.rotation,
        }
    }
}

} // verus!
