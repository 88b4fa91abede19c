//! What a chart is drawn with: points on ellipses, drawing commands, paths
//! and the document that collects them.

use vstd::prelude::*;
use crate::angle::Turn;

verus! {

/// The two radii of an ellipse, along its own axes.
#[derive(Clone, Copy, Debug, PartialEq, Eq, Structural)]
pub struct Radii {
    pub rx: u64,
    pub ry: u64,
}

/// An ellipse on the canvas: its axes are turned by `rotation`, given in
/// thousandths of a degree, about `center`.
#[derive(Clone, Copy, Debug, PartialEq, Eq)]
pub struct Ellipse {
    pub center: (i32, i32),
    pub radii: Radii,
    pub rotation: i32,
}

/// A point of the canvas: the point of the ellipse `on` that lies at the
/// angle `at`. With `t` the angle in radians and `r` the rotation in radians
/// it has the coordinates
/// `(cx + rx·cos t·cos r - ry·sin t·sin r, cy + rx·cos t·sin r + ry·sin t·cos r)`.
#[derive(Clone, Copy, Debug, PartialEq, Eq)]
pub struct EllipsePoint {
    pub on: Ellipse,
    pub at: Turn,
}

/// The edge between two neighbouring sectors: one point on the inner and one
/// on the outer boundary, at the same angle.
#[derive(Clone, Copy, Debug, PartialEq, Eq)]
pub struct SectorBoundary {
    pub inner: EllipsePoint,
    pub outer: EllipsePoint,
}

/// One drawing command of a path.
#[derive(Clone, Copy, Debug, PartialEq, Eq)]
pub enum Command {
    /// Start a new outline at the point.
    MoveTo(EllipsePoint),
    /// Draw a straight line to the point.
    LineTo(EllipsePoint),
    /// Draw an elliptical arc to the point `to`, along an ellipse with the
    /// given radii and rotation (in thousandths of a degree). Of the arcs that
    /// join the two points, `large_arc` picks the longer ones and `sweep` the
    /// ones drawn in the positive angular direction.
    ArcTo { radii: Radii, rotation: i32, large_arc: bool, sweep: bool, to: EllipsePoint },
    /// Close the outline.
    Close,
}

/// A closed, filled outline.
#[derive(Clone, Debug, PartialEq, Eq)]
pub struct PathSpec {
    pub commands: Vec<Command>,
    pub fill: String,
}

/// What a path holds, as mathematical values.
pub struct PathView {
    pub commands: Seq<Command>,
    pub fill: Seq<char>,
}

impl View for PathSpec {
    type V = PathView;

    open spec fn view(&self) -> PathView {
        PathView { commands: self.commands@, fill: self.fill@ }
    }
}

/// The views of a sequence of paths, in order.
pub open spec fn path_views(paths: Seq<PathSpec>) -> Seq<PathView> {
    Seq::new(paths.len(), |i: int| paths[i]@)
}

/// A canvas of a fixed size and the paths drawn on it so far, in drawing order.
#[derive(Clone, Debug, PartialEq, Eq)]
pub struct ChartDocument {
    pub width: u32,
    pub height: u32,
    pub paths: Vec<PathSpec>,
}

/// What a document holds, as mathematical values.
pub struct DocumentView {
    pub width: u32,
    pub height: u32,
    pub paths: Seq<PathView>,
}

impl View for ChartDocument {
    type V = DocumentView;

    open spec fn view(&self) -> DocumentView {
        DocumentView { width: self.width, height: self.height, paths: path_views(self.paths@) }
    }
}

impl ChartDocument {
    /// The visible region of the canvas: its origin and its size.
    pub open spec fn spec_view_box(&self) -> (u32, u32, u32, u32) {
        (0, 0, self.width, self.height)
    }

    /// An empty canvas of the given size.
    pub fn new(width: u32, height: u32) -> (doc: ChartDocument)
        ensures
            doc@ == (DocumentView { width, height, paths: Seq::empty() }),
    {
        let doc = ChartDocument { width, height, paths: Vec::new() };
        assert(doc@.paths =~= Seq::empty());
        doc
    }

    /// The visible region of the canvas: it starts at the origin and spans
    /// the canvas.
    pub fn view_box(&self) -> (r: (u32, u32, u32, u32))
        ensures
            r == self.spec_view_box(),
    {
        (0, 0, self.width, self.height)
    }

    /// Draws `path` on top of what the canvas holds.
    pub fn append(&mut self, path: PathSpec)
        ensures
            final(self)@ == (DocumentView {
                width: old(self)@.width,
                height: old(self)@.height,
                paths: old(self)@.paths.push(path@),
            }),
    {
        self.paths.push(path);
        assert(final(self)@.paths =~= old(self)@.paths.push(path@));
    }
}

} // verus!
