//! The chart itself: from a configuration and an ordered sequence of data
//! points to one closed path per data point.

use vstd::prelude::*;
use crate::angle::{Proportion, Turn};
use crate::error::DegenerateInputError;
use crate::path::{
    ChartDocument, Command, DocumentView, Ellipse, EllipsePoint, PathSpec, PathView,
    SectorBoundary,
};
use crate::pie_chart_config::PieChartConfig;
use crate::pie_chart_data::{
    compute_proportions, fills_of, lemma_sum_monotone, normalized, parts_of, proportions_of,
    slice_fills, sum_upto, total, values_of, PieChartData, Slice,
};

verus! {

/// The edge of a sector at the angle `at`: the points of the two boundaries
/// that lie at that angle.
pub open spec fn boundary_at(inner: Ellipse, outer: Ellipse, at: Turn) -> SectorBoundary {
    SectorBoundary {
        inner: EllipsePoint { on: inner, at },
        outer: EllipsePoint { on: outer, at },
    }
}

/// The angle at which the first `i` of the shares `parts` end.
pub open spec fn turn_upto(parts: Seq<u64>, i: int) -> Turn {
    Turn { num: sum_upto(parts, i) as u128, den: total(parts) as u128 }
}

/// The outline of the sector between the edges `from` and `to`: out along
/// the first edge, along the outer boundary to the second edge, in along it,
/// and back along the inner boundary. Both arcs are the longer ones exactly
/// when `large_arc` is set; the outer one runs in the negative angular
/// direction and the inner one in the positive.
pub open spec fn sector_commands(from: SectorBoundary, to: SectorBoundary, large_arc: bool) -> Seq<
    Command,
> {
    seq![
        Command::MoveTo(from.inner),
        Command::LineTo(from.outer),
        Command::ArcTo {
            radii: to.outer.on.radii,
            rotation: to.outer.on.rotation,
            large_arc,
            sweep: false,
            to: to.outer,
        },
        Command::LineTo(to.inner),
        Command::ArcTo {
            radii: from.inner.on.radii,
            rotation: from.inner.on.rotation,
            large_arc,
            sweep: true,
            to: from.inner,
        },
        Command::Close,
    ]
}

/// The path of the sector of index `i`: it starts where the shares before it
/// end, spans its own share, and takes the longer arcs exactly when that
/// share is more than one half.
pub open spec fn sector_path(
    inner: Ellipse,
    outer: Ellipse,
    parts: Seq<u64>,
    fills: Seq<Seq<char>>,
    i: int,
) -> PathView {
    PathView {
        commands: sector_commands(
            boundary_at(inner, outer, turn_upto(parts, i)),
            boundary_at(inner, outer, turn_upto(parts, i + 1)),
            2 * parts[i] > total(parts),
        ),
        fill: fills[i],
    }
}

/// The angle zero, as it is used for a ring.
pub open spec fn ring_start() -> Turn {
    Turn { num: 0, den: 2 }
}

/// Half a revolution, as it is used for a ring.
pub open spec fn ring_half() -> Turn {
    Turn { num: 1, den: 2 }
}

/// The outline of a full ring: the outer boundary in two half arcs drawn in
/// the positive angular direction, across to the inner boundary, and the
/// inner boundary in two half arcs drawn in the negative one.
pub open spec fn ring_commands(inner: Ellipse, outer: Ellipse) -> Seq<Command> {
    let outer_start = EllipsePoint { on: outer, at: ring_start() };
    let outer_half = EllipsePoint { on: outer, at: ring_half() };
    let inner_start = EllipsePoint { on: inner, at: ring_start() };
    let inner_half = EllipsePoint { on: inner, at: ring_half() };
    seq![
        Command::MoveTo(outer_start),
        Command::ArcTo {
            radii: outer.radii,
            rotation: outer.rotation,
            large_arc: false,
            sweep: true,
            to: outer_half,
        },
        Command::ArcTo {
            radii: outer.radii,
            rotation: outer.rotation,
            large_arc: false,
            sweep: true,
            to: outer_start,
        },
        Command::LineTo(inner_start),
        Command::ArcTo {
            radii: inner.radii,
            rotation: inner.rotation,
            large_arc: false,
            sweep: false,
            to: inner_half,
        },
        Command::ArcTo {
            radii: inner.radii,
            rotation: inner.rotation,
            large_arc: false,
            sweep: false,
            to: inner_start,
        },
        Command::Close,
    ]
}

/// The path of a chart that has a single slice: the full ring, in the
/// colour of that slice.
pub open spec fn ring_path(inner: Ellipse, outer: Ellipse, fill: Seq<char>) -> PathView {
    PathView { commands: ring_commands(inner, outer), fill }
}

/// The first `n` sector paths of a chart, in order.
pub open spec fn sector_paths(
    inner: Ellipse,
    outer: Ellipse,
    parts: Seq<u64>,
    fills: Seq<Seq<char>>,
    n: int,
) -> Seq<PathView> {
    Seq::new(n as nat, |i: int| sector_path(inner, outer, parts, fills, i))
}

/// The paths of a chart, in drawing order: the ring for a single slice,
/// else one sector for every slice.
pub open spec fn chart_paths(
    inner: Ellipse,
    outer: Ellipse,
    parts: Seq<u64>,
    fills: Seq<Seq<char>>,
) -> Seq<PathView> {
    if parts.len() == 1 {
        seq![ring_path(inner, outer, fills[0])]
    } else {
        sector_paths(inner, outer, parts, fills, parts.len() as int)
    }
}

/// A pie or donut chart: two boundaries, a canvas and the data to draw.
pub struct PieChart<'a> {
    inner: Ellipse,
    outer: Ellipse,
    width: u32,
    height: u32,
    data: &'a [PieChartData],
}

impl<'a> PieChart<'a> {
    /// The canvas is not empty, and the two boundaries share their centre
    /// and rotation, the outer one being at least as wide as the inner.
    #[verifier::type_invariant]
    spec fn consistent(self) -> bool {
        &&& self.width > 0
        &&& self.height > 0
        &&& self.inner.center == self.outer.center
        &&& self.inner.rotation == self.outer.rotation
        &&& self.inner.radii.rx <= self.outer.radii.rx
        &&& self.inner.radii.ry <= self.outer.radii.ry
    }

    /// The inner boundary.
    pub closed spec fn inner(&self) -> Ellipse {
        self.inner
    }

    /// The outer boundary.
    pub closed spec fn outer(&self) -> Ellipse {
        self.outer
    }

    /// Width and height of the canvas.
    pub closed spec fn canvas(&self) -> (u32, u32) {
        (self.width, self.height)
    }

    /// The data points, in drawing order.
    pub closed spec fn data(&self) -> Seq<PieChartData> {
        self.data@
    }

    /// The paths that the chart consists of.
    pub open spec fn paths(&self) -> Seq<PathView> {
        chart_paths(self.inner(), self.outer(), values_of(self.data()), fills_of(self.data()))
    }

    /// A chart of `data` with the geometry that `config` describes. The two
    /// boundaries are fixed here, once, from the radii and the band.
    pub fn new(config: PieChartConfig, data: &'a [PieChartData]) -> (chart: Self)
        requires
            config.well_formed(),
        ensures
            chart.inner() == config.spec_inner(),
            chart.outer() == config.spec_outer(),
            chart.canvas() == (config.chart_width, config.chart_height),
            chart.data() == data@,
    {
        Self {
            inner: config.inner(),
            outer: config.outer(),
            width: config.chart_width,
            height: config.chart_height,
            data,
        }
    }

    /// Draws the chart on a canvas of its own.
    ///
    /// Fails exactly when the weights add up to zero. Otherwise the canvas
    /// has the configured size and holds the paths of the chart and nothing
    /// else.
    pub fn get(&self) -> (r: Result<ChartDocument, DegenerateInputError>)
        ensures
            r is Err <==> total(values_of(self.data())) == 0,
            r matches Ok(doc) ==> doc@ == (DocumentView {
                width: self.canvas().0,
                height: self.canvas().1,
                paths: self.paths(),
            }),
    {
        let mut base = self.get_image();
        match self.draw_sectors(&mut base) {
            Ok(()) => {
                assert(Seq::<PathView>::empty() + self.paths() =~= self.paths());
                Ok(base)
            },
            Err(e) => Err(e),
        }
    }

    /// The empty canvas on which the chart is drawn. It has the configured
    /// size, which is not zero in either direction.
    pub fn get_image(&self) -> (doc: ChartDocument)
        ensures
            doc@ == (DocumentView {
                width: self.canvas().0,
                height: self.canvas().1,
                paths: Seq::empty(),
            }),
            doc.width > 0,
            doc.height > 0,
    {
        proof {
            use_type_invariant(self);
        }
        ChartDocument::new(self.width, self.height)
    }

    /// Draws the chart on top of what `base` holds.
    ///
    /// Fails exactly when the weights add up to zero, and then leaves `base`
    /// as it was. Otherwise the paths of the chart are appended in the order
    /// of the data.
    pub fn draw_sectors(&self, base: &mut ChartDocument) -> (r: Result<(), DegenerateInputError>)
        ensures
            r is Err <==> total(values_of(self.data())) == 0,
            r is Err ==> *final(base) == *old(base),
            r is Ok ==> final(base)@ == (DocumentView {
                width: old(base)@.width,
                height: old(base)@.height,
                paths: old(base)@.paths + self.paths(),
            }),
    {
        match self.get_data() {
            Ok(slices) => {
                proof {
                    assert(parts_of(slices@) =~= values_of(self.data()));
                    assert(slice_fills(slices@) =~= fills_of(self.data()));
                }
                self.draw_slices(&slices, base);
                Ok(())
            },
            Err(e) => Err(e),
        }
    }

    /// The data with every weight turned into its share of the revolution.
    ///
    /// Fails exactly when the weights add up to zero. The data itself is not
    /// changed.
    pub fn get_data(&self) -> (r: Result<Vec<Slice>, DegenerateInputError>)
        ensures
            r is Err <==> total(values_of(self.data())) == 0,
            r matches Ok(slices) ==> proportions_of(self.data(), slices@) && normalized(slices@),
    {
        compute_proportions(self.data)
    }

    /// Draws normalised slices on top of what `base` holds: the ring for a
    /// single slice, else the sectors one after the other, each starting
    /// where the one before it ended and the first at the angle zero.
    pub fn draw_slices(&self, slices: &Vec<Slice>, base: &mut ChartDocument)
        requires
            normalized(slices@),
        ensures
            final(base)@ == (DocumentView {
                width: old(base)@.width,
                height: old(base)@.height,
                paths: old(base)@.paths + chart_paths(
                    self.inner(),
                    self.outer(),
                    parts_of(slices@),
                    slice_fills(slices@),
                ),
            }),
    {
        let ghost parts = parts_of(slices@);
        let ghost fills = slice_fills(slices@);
        if slices.len() == 1 {
            let path = self.ring(&slices[0].color);
            base.append(path);
            assert(final(base)@.paths =~= old(base)@.paths + chart_paths(
                self.inner(),
                self.outer(),
                parts,
                fills,
            ));
            return ;
        }
        let whole: u128 = slices[0].weight.whole;
        let mut sv: Turn = Turn::start(whole);
        let mut current: SectorBoundary = self.boundary_at_turn(sv);
        let mut i: usize = 0;
        while i < slices.len()
            invariant
                0 <= i <= slices.len(),
                normalized(slices@),
                parts == parts_of(slices@),
                fills == slice_fills(slices@),
                whole == total(parts),
                sv == turn_upto(parts, i as int),
                sv.num == sum_upto(parts, i as int),
                current == boundary_at(self.inner(), self.outer(), sv),
                base@.width == old(base)@.width,
                base@.height == old(base)@.height,
                base@.paths == old(base)@.paths + sector_paths(
                    self.inner(),
                    self.outer(),
                    parts,
                    fills,
                    i as int,
                ),
            decreases slices.len() - i,
        {
            let slice = &slices[i];
            proof {
                lemma_sum_monotone(parts, i + 1, parts.len() as int);
                assert(sum_upto(parts, i + 1) == sum_upto(parts, i as int) + parts[i as int]);
            }
            let next: SectorBoundary = self.boundary(sv, &slice.weight);
            let path = self.sector(&current, &next, &slice.weight, &slice.color);
            let ghost before = base@.paths;
            base.append(path);
            sv = sv.advance(&slice.weight);
            current = next;
            i = i + 1;
            proof {
                assert(path@ == sector_path(self.inner(), self.outer(), parts, fills, i - 1));
                assert(base@.paths =~= old(base)@.paths + sector_paths(
                    self.inner(),
                    self.outer(),
                    parts,
                    fills,
                    i as int,
                ));
            }
        }
    }

    /// The edge at the angle `at`.
    pub fn boundary_at_turn(&self, at: Turn) -> (r: SectorBoundary)
        ensures
            r == boundary_at(self.inner(), self.outer(), at),
    {
        SectorBoundary {
            inner: EllipsePoint { on: self.inner, at },
            outer: EllipsePoint { on: self.outer, at },
        }
    }

    /// The edge at which a sector ends that starts at the angle `sv` and has
    /// the share `weight`. It depends on nothing but the two arguments and
    /// the boundaries of the chart.
    pub fn boundary(&self, sv: Turn, weight: &Proportion) -> (r: SectorBoundary)
        requires
            sv.den == weight.whole,
            sv.num + weight.part <= sv.den,
        ensures
            r == boundary_at(self.inner(), self.outer(), sv.spec_advance(*weight)),
    {
        self.boundary_at_turn(sv.advance(weight))
    }

    /// The path of one sector between two edges, filled with `color`. The
    /// arcs are the longer ones exactly when `weight` is more than one half.
    pub fn sector(
        &self,
        from: &SectorBoundary,
        to: &SectorBoundary,
        weight: &Proportion,
        color: &String,
    ) -> (path: PathSpec)
        ensures
            path@ == (PathView {
                commands: sector_commands(*from, *to, weight.spec_exceeds_half()),
                fill: color@,
            }),
    {
        let large_arc = weight.exceeds_half();
        let mut commands: Vec<Command> = Vec::new();
        commands.push(Command::MoveTo(from.inner));
        commands.push(Command::LineTo(from.outer));
        commands.push(
            Command::ArcTo {
                radii: to.outer.on.radii,
                rotation: to.outer.on.rotation,
                large_arc,
                sweep: false,
                to: to.outer,
            },
        );
        commands.push(Command::LineTo(to.inner));
        commands.push(
            Command::ArcTo {
                radii: from.inner.on.radii,
                rotation: from.inner.on.rotation,
                large_arc,
                sweep: true,
                to: from.inner,
            },
        );
        commands.push(Command::Close);
        assert(commands@ =~= sector_commands(*from, *to, weight.spec_exceeds_half()));
        PathSpec { commands, fill: color.clone() }
    }

    /// The path of the full ring between the two boundaries, filled with
    /// `color`.
    pub fn ring(&self, color: &String) -> (path: PathSpec)
        ensures
            path@ == ring_path(self.inner(), self.outer(), color@),
    {
        let start = Turn { num: 0, den: 2 };
        let half = Turn { num: 1, den: 2 };
        let outer_start = EllipsePoint { on: self.outer, at: start };
        let outer_half = EllipsePoint { on: self.outer, at: half };
        let inner_start = EllipsePoint { on: self.inner, at: start };
        let inner_half = EllipsePoint { on: self.inner, at: half };
        let mut commands: Vec<Command> = Vec::new();
        commands.push(Command::MoveTo(outer_start));
        commands.push(
            Command::ArcTo {
                radii: self.outer.radii,
                rotation: self.outer.rotation,
                large_arc: false,
                sweep: true,
                to: outer_half,
            },
        );
        commands.push(
            Command::ArcTo {
                radii: self.outer.radii,
                rotation: self.outer.rotation,
                large_arc: false,
                sweep: true,
                to: outer_start,
            },
        );
        commands.push(Command::LineTo(inner_start));
        commands.push(
            Command::ArcTo {
                radii: self.inner.radii,
                rotation: self.inner.rotation,
                large_arc: false,
                sweep: false,
                to: inner_half,
            },
        );
        commands.push(
            Command::ArcTo {
                radii: self.inner.radii,
                rotation: self.inner.rotation,
                large_arc: false,
                sweep: false,
                to: inner_start,
            },
        );
        commands.push(Command::Close);
        assert(commands@ =~= ring_commands(self.inner(), self.outer()));
        PathSpec { commands, fill: color.clone() }
    }
}

} // verus!
