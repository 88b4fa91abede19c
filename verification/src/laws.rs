//! What holds of every chart.

use vstd::prelude::*;
use crate::angle::{Proportion, Turn};
use crate::path::{Ellipse, PathView, SectorBoundary};
use crate::pie_chart::{
    boundary_at, chart_paths, ring_path, sector_path, sector_paths, turn_upto, PieChart,
};
use crate::pie_chart_data::{
    lemma_sum_monotone, lemma_total_fits, normalized, parts_of, sum_upto, total, Slice,
};

verus! {

/// The edge at which a sector path starts: the point it moves to and the
/// point of its first line.
pub open spec fn start_edge(path: PathView) -> SectorBoundary {
    SectorBoundary { inner: path.commands[0]->MoveTo_0, outer: path.commands[1]->LineTo_0 }
}

/// The edge at which a sector path ends: the target of its outer arc and
/// the point of its second line.
pub open spec fn end_edge(path: PathView) -> SectorBoundary {
    SectorBoundary { inner: path.commands[3]->LineTo_0, outer: path.commands[2]->to }
}

/// How far it is from the angle `from` on to the angle `to`, counted in
/// parts of `from.den`, going on past the full revolution where `to` lies
/// before `from`.
pub open spec fn swept(from: Turn, to: Turn) -> int {
    if from.num <= to.num {
        to.num - from.num
    } else {
        to.num + from.den - from.num
    }
}

/// The angular span of a sector path, in parts of its denominator.
pub open spec fn sector_span(path: PathView) -> int {
    swept(start_edge(path).outer.at, end_edge(path).outer.at)
}

/// The angular span of the two outer arcs of a ring path, in parts of its
/// denominator.
pub open spec fn ring_span(path: PathView) -> int {
    swept(path.commands[0]->MoveTo_0.at, path.commands[1]->to.at) + swept(
        path.commands[1]->to.at,
        path.commands[2]->to.at,
    )
}

/// The sum of the angular spans of the first `n` sector paths.
pub open spec fn spans_upto(paths: Seq<PathView>, n: int) -> int
    decreases n,
{
    if n <= 0 {
        0
    } else {
        spans_upto(paths, n - 1) + sector_span(paths[n - 1])
    }
}

/// Every share of a normalised sequence lies between zero and one.
pub proof fn lemma_normalized_weights(slices: Seq<Slice>, i: int)
    requires
        normalized(slices),
        0 <= i < slices.len(),
    ensures
        slices[i].weight.well_formed(),
{
    let parts = parts_of(slices);
    lemma_sum_monotone(parts, i + 1, parts.len() as int);
    assert(sum_upto(parts, i + 1) == sum_upto(parts, i) + parts[i]);
}

/// Every edge of a chart lies at an angle between zero and one revolution.
pub proof fn lemma_turn_well_formed(parts: Seq<u64>, i: int)
    requires
        parts.len() <= usize::MAX,
        total(parts) > 0,
        0 <= i <= parts.len(),
    ensures
        turn_upto(parts, i).well_formed(),
        turn_upto(parts, i).num == sum_upto(parts, i),
        turn_upto(parts, i).den == total(parts),
{
    lemma_total_fits(parts, parts.len() as int);
    lemma_sum_monotone(parts, i, parts.len() as int);
}

/// The spans of the first `n` sectors add up to the angle at which the
/// `n`-th sector ends.
proof fn lemma_spans_sum(
    inner: Ellipse,
    outer: Ellipse,
    parts: Seq<u64>,
    fills: Seq<Seq<char>>,
    n: int,
)
    requires
        parts.len() <= usize::MAX,
        total(parts) > 0,
        0 <= n <= parts.len(),
    ensures
        spans_upto(sector_paths(inner, outer, parts, fills, parts.len() as int), n) == sum_upto(
            parts,
            n,
        ),
    decreases n,
{
    if n > 0 {
        lemma_spans_sum(inner, outer, parts, fills, n - 1);
        lemma_turn_well_formed(parts, n - 1);
        lemma_turn_well_formed(parts, n);
        let paths = sector_paths(inner, outer, parts, fills, parts.len() as int);
        assert(paths[n - 1] == sector_path(inner, outer, parts, fills, n - 1));
    }
}

/// Partition: whenever the weights have a positive sum, the chart covers
/// exactly one revolution. The angular spans of the sectors add up to the
/// common denominator of their angles; a chart of a single slice is the ring,
/// whose two outer arcs span the two halves of the revolution.
pub proof fn lemma_sectors_partition(
    inner: Ellipse,
    outer: Ellipse,
    parts: Seq<u64>,
    fills: Seq<Seq<char>>,
)
    requires
        parts.len() <= usize::MAX,
        total(parts) > 0,
    ensures
        chart_paths(inner, outer, parts, fills).len() == parts.len(),
        parts.len() != 1 ==> spans_upto(
            chart_paths(inner, outer, parts, fills),
            parts.len() as int,
        ) == total(parts),
        parts.len() != 1 ==> forall|i: int|
            0 <= i < parts.len() ==> start_edge(
                #[trigger] chart_paths(inner, outer, parts, fills)[i],
            ).outer.at.den == total(parts),
        parts.len() == 1 ==> ring_span(chart_paths(inner, outer, parts, fills)[0])
            == chart_paths(inner, outer, parts, fills)[0].commands[0]->MoveTo_0.at.den,
{
    if parts.len() != 1 {
        lemma_spans_sum(inner, outer, parts, fills, parts.len() as int);
        assert forall|i: int| 0 <= i < parts.len() implies start_edge(
            #[trigger] chart_paths(inner, outer, parts, fills)[i],
        ).outer.at.den == total(parts) by {
            lemma_turn_well_formed(parts, i);
        }
    }
}

/// Order: whenever the weights have a positive sum and there is more than
/// one slice, every sector but the first starts at the edge at which the
/// sector before it ends, the first sector starts at the angle zero, and
/// the last one ends at the full revolution.
pub proof fn lemma_sectors_chain(
    inner: Ellipse,
    outer: Ellipse,
    parts: Seq<u64>,
    fills: Seq<Seq<char>>,
)
    requires
        parts.len() <= usize::MAX,
        total(parts) > 0,
        parts.len() != 1,
    ensures
        forall|i: int|
            0 < i < parts.len() ==> start_edge(
                #[trigger] chart_paths(inner, outer, parts, fills)[i],
            ) == end_edge(chart_paths(inner, outer, parts, fills)[i - 1]),
        start_edge(chart_paths(inner, outer, parts, fills)[0]) == boundary_at(
            inner,
            outer,
            Turn { num: 0, den: total(parts) as u128 },
        ),
        start_edge(chart_paths(inner, outer, parts, fills)[0]).outer.at.is_start(),
        end_edge(chart_paths(inner, outer, parts, fills)[parts.len() - 1]).outer.at.is_full(),
        end_edge(chart_paths(inner, outer, parts, fills)[parts.len() - 1]).inner.at.is_full(),
{
    lemma_turn_well_formed(parts, parts.len() as int);
    lemma_turn_well_formed(parts, 0);
}

/// Large arcs: a sector takes the longer arcs exactly when its weight is
/// more than half of the sum of all weights, on the outer boundary and on
/// the inner one alike.
pub proof fn lemma_large_arc_policy(
    inner: Ellipse,
    outer: Ellipse,
    parts: Seq<u64>,
    fills: Seq<Seq<char>>,
    i: int,
)
    requires
        parts.len() != 1,
        0 <= i < parts.len(),
    ensures
        chart_paths(inner, outer, parts, fills)[i].commands[2]->large_arc <==> 2 * parts[i]
            > total(parts),
        chart_paths(inner, outer, parts, fills)[i].commands[4]->large_arc <==> 2 * parts[i]
            > total(parts),
{
}

/// Idempotence: the edge at which a sector ends is fixed by the boundaries
/// of the chart, the angle at which the sector starts and its weight.
/// Charts with the same boundaries give the same edge, whatever their data.
pub proof fn lemma_boundary_is_fixed_by_its_inputs(
    first: PieChart,
    second: PieChart,
    sv: Turn,
    weight: Proportion,
)
    requires
        first.inner() == second.inner(),
        first.outer() == second.outer(),
    ensures
        boundary_at(first.inner(), first.outer(), sv.spec_advance(weight)) == boundary_at(
            second.inner(),
            second.outer(),
            sv.spec_advance(weight),
        ),
{
}

/// A chart of a single slice is the ring in the colour of that slice,
/// whatever the weight of the slice is.
pub proof fn lemma_single_slice_ignores_value(
    inner: Ellipse,
    outer: Ellipse,
    first: u64,
    second: u64,
    fill: Seq<char>,
)
    ensures
        chart_paths(inner, outer, seq![first], seq![fill]) == chart_paths(
            inner,
            outer,
            seq![second],
            seq![fill],
        ),
        chart_paths(inner, outer, seq![first], seq![fill]) == seq![ring_path(inner, outer, fill)],
{
}

} // verus!
