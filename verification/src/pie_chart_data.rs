//! The data of a chart and its normalisation into shares of a revolution.

use vstd::prelude::*;
use crate::angle::Proportion;
use crate::error::DegenerateInputError;

verus! {

/// One slice as the caller gives it: a weight and the colour to fill it with.
#[derive(Clone, Debug, PartialEq, Eq)]
pub struct PieChartData {
    pub data: u64,
    pub color: String,
}

/// One slice after normalisation: its share of the revolution and its colour.
#[derive(Clone, Debug, PartialEq, Eq)]
pub struct Slice {
    pub weight: Proportion,
    pub color: String,
}

/// The sum of the first `n` values.
pub open spec fn sum_upto(values: Seq<u64>, n: int) -> nat
    decreases n,
{
    if n <= 0 {
        0
    } else {
        sum_upto(values, n - 1) + values[n - 1] as nat
    }
}

/// The sum of all values.
pub open spec fn total(values: Seq<u64>) -> nat {
    sum_upto(values, values.len() as int)
}

/// The weights of the data points, in order.
pub open spec fn values_of(data: Seq<PieChartData>) -> Seq<u64> {
    Seq::new(data.len(), |i: int| data[i].data)
}

/// The colours of the data points, in order.
pub open spec fn fills_of(data: Seq<PieChartData>) -> Seq<Seq<char>> {
    Seq::new(data.len(), |i: int| data[i].color@)
}

/// The numerators of the shares, in order.
pub open spec fn parts_of(slices: Seq<Slice>) -> Seq<u64> {
    Seq::new(slices.len(), |i: int| slices[i].weight.part)
}

/// The colours of the slices, in order.
pub open spec fn slice_fills(slices: Seq<Slice>) -> Seq<Seq<char>> {
    Seq::new(slices.len(), |i: int| slices[i].color@)
}

/// The shares are taken of one common whole, which is their sum and is not
/// zero: together they make up exactly one revolution.
pub open spec fn normalized(slices: Seq<Slice>) -> bool {
    &&& slices.len() > 0
    &&& total(parts_of(slices)) > 0
    &&& forall|i: int|
        0 <= i < slices.len() ==> (#[trigger] slices[i]).weight.whole == total(parts_of(slices))
}

/// `slices` is `data` with every weight turned into its share of the sum of
/// all weights, colours and order kept.
pub open spec fn proportions_of(data: Seq<PieChartData>, slices: Seq<Slice>) -> bool {
    &&& slices.len() == data.len()
    &&& forall|i: int|
        0 <= i < data.len() ==> {
            &&& (#[trigger] slices[i]).weight.part == data[i].data
            &&& slices[i].weight.whole == total(values_of(data))
            &&& slices[i].color@ == data[i].color@
        }
}

/// A sum of `n` values is at most `n` times the largest value there is.
pub proof fn lemma_sum_bound(values: Seq<u64>, n: int)
    requires
        0 <= n <= values.len(),
    ensures
        sum_upto(values, n) <= n * u64::MAX,
    decreases n,
{
    if n > 0 {
        lemma_sum_bound(values, n - 1);
    }
}

/// A longer prefix has the larger sum.
pub proof fn lemma_sum_monotone(values: Seq<u64>, i: int, j: int)
    requires
        0 <= i <= j <= values.len(),
    ensures
        sum_upto(values, i) <= sum_upto(values, j),
    decreases j,
{
    if i < j {
        lemma_sum_monotone(values, i, j - 1);
    }
}

/// The sum of as many values as a vector can hold fits in 128 bits.
pub proof fn lemma_total_fits(values: Seq<u64>, n: int)
    requires
        0 <= n <= values.len() <= usize::MAX,
    ensures
        sum_upto(values, n) <= u128::MAX,
{
    lemma_sum_bound(values, n);
    assert(n * u64::MAX <= 0xffff_ffff_ffff_ffff * 0xffff_ffff_ffff_ffff) by (nonlinear_arith)
        requires
            0 <= n <= 0xffff_ffff_ffff_ffff,
            u64::MAX == 0xffff_ffff_ffff_ffff,
    ;
}

/// Adds up the weights of all data points.
pub fn total_value(data: &[PieChartData]) -> (sum: u128)
    ensures
        sum == total(values_of(data@)),
{
    let ghost values = values_of(data@);
    let mut sum: u128 = 0;
    let mut i: usize = 0;
    while i < data.len()
        invariant
            0 <= i <= data.len(),
            values == values_of(data@),
            sum == sum_upto(values, i as int),
        decreases data.len() - i,
    {
        proof {
            lemma_total_fits(values, i + 1);
        }
        let value: u128 = data[i].data as u128;
        sum = sum + value;
        i = i + 1;
    }
    sum
}

/// Turns every weight into its share of the sum of all weights.
///
/// Fails exactly when that sum is zero, which includes the case of no data
/// at all. The data is left as it is: the shares are returned in a sequence
/// of their own, in the order of the data.
pub fn compute_proportions(data: &[PieChartData]) -> (r: Result<Vec<Slice>, DegenerateInputError>)
    ensures
        r is Err <==> total(values_of(data@)) == 0,
        r matches Ok(slices) ==> proportions_of(data@, slices@) && normalized(slices@),
{
    let whole: u128 = total_value(data);
    if whole == 0 {
        return Err(DegenerateInputError {});
    }
    let mut slices: Vec<Slice> = Vec::new();
    let mut i: usize = 0;
    while i < data.len()
        invariant
            0 <= i <= data.len(),
            whole == total(values_of(data@)),
            slices.len() == i,
            forall|k: int|
                0 <= k < i ==> {
                    &&& (#[trigger] slices[k]).weight.part == data[k].data
                    &&& slices[k].weight.whole == whole
                    &&& slices[k].color@ == data[k].color@
                },
        decreases data.len() - i,
    {
        let point = &data[i];
        slices.push(Slice {
            weight: Proportion { part: point.data, whole },
            color: point.color.clone(),
        });
        i = i + 1;
    }
    proof {
        assert(parts_of(slices@) =~= values_of(data@));
    }
    Ok(slices)
}

} // verus!
