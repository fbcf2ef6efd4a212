//! The rules that decide which clusters are split into finer layers and
//! which are holes.

use crate::cluster::{NeighbourInfo, Patch};
use vstd::prelude::*;

verus! {

/// Whether a cluster of this area and boundary length may be deepened: its
/// area lies strictly between the two bounds, and it is not a thread, that
/// is, its boundary is shorter than its area. With a lower bound of 0 threads
/// pass.
pub open spec fn eligible(area: nat, boundary: nat, good_min_area: nat, good_max_area: nat) -> bool {
    &&& good_min_area < area < good_max_area
    &&& (good_min_area == 0 || boundary < area)
}

/// Whether an eligible cluster is deepened: the distance to its nearest
/// neighbour exceeds `deepen_diff`.
pub open spec fn deepens(
    area: nat,
    boundary: nat,
    nearest: int,
    good_min_area: nat,
    good_max_area: nat,
    deepen_diff: int,
) -> bool {
    eligible(area, boundary, good_min_area, good_max_area) && nearest > deepen_diff
}

/// Whether a cluster with so many distinct neighbours is a hole.
pub open spec fn hollow(neighbours: nat, hollow_neighbours: nat) -> bool {
    neighbours <= hollow_neighbours
}

/// Whether the boundary of the patch has to be traced to tell whether it is
/// eligible.
pub open spec fn needs_trace(area: nat, good_min_area: nat, good_max_area: nat) -> bool {
    good_min_area < area < good_max_area && good_min_area != 0
}

/// Tells whether a patch may be deepened. Its boundary is traced only
/// where the answer hangs on it.
pub fn patch_good(
    width: usize,
    patch: &Patch,
    good_min_area: usize,
    good_max_area: usize,
) -> (good: bool)
    requires
        needs_trace(patch.indices@.len(), good_min_area as nat, good_max_area as nat)
            ==> patch.fits(width),
    ensures
        good == eligible(
            patch.indices@.len(),
            patch.boundary(width).len(),
            good_min_area as nat,
            good_max_area as nat,
        ),
{
    if good_min_area < patch.area() && patch.area() < good_max_area {
        if good_min_area == 0 || patch.trace(width).len() < patch.area() {
            return true;
        }
    }
    false
}

/// What the deepening rule says of a patch and its neighbours, nearest
/// first. A patch without neighbours is not deepened, nor one whose boundary
/// is needed and cannot be traced.
pub open spec fn deepening(
    width: usize,
    patch: Patch,
    neighbours: Seq<NeighbourInfo>,
    good_min_area: usize,
    good_max_area: usize,
    deepen_diff: i32,
) -> bool {
    &&& neighbours.len() > 0
    &&& needs_trace(patch.indices@.len(), good_min_area as nat, good_max_area as nat)
        ==> patch.fits(width)
    &&& deepens(
        patch.indices@.len(),
        patch.boundary(width).len(),
        neighbours[0].diff as int,
        good_min_area as nat,
        good_max_area as nat,
        deepen_diff as int,
    )
}

/// Decides whether a patch is kept as a layer of its own when it is merged
/// into its nearest neighbour.
pub fn should_deepen(
    width: usize,
    patch: &Patch,
    neighbours: &[NeighbourInfo],
    good_min_area: usize,
    good_max_area: usize,
    deepen_diff: i32,
) -> (deepen: bool)
    ensures
        deepen == deepening(width, *patch, neighbours@, good_min_area, good_max_area, deepen_diff),
{
    if neighbours.len() == 0 {
        return false;
    }
    let area = patch.area();
    if good_min_area < area && area < good_max_area && good_min_area != 0 && !patch.is_fit(width) {
        return false;
    }
    patch_good(width, patch, good_min_area, good_max_area) && neighbours[0].diff > deepen_diff
}

/// Whether the neighbours are listed nearest first.
pub open spec fn nearest_first(neighbours: Seq<NeighbourInfo>) -> bool {
    forall|i: int, j: int|
        0 <= i <= j < neighbours.len() ==> (#[trigger] neighbours[i]).diff <= (#[trigger] neighbours[j]).diff
}

/// Where the neighbours are listed nearest first, a patch that is deepened
/// has no neighbour within `deepen_diff`.
pub proof fn deepened_patch_has_no_near_neighbour<'a>(
    width: usize,
    patch: Patch<'a>,
    neighbours: Seq<NeighbourInfo>,
    good_min_area: usize,
    good_max_area: usize,
    deepen_diff: i32,
)
    requires
        nearest_first(neighbours),
        deepening(width, patch, neighbours, good_min_area, good_max_area, deepen_diff),
    ensures
        forall|j: int| 0 <= j < neighbours.len() ==> (#[trigger] neighbours[j]).diff > deepen_diff,
{
    assert forall|j: int| 0 <= j < neighbours.len() implies (#[trigger] neighbours[j]).diff
        > deepen_diff by {
        assert(neighbours[0].diff <= neighbours[j].diff);
    }
}

/// Decides whether a cluster with `neighbours` distinct neighbours is a
/// hole.
pub fn is_hollow(neighbours: usize, hollow_neighbours: usize) -> (h: bool)
    ensures
        h == hollow(neighbours as nat, hollow_neighbours as nat),
{
    neighbours <= hollow_neighbours
}

/// The number of clusters, each given with its neighbours, that the
/// deepening rule keeps as layers of their own.
pub open spec fn deepened_count<'a>(
    width: usize,
    clusters: Seq<(Patch<'a>, Seq<NeighbourInfo>)>,
    good_min_area: usize,
    good_max_area: usize,
    deepen_diff: i32,
) -> nat
    decreases clusters.len(),
{
    if clusters.len() == 0 {
        0
    } else {
        let rest = deepened_count(
            width,
            clusters.drop_last(),
            good_min_area,
            good_max_area,
            deepen_diff,
        );
        let last = clusters.last();
        if deepening(width, last.0, last.1, good_min_area, good_max_area, deepen_diff) {
            rest + 1
        } else {
            rest
        }
    }
}

/// Raising `deepen_diff` deepens no cluster that was not deepened before:
/// what is deepened under the higher value is deepened under the lower one.
pub proof fn deepening_is_monotonic<'a>(
    width: usize,
    patch: Patch<'a>,
    neighbours: Seq<NeighbourInfo>,
    good_min_area: usize,
    good_max_area: usize,
    lower: i32,
    higher: i32,
)
    requires
        lower <= higher,
        deepening(width, patch, neighbours, good_min_area, good_max_area, higher),
    ensures
        deepening(width, patch, neighbours, good_min_area, good_max_area, lower),
{
}

/// Raising `deepen_diff`, with all else as it was, never raises the number
/// of deepened clusters.
pub proof fn raising_deepen_diff_deepens_no_more<'a>(
    width: usize,
    clusters: Seq<(Patch<'a>, Seq<NeighbourInfo>)>,
    good_min_area: usize,
    good_max_area: usize,
    lower: i32,
    higher: i32,
)
    requires
        lower <= higher,
    ensures
        deepened_count(width, clusters, good_min_area, good_max_area, higher) <= deepened_count(
            width,
            clusters,
            good_min_area,
            good_max_area,
            lower,
        ),
    decreases clusters.len(),
{
    if clusters.len() > 0 {
        raising_deepen_diff_deepens_no_more(
            width,
            clusters.drop_last(),
            good_min_area,
            good_max_area,
            lower,
            higher,
        );
    }
}

/// A cluster whose area equals one of the two bounds is not eligible, and
/// so is not deepened: the bounds are strict.
pub proof fn area_at_a_bound_is_not_eligible<'a>(
    width: usize,
    patch: Patch<'a>,
    neighbours: Seq<NeighbourInfo>,
    good_min_area: usize,
    good_max_area: usize,
    deepen_diff: i32,
)
    requires
        patch.indices@.len() == good_min_area || patch.indices@.len() == good_max_area,
    ensures
        !eligible(
            patch.indices@.len(),
            patch.boundary(width).len(),
            good_min_area as nat,
            good_max_area as nat,
        ),
        !deepening(width, patch, neighbours, good_min_area, good_max_area, deepen_diff),
{
}

/// A cluster whose boundary is as long as its area is not deepened where
/// the lower bound is above 0.
pub proof fn thread_is_not_deepened<'a>(
    width: usize,
    patch: Patch<'a>,
    neighbours: Seq<NeighbourInfo>,
    good_min_area: usize,
    good_max_area: usize,
    deepen_diff: i32,
)
    requires
        patch.boundary(width).len() == patch.indices@.len(),
        good_min_area > 0,
    ensures
        !eligible(
            patch.indices@.len(),
            patch.boundary(width).len(),
            good_min_area as nat,
            good_max_area as nat,
        ),
        !deepening(width, patch, neighbours, good_min_area, good_max_area, deepen_diff),
{
}

/// A cluster with exactly `hollow_neighbours` neighbours is a hole, and one
/// with one neighbour more is none.
pub proof fn hollow_turns_at_the_limit(hollow_neighbours: nat)
    ensures
        hollow(hollow_neighbours, hollow_neighbours),
        !hollow(hollow_neighbours + 1, hollow_neighbours),
{
}

} // verus!
