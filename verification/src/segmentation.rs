//! The clusters that the engine made of an image, as plain values, and the
//! test that they partition the pixels.

use crate::cluster::BoundingRect;
use crate::engine::{clusters_contents, contents};
use visioncortex::color_clusters::Clusters;
use vstd::prelude::*;

verus! {

/// One cluster of a segmentation.
#[derive(Clone, Debug)]
pub struct Region {
    /// The pixels of the cluster.
    pub indices: Vec<u32>,
    /// The pixels of the clusters that lie in it as holes.
    pub holes: Vec<u32>,
    /// The number of clusters that lie in it as holes.
    pub num_holes: u32,
    /// The number of layers that were merged into the cluster.
    pub depth: u32,
    /// The rectangle that bounds the pixels.
    pub rect: BoundingRect,
    /// The cluster that this one was merged into; 0 for none.
    pub merged_into: u32,
}

/// The clusters of an image. A pixel is named by its index in the image, row
/// by row from the top left; a cluster by its index in `clusters`, where
/// index 0 is reserved and stands for no cluster.
#[derive(Clone, Debug)]
pub struct Segmentation {
    pub width: u32,
    pub height: u32,
    /// For each pixel, the cluster that owns it; 0 for a keyed pixel.
    pub owners: Vec<u32>,
    pub clusters: Vec<Region>,
    /// The clusters that make up the result, in the order in which they were
    /// finished.
    pub output: Vec<u32>,
}

impl Segmentation {
    /// Whether cluster `k` lists pixel `i` at place `j`.
    pub open spec fn lists_at(&self, k: int, j: int, i: int) -> bool {
        &&& 1 <= k < self.clusters@.len()
        &&& 0 <= j < self.clusters@[k].indices@.len()
        &&& self.clusters@[k].indices@[j] == i
    }

    /// Whether cluster `k` lists pixel `i`.
    pub open spec fn lists(&self, k: int, i: int) -> bool {
        exists|j: int| self.lists_at(k, j, i)
    }

    /// Whether pixel `i` is keyed: no cluster owns it.
    pub open spec fn keyed(&self, i: int) -> bool {
        self.owners@[i] == 0
    }

    /// Whether what a cluster lists is a pixel that it owns.
    pub open spec fn lists_own_pixels(&self) -> bool {
        forall|k: int, j: int|
            1 <= k < self.clusters@.len() && 0 <= j < self.clusters@[k].indices@.len() ==> {
                let i = #[trigger] self.clusters@[k].indices@[j];
                i < self.owners@.len() && self.owners@[i as int] == k
            }
    }

    /// Whether no cluster lists a pixel twice.
    pub open spec fn lists_once(&self) -> bool {
        forall|k: int, j: int, l: int|
            1 <= k < self.clusters@.len() && 0 <= j < l < self.clusters@[k].indices@.len()
                ==> #[trigger] self.clusters@[k].indices@[j] != #[trigger] self.clusters@[k].indices@[l]
    }

    /// Whether every pixel that is not keyed is listed by its owner.
    pub open spec fn owners_list_pixels(&self) -> bool {
        forall|i: int|
            0 <= i < self.owners@.len() && !self.keyed(i) ==> self.lists(
                #[trigger] self.owners@[i] as int,
                i,
            )
    }

    /// Whether the clusters partition the pixels that are not keyed.
    pub open spec fn is_partition(&self) -> bool {
        &&& self.lists_own_pixels()
        &&& self.lists_once()
        &&& self.owners_list_pixels()
    }

    /// Whether place `p` of cluster `c` comes before place `j` of cluster
    /// `k`, going through the clusters in order and through each from its
    /// first place.
    spec fn before(c: int, p: int, k: int, j: int) -> bool {
        c < k || (c == k && p < j)
    }

    /// Whether pixel `i` is listed at a place before place `j` of cluster
    /// `k`.
    spec fn marked(&self, k: int, j: int, i: int) -> bool {
        exists|c: int, p: int| #[trigger] self.lists_at(c, p, i) && Self::before(c, p, k, j)
    }

    /// Whether the places before place `j` of cluster `k` list pixels that
    /// their clusters own, each pixel once.
    spec fn sound_before(&self, k: int, j: int) -> bool {
        &&& forall|c: int, p: int, i: int| #[trigger]
            self.lists_at(c, p, i) && Self::before(c, p, k, j) ==> 0 <= i < self.owners@.len()
                && self.owners@[i] == c
        &&& forall|c: int, p: int, q: int, i: int|
            #[trigger] self.lists_at(c, p, i) && #[trigger] self.lists_at(c, q, i) && p < q
                && Self::before(c, q, k, j) ==> false
    }

    /// The clusters that the engine made, as plain values.
    pub fn of(clusters: &Clusters) -> (segmentation: Segmentation)
        ensures
            segmentation == contents(*clusters),
    {
        clusters_contents(clusters)
    }

    /// Tells whether the clusters partition the pixels that are not keyed.
    pub fn check_partition(&self) -> (ok: bool)
        ensures
            ok == self.is_partition(),
    {
        let n = self.owners.len();
        let mut seen: Vec<bool> = Vec::new();
        while seen.len() < n
            invariant
                seen@.len() <= n,
                forall|i: int| 0 <= i < seen@.len() ==> !seen@[i],
            decreases n - seen@.len(),
        {
            seen.push(false);
        }
        let mut k: usize = 1;
        while k < self.clusters.len()
            invariant
                n == self.owners@.len(),
                seen@.len() == n,
                k >= 1,
                self.sound_before(k as int, 0),
                forall|i: int| 0 <= i < n ==> seen@[i] == self.marked(k as int, 0, i),
            decreases self.clusters@.len() - k,
        {
            let region = &self.clusters[k];
            let mut j: usize = 0;
            while j < region.indices.len()
                invariant
                    n == self.owners@.len(),
                    seen@.len() == n,
                    1 <= k < self.clusters@.len(),
                    *region == self.clusters@[k as int],
                    j <= region.indices@.len(),
                    self.sound_before(k as int, j as int),
                    forall|i: int| 0 <= i < n ==> seen@[i] == self.marked(k as int, j as int, i),
                decreases region.indices@.len() - j,
            {
                let i = region.indices[j] as usize;
                assert(self.lists_at(k as int, j as int, i as int));
                if i >= n || self.owners[i] as usize != k {
                    assert(!self.lists_own_pixels());
                    return false;
                }
                if seen[i] {
                    proof {
                        let (c, p) = choose|c: int, p: int| #[trigger]
                            self.lists_at(c, p, i as int) && Self::before(c, p, k as int, j as int);
                        assert(c == k);
                        assert(!self.lists_once());
                    }
                    return false;
                }
                seen.set(i, true);
                proof {
                    assert forall|t: int| 0 <= t < n implies seen@[t] == self.marked(
                        k as int,
                        j + 1,
                        t,
                    ) by {
                        if t == i {
                            assert(Self::before(k as int, j as int, k as int, j + 1));
                        } else if self.marked(k as int, j + 1, t) {
                            let (c, p) = choose|c: int, p: int| #[trigger]
                                self.lists_at(c, p, t) && Self::before(c, p, k as int, j + 1);
                            assert(Self::before(c, p, k as int, j as int));
                        } else if self.marked(k as int, j as int, t) {
                            let (c, p) = choose|c: int, p: int| #[trigger]
                                self.lists_at(c, p, t) && Self::before(c, p, k as int, j as int);
                            assert(Self::before(c, p, k as int, j + 1));
                        }
                    }
                    assert(self.sound_before(k as int, j + 1)) by {
                        assert forall|c: int, p: int, q: int, t: int|
                            #[trigger] self.lists_at(c, p, t) && #[trigger] self.lists_at(c, q, t)
                                && p < q && Self::before(c, q, k as int, j + 1) implies false by {
                            if c == k && q == j {
                                assert(Self::before(c, p, k as int, j as int));
                                assert(self.marked(k as int, j as int, t));
                            }
                        }
                    }
                }
                j += 1;
            }
            proof {
                assert forall|t: int| 0 <= t < n implies seen@[t] == self.marked(k + 1, 0, t) by {
                    if self.marked(k + 1, 0, t) {
                        let (c, p) = choose|c: int, p: int| #[trigger]
                            self.lists_at(c, p, t) && Self::before(c, p, k + 1, 0);
                        assert(Self::before(c, p, k as int, j as int));
                    } else if self.marked(k as int, j as int, t) {
                        let (c, p) = choose|c: int, p: int| #[trigger]
                            self.lists_at(c, p, t) && Self::before(c, p, k as int, j as int);
                        assert(Self::before(c, p, k + 1, 0));
                    }
                }
                assert(self.sound_before(k + 1, 0)) by {
                    assert forall|c: int, p: int, t: int| #[trigger]
                        self.lists_at(c, p, t) && Self::before(c, p, k + 1, 0) implies 0 <= t
                        < self.owners@.len() && self.owners@[t] == c by {
                        assert(Self::before(c, p, k as int, j as int));
                    }
                    assert forall|c: int, p: int, q: int, t: int|
                        #[trigger] self.lists_at(c, p, t) && #[trigger] self.lists_at(c, q, t) && p
                            < q && Self::before(c, q, k + 1, 0) implies false by {
                        assert(Self::before(c, q, k as int, j as int));
                    }
                }
            }
            k += 1;
        }
        proof {
            assert(self.lists_own_pixels()) by {
                assert forall|c: int, p: int|
                    1 <= c < self.clusters@.len() && 0 <= p < self.clusters@[c].indices@.len() implies {
                    let i = #[trigger] self.clusters@[c].indices@[p];
                    i < self.owners@.len() && self.owners@[i as int] == c
                } by {
                    let i = self.clusters@[c].indices@[p];
                    assert(self.lists_at(c, p, i as int));
                    assert(Self::before(c, p, k as int, 0));
                }
            }
            assert(self.lists_once()) by {
                assert forall|c: int, p: int, q: int|
                    1 <= c < self.clusters@.len() && 0 <= p < q < self.clusters@[c].indices@.len() implies #[trigger]
                    self.clusters@[c].indices@[p] != #[trigger] self.clusters@[c].indices@[q] by {
                    let i = self.clusters@[c].indices@[p];
                    if i == self.clusters@[c].indices@[q] {
                        assert(self.lists_at(c, p, i as int));
                        assert(self.lists_at(c, q, i as int));
                        assert(Self::before(c, q, k as int, 0));
                    }
                }
            }
        }
        let mut i: usize = 0;
        while i < n
            invariant
                n == self.owners@.len(),
                seen@.len() == n,
                i <= n,
                k >= self.clusters@.len(),
                forall|t: int| 0 <= t < n ==> seen@[t] == self.marked(k as int, 0, t),
                forall|t: int| 0 <= t < i && !self.keyed(t) ==> seen@[t],
            decreases n - i,
        {
            if self.owners[i] != 0 && !seen[i] {
                proof {
                    if self.lists(self.owners@[i as int] as int, i as int) {
                        let p = choose|p: int| self.lists_at(self.owners@[i as int] as int, p, i as int);
                        assert(Self::before(self.owners@[i as int] as int, p, k as int, 0));
                        assert(self.marked(k as int, 0, i as int));
                    }
                    assert(!self.keyed(i as int));
                    assert(!self.owners_list_pixels());
                }
                return false;
            }
            i += 1;
        }
        proof {
            assert forall|t: int| 0 <= t < self.owners@.len() && !self.keyed(t) implies self.lists(
                #[trigger] self.owners@[t] as int,
                t,
            ) by {
                assert(self.marked(k as int, 0, t));
                let (c, p) = choose|c: int, p: int| #[trigger]
                    self.lists_at(c, p, t) && Self::before(c, p, k as int, 0);
                assert(self.lists_at(self.owners@[t] as int, p, t));
            }
        }
        true
    }
}

/// In a partition a pixel that is not keyed belongs to exactly one cluster:
/// its owner lists it, and no other cluster does.
pub proof fn pixel_belongs_to_one_cluster(segmentation: Segmentation, i: int)
    requires
        segmentation.is_partition(),
        0 <= i < segmentation.owners@.len(),
        !segmentation.keyed(i),
    ensures
        segmentation.lists(segmentation.owners@[i] as int, i),
        forall|k: int| segmentation.lists(k, i) ==> k == segmentation.owners@[i],
{
    assert forall|k: int| segmentation.lists(k, i) implies k == segmentation.owners@[i] by {
        let j = choose|j: int| segmentation.lists_at(k, j, i);
        assert(segmentation.clusters@[k].indices@[j] == i);
    }
}

/// In a partition no two clusters list the same pixel.
pub proof fn clusters_are_disjoint(segmentation: Segmentation, first: int, second: int, i: int)
    requires
        segmentation.is_partition(),
        segmentation.lists(first, i),
        segmentation.lists(second, i),
    ensures
        first == second,
{
    let j = choose|j: int| segmentation.lists_at(first, j, i);
    let l = choose|l: int| segmentation.lists_at(second, l, i);
    assert(segmentation.clusters@[first].indices@[j] == i);
    assert(segmentation.clusters@[second].indices@[l] == i);
}

/// In a partition the clusters list, between them, the pixels that are not
/// keyed and nothing else.
pub proof fn clusters_cover_the_pixels_not_keyed(segmentation: Segmentation, i: int)
    requires
        segmentation.is_partition(),
    ensures
        (exists|k: int| segmentation.lists(k, i)) <==> (0 <= i < segmentation.owners@.len()
            && !segmentation.keyed(i)),
{
    if exists|k: int| segmentation.lists(k, i) {
        let k = choose|k: int| segmentation.lists(k, i);
        let j = choose|j: int| segmentation.lists_at(k, j, i);
        assert(segmentation.clusters@[k].indices@[j] == i);
    }
    if 0 <= i < segmentation.owners@.len() && !segmentation.keyed(i) {
        assert(segmentation.lists(segmentation.owners@[i] as int, i));
    }
}

} // verus!
