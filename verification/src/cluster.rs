//! A cluster as the deepening and hollow rules see it: its pixels, its holes,
//! its bounding rectangle, and its neighbours.

use vstd::prelude::*;

verus! {

/// A rectangle of pixels: `left` and `top` are inside, `right` and `bottom`
/// are just outside.
#[derive(Clone, Copy, Debug, PartialEq, Eq, Structural)]
pub struct BoundingRect {
    pub left: i32,
    pub top: i32,
    pub right: i32,
    pub bottom: i32,
}

/// One adjacency of a cluster: the index of a cluster that touches it, and
/// the distance between the colours of the two.
#[derive(Clone, Copy, Debug, PartialEq, Eq, Structural)]
pub struct NeighbourInfo {
    pub index: u32,
    pub diff: i32,
}

/// The pixels of one cluster. A pixel is named by its index in the image,
/// row by row from the top left.
#[derive(Clone, Copy, Debug)]
pub struct Patch<'a> {
    /// The pixels of the cluster.
    pub indices: &'a [u32],
    /// The pixels of the clusters that lie in it as holes.
    pub holes: &'a [u32],
    /// The rectangle that bounds the pixels.
    pub rect: BoundingRect,
}

/// The boundary of a cluster in an image `width` pixels wide, as column and
/// row within the bounding rectangle: the pixels of the cluster that are no
/// hole and have, among their four edge neighbours, one that is a hole or
/// not of the cluster.
pub uninterp spec fn traced_boundary(
    indices: Seq<u32>,
    holes: Seq<u32>,
    rect: BoundingRect,
    width: int,
) -> Seq<(i32, i32)>;

/// Traces the boundary of a patch: `Cluster::to_image_with_hole` of
/// visioncortex draws the pixels into a bitmap of the size of the bounding
/// rectangle and clears the holes, and `Shape::image_boundary_list` lists the
/// set pixels of that bitmap that have an unset pixel, or the edge of the
/// bitmap, beside them. Both index the bitmap without a check, which is why
/// the rectangle must hold every pixel. The list depends on the patch and the
/// width alone.
#[verifier::external_body]
fn trace_boundary(patch: &Patch, width: usize) -> (points: Vec<(i32, i32)>)
    requires
        patch.fits(width),
    ensures
        points@ == traced_boundary(patch.indices@, patch.holes@, patch.rect, width as int),
{
    let rect = visioncortex::BoundingRect {
        left: patch.rect.left,
        top: patch.rect.top,
        right: patch.rect.right,
        bottom: patch.rect.bottom,
    };
    let cluster = visioncortex::color_clusters::Cluster {
        indices: patch.indices.to_vec(),
        holes: patch.holes.to_vec(),
        rect,
        ..Default::default()
    };
    let image = cluster.to_image_with_hole(width as u32, true);
    visioncortex::Shape::image_boundary_list(&image).iter().map(|p| (p.x, p.y)).collect()
}

impl BoundingRect {
    /// Whether the rectangle holds pixel `i` of an image `width` pixels wide.
    pub open spec fn holds(&self, i: u32, width: int) -> bool {
        &&& i <= i32::MAX
        &&& self.left <= i as int % width < self.right
        &&& self.top <= i as int / width < self.bottom
    }

    /// Whether the rectangle lies in the quadrant of the image and its area
    /// can be counted.
    pub open spec fn proper(&self) -> bool {
        &&& 0 <= self.left <= self.right
        &&& 0 <= self.top <= self.bottom
        &&& (self.right - self.left) * (self.bottom - self.top) <= usize::MAX
    }

    /// Tells whether the rectangle is proper.
    pub fn is_proper(&self) -> (ok: bool)
        ensures
            ok == self.proper(),
    {
        if self.left < 0 || self.left > self.right || self.top < 0 || self.top > self.bottom {
            return false;
        }
        let w: u64 = (self.right - self.left) as u64;
        let h: u64 = (self.bottom - self.top) as u64;
        assert(w * h <= 0x7fff_ffff * 0x7fff_ffff) by (nonlinear_arith)
            requires
                w <= 0x7fff_ffff,
                h <= 0x7fff_ffff,
        ;
        w * h <= usize::MAX as u64
    }

    /// Tells whether the rectangle holds pixel `i` of an image `width`
    /// pixels wide.
    pub fn has(&self, i: u32, width: usize) -> (ok: bool)
        requires
            0 < width <= i32::MAX,
        ensures
            ok == self.holds(i, width as int),
    {
        if i > 0x7fff_ffff {
            return false;
        }
        let x: i32 = (i as usize % width) as i32;
        let y: i32 = (i as usize / width) as i32;
        self.left <= x && x < self.right && self.top <= y && y < self.bottom
    }

    /// Tells whether the rectangle holds every pixel of a list.
    pub fn has_all(&self, pixels: &[u32], width: usize) -> (ok: bool)
        requires
            0 < width <= i32::MAX,
        ensures
            ok == (forall|j: int|
                0 <= j < pixels@.len() ==> self.holds(#[trigger] pixels@[j], width as int)),
    {
        let mut j: usize = 0;
        while j < pixels.len()
            invariant
                0 < width <= i32::MAX,
                j <= pixels@.len(),
                forall|k: int| 0 <= k < j ==> self.holds(#[trigger] pixels@[k], width as int),
            decreases pixels@.len() - j,
        {
            if !self.has(pixels[j], width) {
                return false;
            }
            j += 1;
        }
        true
    }
}

impl<'a> Patch<'a> {
    /// Whether the bounding rectangle holds every pixel and every hole, so
    /// that the boundary can be traced.
    pub open spec fn fits(&self, width: usize) -> bool {
        &&& 0 < width <= i32::MAX
        &&& self.rect.proper()
        &&& forall|j: int|
            0 <= j < self.indices@.len() ==> self.rect.holds(#[trigger] self.indices@[j], width as int)
        &&& forall|j: int|
            0 <= j < self.holes@.len() ==> self.rect.holds(#[trigger] self.holes@[j], width as int)
    }

    /// The boundary of the cluster in an image `width` pixels wide.
    pub open spec fn boundary(&self, width: usize) -> Seq<(i32, i32)> {
        traced_boundary(self.indices@, self.holes@, self.rect, width as int)
    }

    /// Tells whether the boundary can be traced.
    pub fn is_fit(&self, width: usize) -> (ok: bool)
        ensures
            ok == self.fits(width),
    {
        if width == 0 || width > 0x7fff_ffff {
            return false;
        }
        self.rect.is_proper() && self.rect.has_all(self.indices, width)
            && self.rect.has_all(self.holes, width)
    }

    /// The boundary pixels of the cluster, row by row.
    pub fn trace(&self, width: usize) -> (points: Vec<(i32, i32)>)
        requires
            self.fits(width),
        ensures
            points@ == self.boundary(width),
    {
        trace_boundary(self, width)
    }

    /// The number of pixels of the cluster.
    pub fn area(&self) -> (n: usize)
        ensures
            n == self.indices@.len(),
    {
        self.indices.len()
    }
}

} // verus!
