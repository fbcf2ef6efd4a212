//! The clustering engine of visioncortex, as far as a job drives it.
//!
//! The engine is not verified. Each function here stands for one of its
//! functions and says what that function is relied on to do.

use crate::cluster::{BoundingRect, NeighbourInfo, Patch};
use crate::color::{color_diff, color_same, Color};
use crate::image::{ColorImage, Raster};
use crate::keying::KeyingAction;
use crate::rules::{is_hollow, should_deepen};
use crate::segmentation::{Region, Segmentation};
use visioncortex::color_clusters::NeighbourInfo as Neighbour;
use visioncortex::color_clusters::{Builder, BuilderImpl, Cluster, Clusters, IncrementalBuilder};
use vstd::prelude::*;

verus! {

#[verifier::external_type_specification]
#[verifier::external_body]
pub struct ExBuilder(visioncortex::color_clusters::Builder);

#[verifier::external_type_specification]
#[verifier::external_body]
pub struct ExIncrementalBuilder(visioncortex::color_clusters::IncrementalBuilder);

#[verifier::external_type_specification]
#[verifier::external_body]
pub struct ExClusters(visioncortex::color_clusters::Clusters);

/// The rule by which two colours count as the same.
pub struct SameRule {
    pub shift: i32,
    pub threshold: i32,
}

/// The rule by which a cluster is kept as a layer of its own.
pub struct DeepenRule {
    pub width: usize,
    pub good_min_area: usize,
    pub good_max_area: usize,
    pub deepen_diff: i32,
}

/// What a builder has been given: the image, the settings, and the four
/// rules.
pub struct Plan {
    pub image: Option<Raster>,
    pub diagonal: bool,
    pub hierarchical: u32,
    pub batch_size: u32,
    pub key: Color,
    pub keying_action: KeyingAction,
    pub same: Option<SameRule>,
    pub diff: bool,
    pub deepen: Option<DeepenRule>,
    pub hollow: Option<usize>,
}

impl Plan {
    /// Whether the image and the four rules are there.
    pub open spec fn complete(self) -> bool {
        &&& self.image is Some
        &&& self.same is Some
        &&& self.diff
        &&& self.deepen is Some
        &&& self.hollow is Some
    }

    /// Whether the engine can run the plan to its end.
    ///
    /// The image holds four bytes for each pixel, and so few pixels that the
    /// sum of a channel over all of them fits 32 bits. A batch is not empty.
    /// Adjacency is by edges: with diagonal adjacency the first pass can,
    /// on some images, hand a pixel to a cluster that was merged away, and
    /// the second pass then fails when it averages a cluster without pixels.
    pub open spec fn runnable(self) -> bool {
        &&& self.complete()
        &&& self.image->0.wf()
        &&& self.image->0.len() * 255 <= u32::MAX
        &&& self.batch_size != 0
        &&& !self.diagonal
    }
}

/// What a builder holds.
pub uninterp spec fn plan_of(builder: Builder) -> Plan;

/// What a started job was given.
pub uninterp spec fn job_of(handle: IncrementalBuilder) -> Plan;

/// The clusters that the engine makes of a plan.
pub uninterp spec fn clustering(plan: Plan) -> Segmentation;

/// What a set of clusters holds.
pub uninterp spec fn contents(clusters: Clusters) -> Segmentation;

/// `Clusters::view` lends out the size of the image, the owner of each
/// pixel, the clusters, and the order of the result; this copies them, each
/// index as a plain number.
#[verifier::external_body]
pub(crate) fn clusters_contents(clusters: &Clusters) -> (segmentation: Segmentation)
    ensures
        segmentation == contents(*clusters),
{
    let view = clusters.view();
    let region = |c: &Cluster| Region {
        indices: c.indices.clone(),
        holes: c.holes.clone(),
        num_holes: c.num_holes,
        depth: c.depth,
        rect: BoundingRect { left: c.rect.left, top: c.rect.top, right: c.rect.right, bottom: c.rect.bottom },
        merged_into: c.merged_into.0,
    };
    let owners = view.cluster_indices.iter().map(|i| i.0).collect();
    let output = view.clusters_output.iter().map(|i| i.0).collect();
    let clusters = view.clusters.iter().map(region).collect();
    Segmentation { width: view.width, height: view.height, owners, clusters, output }
}

/// `Builder::new`: a builder with nothing set that a job relies on.
#[verifier::external_body]
pub(crate) fn builder_new() -> (b: Builder) {
    Builder::new()
}

/// `Builder::from` stores the image and leaves the rest as it is.
#[verifier::external_body]
pub(crate) fn builder_from(builder: Builder, image: ColorImage) -> (b: Builder)
    ensures
        plan_of(b) == (Plan { image: Some(image@), ..plan_of(builder) }),
{
    let ColorImage { pixels, width, height } = image;
    builder.from(visioncortex::ColorImage { pixels, width, height })
}

/// `Builder::diagonal` stores the flag and leaves the rest as it is.
#[verifier::external_body]
pub(crate) fn builder_diagonal(builder: Builder, diagonal: bool) -> (b: Builder)
    ensures
        plan_of(b) == (Plan { diagonal, ..plan_of(builder) }),
{
    builder.diagonal(diagonal)
}

/// `Builder::hierarchical` stores the limit and leaves the rest as it is.
#[verifier::external_body]
pub(crate) fn builder_hierarchical(builder: Builder, hierarchical: u32) -> (b: Builder)
    ensures
        plan_of(b) == (Plan { hierarchical, ..plan_of(builder) }),
{
    builder.hierarchical(hierarchical)
}

/// `Builder::key` stores the key colour and leaves the rest as it is.
#[verifier::external_body]
pub(crate) fn builder_key(builder: Builder, key: Color) -> (b: Builder)
    ensures
        plan_of(b) == (Plan { key, ..plan_of(builder) }),
{
    builder.key(visioncortex::Color { r: key.r, g: key.g, b: key.b, a: key.a })
}

/// `Builder::keying_action` stores the action and leaves the rest as it is.
#[verifier::external_body]
pub(crate) fn builder_keying_action(builder: Builder, keying_action: KeyingAction) -> (b: Builder)
    ensures
        plan_of(b) == (Plan { keying_action, ..plan_of(builder) }),
{
    builder.keying_action(match keying_action {
        KeyingAction::Keep => visioncortex::color_clusters::KeyingAction::Keep,
        KeyingAction::Discard => visioncortex::color_clusters::KeyingAction::Discard,
    })
}

/// `Builder::batch_size` stores the size and leaves the rest as it is.
#[verifier::external_body]
pub(crate) fn builder_batch_size(builder: Builder, batch_size: u32) -> (b: Builder)
    ensures
        plan_of(b) == (Plan { batch_size, ..plan_of(builder) }),
{
    builder.batch_size(batch_size)
}

/// `Builder::same` stores the test that the engine puts to two colours. The
/// test given is `color_same` with this shift and threshold.
#[verifier::external_body]
pub(crate) fn builder_same(builder: Builder, shift: i32, threshold: i32) -> (b: Builder)
    requires
        0 <= shift < 8,
    ensures
        plan_of(b) == (Plan { same: Some(SameRule { shift, threshold }), ..plan_of(builder) }),
{
    builder.same(move |x: visioncortex::Color, y: visioncortex::Color| {
        let x = Color { r: x.r, g: x.g, b: x.b, a: x.a };
        let y = Color { r: y.r, g: y.g, b: y.b, a: y.a };
        color_same(x, y, shift, threshold)
    })
}

/// `Builder::diff` stores the distance that the engine takes between two
/// colours. The distance given is `color_diff`.
#[verifier::external_body]
pub(crate) fn builder_diff(builder: Builder) -> (b: Builder)
    ensures
        plan_of(b) == (Plan { diff: true, ..plan_of(builder) }),
{
    builder.diff(|x: visioncortex::Color, y: visioncortex::Color| {
        let x = Color { r: x.r, g: x.g, b: x.b, a: x.a };
        let y = Color { r: y.r, g: y.g, b: y.b, a: y.a };
        color_diff(x, y)
    })
}

/// `Builder::deepen` stores the question that the engine asks of a cluster
/// and its neighbours before it merges the cluster into the nearest one. The
/// question given is `should_deepen` with these bounds.
#[verifier::external_body]
pub(crate) fn builder_deepen(
    builder: Builder,
    width: usize,
    good_min_area: usize,
    good_max_area: usize,
    deepen_diff: i32,
) -> (b: Builder)
    ensures
        plan_of(b) == (Plan {
            deepen: Some(DeepenRule { width, good_min_area, good_max_area, deepen_diff }),
            ..plan_of(builder)
        }),
{
    builder.deepen(move |_: &BuilderImpl, c: &Cluster, near: &[Neighbour]| {
        let (left, top, right, bottom) = (c.rect.left, c.rect.top, c.rect.right, c.rect.bottom);
        let rect = BoundingRect { left, top, right, bottom };
        let patch = Patch { indices: &c.indices, holes: &c.holes, rect };
        let near: Vec<NeighbourInfo> =
            near.iter().map(|n| NeighbourInfo { index: n.index.0, diff: n.diff }).collect();
        should_deepen(width, &patch, &near, good_min_area, good_max_area, deepen_diff)
    })
}

/// `Builder::hollow` stores the question whether a cluster with these
/// neighbours is a hole. The question given is `is_hollow` with this limit.
#[verifier::external_body]
pub(crate) fn builder_hollow(builder: Builder, hollow_neighbours: usize) -> (b: Builder)
    ensures
        plan_of(b) == (Plan { hollow: Some(hollow_neighbours), ..plan_of(builder) }),
{
    builder.hollow(move |_: &BuilderImpl, _: &Cluster, near: &[Neighbour]| {
        is_hollow(near.len(), hollow_neighbours)
    })
}

/// `Builder::run` clusters the image to the end. It takes the image and the
/// rules out of the builder, which fails where one is missing. What comes out
/// depends on the plan alone: the engine draws on no chance and no clock, and
/// sorts what it takes from hashed collections. It keeps the width and the
/// height of the image, cut to 32 bits, and an owner for each four bytes of
/// the buffer.
#[verifier::external_body]
pub(crate) fn builder_run(builder: Builder) -> (clusters: Clusters)
    requires
        plan_of(builder).runnable(),
    ensures
        contents(clusters) == clustering(plan_of(builder)),
        contents(clusters).width == plan_of(builder).image->0.width as u32,
        contents(clusters).height == plan_of(builder).image->0.height as u32,
        contents(clusters).owners@.len() == plan_of(builder).image->0.len(),
{
    builder.run()
}

/// `Builder::start` hands the plan to a job that is run step by step. It
/// takes the image and the rules out of the builder, which fails where one is
/// missing.
#[verifier::external_body]
pub(crate) fn builder_start(builder: Builder) -> (handle: IncrementalBuilder)
    requires
        plan_of(builder).complete(),
    ensures
        job_of(handle) == plan_of(builder),
{
    builder.start()
}

} // verus!
