//! A clustering job: one image, one set of settings, run once.

use crate::color::Color;
use crate::engine::{
    builder_batch_size, builder_deepen, builder_diagonal, builder_diff, builder_from,
    builder_hierarchical, builder_hollow, builder_key, builder_keying_action, builder_new,
    builder_run, builder_same, builder_start, clustering, contents, job_of, plan_of, DeepenRule,
    Plan, SameRule,
};
use crate::image::ColorImage;
use crate::keying::KeyingAction;
use crate::segmentation::Segmentation;
use visioncortex::color_clusters::{Builder, Clusters, IncrementalBuilder};
use vstd::prelude::*;

verus! {

/// The value of `hierarchical` that asks for the full hierarchy.
pub const HIERARCHICAL_MAX: u32 = 4294967295;

/// The settings of a job.
#[derive(Clone, Copy, Debug)]
pub struct RunnerConfig {
    /// Whether pixels that touch at a corner are adjacent.
    pub diagonal: bool,
    /// The largest area that is still merged in the second pass; 0 stops
    /// after the first pass, `HIERARCHICAL_MAX` builds the full hierarchy.
    pub hierarchical: u32,
    /// The number of pixels that one step of the first pass takes.
    pub batch_size: i32,
    /// A cluster is deepened only if its area lies strictly between
    /// `good_min_area` and `good_max_area`.
    pub good_min_area: usize,
    pub good_max_area: usize,
    /// The number of low bits that the comparison of two colours drops.
    pub is_same_color_a: i32,
    /// The largest difference in a channel between two colours that count
    /// as the same.
    pub is_same_color_b: i32,
    /// A cluster is deepened only if its nearest neighbour is farther than
    /// this.
    pub deepen_diff: i32,
    /// A cluster with at most so many neighbours is a hole.
    pub hollow_neighbours: usize,
    /// The colour whose pixels are left out; all zero for none.
    pub key_color: Color,
    pub keying_action: KeyingAction,
}

impl RunnerConfig {
    /// The settings that a job has when none are given.
    pub open spec fn standard() -> RunnerConfig {
        RunnerConfig {
            diagonal: false,
            hierarchical: HIERARCHICAL_MAX,
            batch_size: 25600,
            good_min_area: 16,
            good_max_area: 65536,
            is_same_color_a: 4,
            is_same_color_b: 1,
            deepen_diff: 64,
            hollow_neighbours: 1,
            key_color: Color::zero(),
            keying_action: KeyingAction::Keep,
        }
    }
}

impl Default for RunnerConfig {
    fn default() -> (config: RunnerConfig)
        ensures
            config == RunnerConfig::standard(),
    {
        RunnerConfig {
            diagonal: false,
            hierarchical: HIERARCHICAL_MAX,
            batch_size: 25600,
            good_min_area: 16,
            good_max_area: 256 * 256,
            is_same_color_a: 4,
            is_same_color_b: 1,
            deepen_diff: 64,
            hollow_neighbours: 1,
            key_color: Color::default(),
            keying_action: KeyingAction::default(),
        }
    }
}

/// A job that has not run yet.
pub struct Runner {
    config: RunnerConfig,
    image: ColorImage,
}

impl Default for Runner {
    fn default() -> (runner: Runner)
        ensures
            runner.config() == RunnerConfig::standard(),
            runner.image()@.pixels.len() == 0,
            runner.image()@.width == 0,
            runner.image()@.height == 0,
            runner.image()@.wf(),
    {
        Runner { config: RunnerConfig::default(), image: ColorImage::new() }
    }
}

impl Runner {
    /// The settings of the job.
    pub closed spec fn config(&self) -> RunnerConfig {
        self.config
    }

    /// The image of the job.
    pub closed spec fn image(&self) -> ColorImage {
        self.image
    }

    /// What the job hands to the engine.
    pub open spec fn plan(&self) -> Plan {
        Plan {
            image: Some(self.image()@),
            diagonal: self.config().diagonal,
            hierarchical: self.config().hierarchical,
            batch_size: self.config().batch_size as u32,
            key: self.config().key_color,
            keying_action: self.config().keying_action,
            same: Some(
                SameRule {
                    shift: self.config().is_same_color_a,
                    threshold: self.config().is_same_color_b,
                },
            ),
            diff: true,
            deepen: Some(
                DeepenRule {
                    width: self.image().width,
                    good_min_area: self.config().good_min_area,
                    good_max_area: self.config().good_max_area,
                    deepen_diff: self.config().deepen_diff,
                },
            ),
            hollow: Some(self.config().hollow_neighbours),
        }
    }

    /// Whether the comparison of colours keeps at least one bit of each
    /// channel.
    pub open spec fn valid(&self) -> bool {
        0 <= self.config().is_same_color_a < 8
    }

    /// Whether the job can be run to its end in one call: see
    /// `Plan::runnable`.
    pub open spec fn runnable(&self) -> bool {
        &&& self.valid()
        &&& self.config().batch_size != 0
        &&& !self.config().diagonal
        &&& self.image()@.wf()
        &&& self.image()@.len() * 255 <= u32::MAX
    }

    /// What the job hands to the engine when only the first pass is asked
    /// for.
    pub open spec fn base_plan(&self) -> Plan {
        Plan { hierarchical: 0, ..self.plan() }
    }

    /// Tells whether a builder can be made of the job.
    pub fn is_valid(&self) -> (ok: bool)
        ensures
            ok == self.valid(),
    {
        0 <= self.config.is_same_color_a && self.config.is_same_color_a < 8
    }

    /// Tells whether the job can be run to its end in one call.
    pub fn is_runnable(&self) -> (ok: bool)
        ensures
            ok == self.runnable(),
    {
        if !self.is_valid() || self.config.batch_size == 0 || self.config.diagonal {
            return false;
        }
        match self.image.pixel_count() {
            Some(count) => count <= 16843009,
            None => false,
        }
    }

    pub fn new(config: RunnerConfig, image: ColorImage) -> (runner: Runner)
        ensures
            runner.config() == config,
            runner.image() == image,
    {
        Runner { config, image }
    }

    /// Replaces the image of the job.
    pub fn init(&mut self, image: ColorImage)
        ensures
            final(self).config() == old(self).config(),
            final(self).image() == image,
    {
        self.image = image;
    }

    /// Hands the image, the settings and the four rules to a builder of the
    /// engine.
    pub fn builder(self) -> (builder: Builder)
        requires
            self.valid(),
        ensures
            plan_of(builder) == self.plan(),
    {
        let RunnerConfig {
            diagonal,
            hierarchical,
            batch_size,
            good_min_area,
            good_max_area,
            is_same_color_a,
            is_same_color_b,
            deepen_diff,
            hollow_neighbours,
            key_color,
            keying_action,
        } = self.config;
        let width = self.image.width;

        let builder = builder_new();
        let builder = builder_from(builder, self.image);
        let builder = builder_diagonal(builder, diagonal);
        let builder = builder_hierarchical(builder, hierarchical);
        let builder = builder_key(builder, key_color);
        let builder = builder_keying_action(builder, keying_action);
        let builder = builder_batch_size(builder, #[verifier::truncate] (batch_size as u32));
        let builder = builder_same(builder, is_same_color_a, is_same_color_b);
        let builder = builder_diff(builder);
        let builder = builder_deepen(builder, width, good_min_area, good_max_area, deepen_diff);
        builder_hollow(builder, hollow_neighbours)
    }

    /// Starts the job, to be run step by step.
    pub fn start(self) -> (handle: IncrementalBuilder)
        requires
            self.valid(),
        ensures
            job_of(handle) == self.plan(),
    {
        builder_start(self.builder())
    }

    /// Runs the job to its end. The clusters are those that the engine makes
    /// of the plan of the job; they name each pixel of the image.
    pub fn run(self) -> (clusters: Clusters)
        requires
            self.runnable(),
        ensures
            contents(clusters) == clustering(self.plan()),
            contents(clusters).width == self.image().width as u32,
            contents(clusters).height == self.image().height as u32,
            contents(clusters).owners@.len() == self.image()@.len(),
    {
        proof {
            let size = self.config.batch_size;
            assert(size != 0 ==> size as u32 != 0) by (bit_vector);
        }
        builder_run(self.builder())
    }

    /// Runs the first pass only, which makes the base layer, and hands out
    /// its clusters if they partition the pixels that are not keyed: every
    /// such pixel then belongs to exactly one cluster.
    pub fn base_layer(self) -> (layer: Option<Segmentation>)
        requires
            self.runnable(),
        ensures
            layer == partition(clustering(self.base_plan())),
            layer matches Some(segmentation) ==> {
                &&& segmentation.is_partition()
                &&& segmentation.owners@.len() == self.image()@.len()
            },
    {
        let mut job = self;
        job.config.hierarchical = 0;
        let clusters = job.run();
        let segmentation = Segmentation::of(&clusters);
        if segmentation.check_partition() {
            Some(segmentation)
        } else {
            None
        }
    }
}

/// A segmentation, if it partitions the pixels that are not keyed.
pub open spec fn partition(segmentation: Segmentation) -> Option<Segmentation> {
    if segmentation.is_partition() {
        Some(segmentation)
    } else {
        None
    }
}

/// Two jobs with the same image and the same settings hand the same plan to
/// the engine, and so come to the same clusters.
pub proof fn equal_jobs_give_equal_clusters(first: Runner, second: Runner)
    requires
        first.image()@ == second.image()@,
        first.config() == second.config(),
    ensures
        first.plan() == second.plan(),
        clustering(first.plan()) == clustering(second.plan()),
{
    assert(first.image().width == second.image().width);
}

} // verus!
