//! From the settings of a conversion to the job that clusters the image.

use crate::capi::VTracerConfig;
use crate::config::Config;
use crate::keying::Keying;
use crate::runner::{RunnerConfig, HIERARCHICAL_MAX};
use vstd::prelude::*;

verus! {

/// Whether every setting of a conversion lies in its range.
pub open spec fn legal(config: Config) -> bool {
    VTracerConfig::of(config).fault() is None
}

/// The settings of the job that a conversion runs on an image of `width` by
/// `height` pixels.
///
/// Pixels that touch at a corner are adjacent only where the layers are not
/// told apart by colour. A patch is deepened if it is larger than a speckle
/// and smaller than the image. The comparison of colours drops the bits that
/// the colour precision does not keep.
pub open spec fn job_settings(
    config: Config,
    width: usize,
    height: usize,
    keying: Keying,
) -> RunnerConfig {
    RunnerConfig {
        diagonal: config.layer_difference == 0,
        hierarchical: HIERARCHICAL_MAX,
        batch_size: 25600,
        good_min_area: (config.filter_speckle * config.filter_speckle) as usize,
        good_max_area: (width * height) as usize,
        is_same_color_a: (8 - config.color_precision) as i32,
        is_same_color_b: 1,
        deepen_diff: config.layer_difference,
        hollow_neighbours: 1,
        key_color: keying.key_color,
        keying_action: keying.keying_action,
    }
}

/// Makes the settings of the job that a conversion runs on an image. With
/// legal settings the shift leaves a bit of each channel, so that a builder
/// can be made of the job.
pub fn runner_config(
    config: &Config,
    width: usize,
    height: usize,
    keying: Keying,
) -> (settings: RunnerConfig)
    requires
        legal(*config),
        width * height <= usize::MAX,
    ensures
        settings == job_settings(*config, width, height, keying),
        settings.good_min_area == config.filter_speckle * config.filter_speckle,
        settings.good_max_area == width * height,
        settings.is_same_color_a == 8 - config.color_precision,
        0 <= settings.is_same_color_a < 8,
{
    assert(config.filter_speckle * config.filter_speckle <= 256) by (nonlinear_arith)
        requires
            config.filter_speckle <= 16,
    ;
    RunnerConfig {
        diagonal: config.layer_difference == 0,
        hierarchical: HIERARCHICAL_MAX,
        batch_size: 25600,
        good_min_area: config.filter_speckle * config.filter_speckle,
        good_max_area: width * height,
        is_same_color_a: 8 - config.color_precision,
        is_same_color_b: 1,
        deepen_diff: config.layer_difference,
        hollow_neighbours: 1,
        key_color: keying.key_color,
        keying_action: keying.keying_action,
    }
}

} // verus!
