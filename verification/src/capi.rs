//! The settings of a conversion as a foreign caller hands them over, and
//! the ranges that they must lie in.

use crate::config::{ColorMode, Config, Hierarchical, PathSimplifyMode};
use crate::ieee::{Binary32, Binary64};
use vstd::prelude::*;
use vstd::std_specs::convert::FromSpecImpl;
use vstd::string::to_string_from_display_ensures_for_str;

verus! {

/// How the outline of a cluster is turned into a path.
#[derive(Clone, Copy, Debug, PartialEq, Eq, Structural)]
pub enum VTracerPathSimplifyMode {
    /// The outline is kept pixel by pixel.
    Pixel,
    Polygon,
    Spline,
}

impl Default for VTracerPathSimplifyMode {
    fn default() -> (mode: VTracerPathSimplifyMode)
        ensures
            mode == VTracerPathSimplifyMode::Spline,
    {
        VTracerPathSimplifyMode::Spline
    }
}

impl VTracerPathSimplifyMode {
    /// The number that stands for the mode.
    pub open spec fn spec_code(self) -> int {
        match self {
            VTracerPathSimplifyMode::Pixel => 0,
            VTracerPathSimplifyMode::Polygon => 1,
            VTracerPathSimplifyMode::Spline => 2,
        }
    }

    pub fn code(self) -> (code: i32)
        ensures
            code == self.spec_code(),
    {
        match self {
            VTracerPathSimplifyMode::Pixel => 0,
            VTracerPathSimplifyMode::Polygon => 1,
            VTracerPathSimplifyMode::Spline => 2,
        }
    }

    /// The mode that a number stands for.
    pub fn from_code(code: i32) -> (mode: Result<VTracerPathSimplifyMode, String>)
        ensures
            0 <= code <= 2 ==> mode is Ok && mode->Ok_0.spec_code() == code,
            !(0 <= code <= 2) ==> mode is Err && mode->Err_0@
                == "Mode must be None, Polygon, or Spline"@,
    {
        broadcast use to_string_from_display_ensures_for_str;

        if code == 0 {
            Ok(VTracerPathSimplifyMode::Pixel)
        } else if code == 1 {
            Ok(VTracerPathSimplifyMode::Polygon)
        } else if code == 2 {
            Ok(VTracerPathSimplifyMode::Spline)
        } else {
            Err("Mode must be None, Polygon, or Spline".to_string())
        }
    }
}

/// The bit pattern of 3.5, the smallest legal length threshold.
pub const LENGTH_THRESHOLD_MIN: u64 = 0x400c_0000_0000_0000;

/// The bit pattern of 10, the largest legal length threshold.
pub const LENGTH_THRESHOLD_MAX: u64 = 0x4024_0000_0000_0000;

/// The bit pattern of 0, the smallest legal keying threshold.
pub const KEYING_THRESHOLD_MIN: u32 = 0;

/// The bit pattern of 1, the largest legal keying threshold.
pub const KEYING_THRESHOLD_MAX: u32 = 0x3f80_0000;

/// The path precision that stands for "not limited".
pub const PATH_PRECISION_UNSET: u32 = 4294967295;

/// The settings of a conversion as they are handed over: any of them may be
/// out of its range.
#[derive(Clone, Copy, Debug)]
pub struct VTracerConfig {
    pub color_mode: ColorMode,
    /// Only applies to colour mode.
    pub hierarchical: Hierarchical,
    /// Patches smaller than this many pixels across are discarded; from 0 to
    /// 16.
    pub filter_speckle: usize,
    /// The number of significant bits of a colour channel; from 1 to 8.
    pub color_precision: i32,
    /// The colour difference between two layers of a gradient; from 0 to
    /// 255.
    pub layer_difference: i32,
    pub mode: VTracerPathSimplifyMode,
    /// The smallest angle, in degrees, that makes a corner; from 0 to 180.
    pub corner_threshold: i32,
    /// Segments are subdivided until none is longer than this; from 3.5 to
    /// 10.
    pub length_threshold: Binary64,
    /// The largest number of subdivision passes; from 1 to 100.
    pub max_iterations: usize,
    /// The smallest turn, in degrees, at which a spline is spliced; from 0 to
    /// 180.
    pub splice_threshold: i32,
    /// The number of decimal places of a coordinate in a path;
    /// `PATH_PRECISION_UNSET` for no limit.
    pub path_precision: u32,
    /// The share of the pixels of the top and bottom rows that must have the
    /// key colour for the image to be keyed; from 0 to 1.
    pub keying_threshold: Binary32,
}

/// The first thing that is wrong with the settings of a conversion.
#[derive(Clone, Copy, Debug, PartialEq, Eq, Structural)]
pub enum Fault {
    FilterSpeckle,
    ColorPrecision,
    LayerDifference,
    CornerThreshold,
    LengthThreshold,
    MaxIterations,
    SpliceThreshold,
    KeyingThreshold,
}

impl Fault {
    /// What the caller is told.
    pub open spec fn message(self) -> Seq<char> {
        match self {
            Fault::FilterSpeckle => "Filter speckle must be between 0 and 16"@,
            Fault::ColorPrecision => "Color precision must be between 1 and 8"@,
            Fault::LayerDifference => "Layer difference must be between 0 and 255"@,
            Fault::CornerThreshold => "Corner threshold must be between 0 and 180"@,
            Fault::LengthThreshold => "Length threshold must be between 3.5 and 10"@,
            Fault::MaxIterations => "Max iterations must be between 1 and 100"@,
            Fault::SpliceThreshold => "Splice threshold must be between 0 and 180"@,
            Fault::KeyingThreshold => "Keying threshold must be between 0 and 1"@,
        }
    }
}

/// The path mode of a conversion that stands for a mode handed over.
pub open spec fn path_mode(mode: VTracerPathSimplifyMode) -> PathSimplifyMode {
    match mode {
        VTracerPathSimplifyMode::Pixel => PathSimplifyMode::Pixel,
        VTracerPathSimplifyMode::Polygon => PathSimplifyMode::Polygon,
        VTracerPathSimplifyMode::Spline => PathSimplifyMode::Spline,
    }
}

/// The mode handed over that stands for a path mode of a conversion.
pub open spec fn foreign_mode(mode: PathSimplifyMode) -> VTracerPathSimplifyMode {
    match mode {
        PathSimplifyMode::Pixel => VTracerPathSimplifyMode::Pixel,
        PathSimplifyMode::Polygon => VTracerPathSimplifyMode::Polygon,
        PathSimplifyMode::Spline => VTracerPathSimplifyMode::Spline,
    }
}

impl From<&VTracerPathSimplifyMode> for PathSimplifyMode {
    fn from(mode: &VTracerPathSimplifyMode) -> (converted: PathSimplifyMode) {
        match mode {
            VTracerPathSimplifyMode::Pixel => PathSimplifyMode::Pixel,
            VTracerPathSimplifyMode::Polygon => PathSimplifyMode::Polygon,
            VTracerPathSimplifyMode::Spline => PathSimplifyMode::Spline,
        }
    }
}

impl FromSpecImpl<&VTracerPathSimplifyMode> for PathSimplifyMode {
    open spec fn obeys_from_spec() -> bool {
        true
    }

    open spec fn from_spec(mode: &VTracerPathSimplifyMode) -> PathSimplifyMode {
        path_mode(*mode)
    }
}

impl From<VTracerPathSimplifyMode> for PathSimplifyMode {
    fn from(mode: VTracerPathSimplifyMode) -> (converted: PathSimplifyMode) {
        PathSimplifyMode::from(&mode)
    }
}

impl FromSpecImpl<VTracerPathSimplifyMode> for PathSimplifyMode {
    open spec fn obeys_from_spec() -> bool {
        true
    }

    open spec fn from_spec(mode: VTracerPathSimplifyMode) -> PathSimplifyMode {
        path_mode(mode)
    }
}

impl From<&PathSimplifyMode> for VTracerPathSimplifyMode {
    fn from(mode: &PathSimplifyMode) -> (converted: VTracerPathSimplifyMode) {
        match mode {
            PathSimplifyMode::Pixel => VTracerPathSimplifyMode::Pixel,
            PathSimplifyMode::Polygon => VTracerPathSimplifyMode::Polygon,
            PathSimplifyMode::Spline => VTracerPathSimplifyMode::Spline,
        }
    }
}

impl FromSpecImpl<&PathSimplifyMode> for VTracerPathSimplifyMode {
    open spec fn obeys_from_spec() -> bool {
        true
    }

    open spec fn from_spec(mode: &PathSimplifyMode) -> VTracerPathSimplifyMode {
        foreign_mode(*mode)
    }
}

impl From<PathSimplifyMode> for VTracerPathSimplifyMode {
    fn from(mode: PathSimplifyMode) -> (converted: VTracerPathSimplifyMode) {
        VTracerPathSimplifyMode::from(&mode)
    }
}

impl FromSpecImpl<PathSimplifyMode> for VTracerPathSimplifyMode {
    open spec fn obeys_from_spec() -> bool {
        true
    }

    open spec fn from_spec(mode: PathSimplifyMode) -> VTracerPathSimplifyMode {
        foreign_mode(mode)
    }
}

impl VTracerConfig {
    /// Whether the length threshold is a number from 3.5 to 10.
    pub open spec fn length_threshold_is_legal(&self) -> bool {
        &&& self.length_threshold.at_least(Binary64 { bits: LENGTH_THRESHOLD_MIN })
        &&& self.length_threshold.at_most(Binary64 { bits: LENGTH_THRESHOLD_MAX })
    }

    /// Whether the keying threshold is a number from 0 to 1.
    pub open spec fn keying_threshold_is_legal(&self) -> bool {
        &&& self.keying_threshold.at_least(Binary32 { bits: KEYING_THRESHOLD_MIN })
        &&& self.keying_threshold.at_most(Binary32 { bits: KEYING_THRESHOLD_MAX })
    }

    /// The first field, in the order in which they are checked, that is out
    /// of its range.
    pub open spec fn fault(&self) -> Option<Fault> {
        if self.filter_speckle > 16 {
            Some(Fault::FilterSpeckle)
        } else if self.color_precision < 1 || self.color_precision > 8 {
            Some(Fault::ColorPrecision)
        } else if self.layer_difference < 0 || self.layer_difference > 255 {
            Some(Fault::LayerDifference)
        } else if self.corner_threshold < 0 || self.corner_threshold > 180 {
            Some(Fault::CornerThreshold)
        } else if !self.length_threshold_is_legal() {
            Some(Fault::LengthThreshold)
        } else if self.max_iterations < 1 || self.max_iterations > 100 {
            Some(Fault::MaxIterations)
        } else if self.splice_threshold < 0 || self.splice_threshold > 180 {
            Some(Fault::SpliceThreshold)
        } else if !self.keying_threshold_is_legal() {
            Some(Fault::KeyingThreshold)
        } else {
            None
        }
    }

    /// The conversion that the settings ask for.
    pub open spec fn config(&self) -> Config {
        Config {
            color_mode: self.color_mode,
            hierarchical: self.hierarchical,
            filter_speckle: self.filter_speckle,
            color_precision: self.color_precision,
            layer_difference: self.layer_difference,
            mode: path_mode(self.mode),
            corner_threshold: self.corner_threshold,
            length_threshold: self.length_threshold,
            max_iterations: self.max_iterations,
            splice_threshold: self.splice_threshold,
            path_precision: if self.path_precision == PATH_PRECISION_UNSET {
                None
            } else {
                Some(self.path_precision)
            },
            keying_threshold: self.keying_threshold,
        }
    }

    /// The settings that ask for a conversion.
    pub open spec fn of(config: Config) -> VTracerConfig {
        VTracerConfig {
            color_mode: config.color_mode,
            hierarchical: config.hierarchical,
            filter_speckle: config.filter_speckle,
            color_precision: config.color_precision,
            layer_difference: config.layer_difference,
            mode: foreign_mode(config.mode),
            corner_threshold: config.corner_threshold,
            length_threshold: config.length_threshold,
            max_iterations: config.max_iterations,
            splice_threshold: config.splice_threshold,
            path_precision: match config.path_precision {
                Some(places) => places,
                None => PATH_PRECISION_UNSET,
            },
            keying_threshold: config.keying_threshold,
        }
    }

    /// Checks every field against its range, and names the first that is
    /// out of it.
    pub fn verify(&self) -> (checked: Result<(), String>)
        ensures
            match self.fault() {
                Some(fault) => checked is Err && checked->Err_0@ == fault.message(),
                None => checked is Ok,
            },
    {
        broadcast use to_string_from_display_ensures_for_str;

        if self.filter_speckle > 16 {
            return Err("Filter speckle must be between 0 and 16".to_string());
        }
        if self.color_precision < 1 || self.color_precision > 8 {
            return Err("Color precision must be between 1 and 8".to_string());
        }
        if self.layer_difference < 0 || self.layer_difference > 255 {
            return Err("Layer difference must be between 0 and 255".to_string());
        }
        if self.corner_threshold < 0 || self.corner_threshold > 180 {
            return Err("Corner threshold must be between 0 and 180".to_string());
        }
        if !self.length_threshold.between(
            Binary64 { bits: LENGTH_THRESHOLD_MIN },
            Binary64 { bits: LENGTH_THRESHOLD_MAX },
        ) {
            return Err("Length threshold must be between 3.5 and 10".to_string());
        }
        if self.max_iterations < 1 || self.max_iterations > 100 {
            return Err("Max iterations must be between 1 and 100".to_string());
        }
        if self.splice_threshold < 0 || self.splice_threshold > 180 {
            return Err("Splice threshold must be between 0 and 180".to_string());
        }
        if !self.keying_threshold.between(
            Binary32 { bits: KEYING_THRESHOLD_MIN },
            Binary32 { bits: KEYING_THRESHOLD_MAX },
        ) {
            return Err("Keying threshold must be between 0 and 1".to_string());
        }
        Ok(())
    }

    /// The conversion that the settings ask for, where they are legal.
    pub fn to_config(&self) -> (converted: Result<Config, String>)
        ensures
            match self.fault() {
                Some(fault) => converted is Err && converted->Err_0@ == fault.message(),
                None => converted == Ok::<Config, String>(self.config()),
            },
            converted matches Ok(config) ==> VTracerConfig::of(config).fault() is None,
    {
        proof {
            settings_survive_the_conversion(*self);
        }
        match self.verify() {
            Err(e) => Err(e),
            Ok(_) => Ok(Config::from(self)),
        }
    }

    /// Takes every setting from a conversion.
    pub fn set_from_config(&mut self, config: &Config)
        ensures
            *final(self) == VTracerConfig::of(*config),
    {
        self.color_mode = config.color_mode;
        self.hierarchical = config.hierarchical;
        self.filter_speckle = config.filter_speckle;
        self.color_precision = config.color_precision;
        self.layer_difference = config.layer_difference;
        self.mode = VTracerPathSimplifyMode::from(config.mode);
        self.corner_threshold = config.corner_threshold;
        self.length_threshold = config.length_threshold;
        self.max_iterations = config.max_iterations;
        self.splice_threshold = config.splice_threshold;
        self.path_precision = match config.path_precision {
            Some(places) => places,
            None => PATH_PRECISION_UNSET,
        };
        self.keying_threshold = config.keying_threshold;
    }
}

/// The settings that ask for the conversion which some settings ask for
/// are those settings again, and they are legal if those are.
pub proof fn settings_survive_the_conversion(settings: VTracerConfig)
    ensures
        VTracerConfig::of(settings.config()) == settings,
        VTracerConfig::of(settings.config()).fault() == settings.fault(),
{
}

/// The conversion that is asked for by the settings which ask for a
/// conversion is that conversion again, unless its path precision is the
/// number that stands for none.
pub proof fn conversion_survives_the_settings(config: Config)
    requires
        config.path_precision != Some(PATH_PRECISION_UNSET),
    ensures
        VTracerConfig::of(config).config() == config,
{
}

impl Default for VTracerConfig {
    fn default() -> (settings: VTracerConfig)
        ensures
            settings == VTracerConfig::of(Config::standard()),
    {
        VTracerConfig::from(Config::default())
    }
}

/// Takes every setting of a conversion from what was handed over.
fn set_config_from_c_config(c_config: &VTracerConfig, config: &mut Config)
    ensures
        *final(config) == c_config.config(),
{
    config.color_mode = c_config.color_mode;
    config.hierarchical = c_config.hierarchical;
    config.filter_speckle = c_config.filter_speckle;
    config.color_precision = c_config.color_precision;
    config.layer_difference = c_config.layer_difference;
    config.mode = PathSimplifyMode::from(c_config.mode);
    config.corner_threshold = c_config.corner_threshold;
    config.length_threshold = c_config.length_threshold;
    config.max_iterations = c_config.max_iterations;
    config.splice_threshold = c_config.splice_threshold;
    config.path_precision = if c_config.path_precision == PATH_PRECISION_UNSET {
        None
    } else {
        Some(c_config.path_precision)
    };
    config.keying_threshold = c_config.keying_threshold;
}

impl From<&VTracerConfig> for Config {
    fn from(c_config: &VTracerConfig) -> (config: Config) {
        let mut config: Config = Config::default();
        set_config_from_c_config(c_config, &mut config);
        config
    }
}

impl FromSpecImpl<&VTracerConfig> for Config {
    open spec fn obeys_from_spec() -> bool {
        true
    }

    open spec fn from_spec(c_config: &VTracerConfig) -> Config {
        c_config.config()
    }
}

impl From<VTracerConfig> for Config {
    fn from(c_config: VTracerConfig) -> (config: Config) {
        Config::from(&c_config)
    }
}

impl FromSpecImpl<VTracerConfig> for Config {
    open spec fn obeys_from_spec() -> bool {
        true
    }

    open spec fn from_spec(c_config: VTracerConfig) -> Config {
        c_config.config()
    }
}

impl From<&Config> for VTracerConfig {
    fn from(config: &Config) -> (c_config: VTracerConfig) {
        VTracerConfig {
            color_mode: config.color_mode,
            hierarchical: config.hierarchical,
            filter_speckle: config.filter_speckle,
            color_precision: config.color_precision,
            layer_difference: config.layer_difference,
            mode: VTracerPathSimplifyMode::from(config.mode),
            corner_threshold: config.corner_threshold,
            length_threshold: config.length_threshold,
            max_iterations: config.max_iterations,
            splice_threshold: config.splice_threshold,
            path_precision: match config.path_precision {
                Some(places) => places,
                None => PATH_PRECISION_UNSET,
            },
            keying_threshold: config.keying_threshold,
        }
    }
}

impl FromSpecImpl<&Config> for VTracerConfig {
    open spec fn obeys_from_spec() -> bool {
        true
    }

    open spec fn from_spec(config: &Config) -> VTracerConfig {
        VTracerConfig::of(*config)
    }
}

impl From<Config> for VTracerConfig {
    fn from(config: Config) -> (c_config: VTracerConfig) {
        VTracerConfig::from(&config)
    }
}

impl FromSpecImpl<Config> for VTracerConfig {
    open spec fn obeys_from_spec() -> bool {
        true
    }

    open spec fn from_spec(config: Config) -> VTracerConfig {
        VTracerConfig::of(config)
    }
}

} // verus!
