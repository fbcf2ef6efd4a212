//! The settings of a conversion.

use crate::ieee::{Binary32, Binary64};
use vstd::prelude::*;
use vstd::string::to_string_from_display_ensures_for_str;

verus! {

/// Whether the image is traced in colour or in black and white.
#[derive(Clone, Copy, Debug, PartialEq, Eq, Structural)]
pub enum ColorMode {
    Color,
    Binary,
}

/// Whether the layers of the result lie on top of each other or are cut
/// out of each other.
#[derive(Clone, Copy, Debug, PartialEq, Eq, Structural)]
pub enum Hierarchical {
    Stacked,
    Cutout,
}

/// How the outline of a cluster is turned into a path.
#[derive(Clone, Copy, Debug, PartialEq, Eq, Structural)]
pub enum PathSimplifyMode {
    /// The outline is kept pixel by pixel.
    Pixel,
    Polygon,
    Spline,
}

impl ColorMode {
    /// The number that stands for the mode.
    pub open spec fn spec_code(self) -> int {
        match self {
            ColorMode::Color => 0,
            ColorMode::Binary => 1,
        }
    }

    pub fn code(self) -> (code: i32)
        ensures
            code == self.spec_code(),
    {
        match self {
            ColorMode::Color => 0,
            ColorMode::Binary => 1,
        }
    }

    /// The mode that a number stands for.
    pub fn from_code(code: i32) -> (mode: Result<ColorMode, String>)
        ensures
            0 <= code <= 1 ==> mode is Ok && mode->Ok_0.spec_code() == code,
            !(0 <= code <= 1) ==> mode is Err && mode->Err_0@
                == "Color mode must be Color or Binary"@,
    {
        broadcast use to_string_from_display_ensures_for_str;

        if code == 0 {
            Ok(ColorMode::Color)
        } else if code == 1 {
            Ok(ColorMode::Binary)
        } else {
            Err("Color mode must be Color or Binary".to_string())
        }
    }
}

impl Hierarchical {
    /// The number that stands for the mode.
    pub open spec fn spec_code(self) -> int {
        match self {
            Hierarchical::Stacked => 0,
            Hierarchical::Cutout => 1,
        }
    }

    pub fn code(self) -> (code: i32)
        ensures
            code == self.spec_code(),
    {
        match self {
            Hierarchical::Stacked => 0,
            Hierarchical::Cutout => 1,
        }
    }

    /// The mode that a number stands for.
    pub fn from_code(code: i32) -> (mode: Result<Hierarchical, String>)
        ensures
            0 <= code <= 1 ==> mode is Ok && mode->Ok_0.spec_code() == code,
            !(0 <= code <= 1) ==> mode is Err && mode->Err_0@
                == "Hierarchical must be Stacked or Cutout"@,
    {
        broadcast use to_string_from_display_ensures_for_str;

        if code == 0 {
            Ok(Hierarchical::Stacked)
        } else if code == 1 {
            Ok(Hierarchical::Cutout)
        } else {
            Err("Hierarchical must be Stacked or Cutout".to_string())
        }
    }
}

/// The bit pattern of 4, the length threshold of a conversion when none is
/// given.
pub const DEFAULT_LENGTH_THRESHOLD: u64 = 0x4010_0000_0000_0000;

/// The bit pattern of the single-precision number nearest to 0.2, the
/// keying threshold of a conversion when none is given.
pub const DEFAULT_KEYING_THRESHOLD: u32 = 0x3e4c_cccd;

/// The settings of a conversion.
#[derive(Clone, Copy, Debug)]
pub struct Config {
    pub color_mode: ColorMode,
    pub hierarchical: Hierarchical,
    /// Patches smaller than this many pixels across are discarded.
    pub filter_speckle: usize,
    /// The number of significant bits of a colour channel.
    pub color_precision: i32,
    /// The colour difference between two layers of a gradient.
    pub layer_difference: i32,
    pub mode: PathSimplifyMode,
    /// The smallest angle, in degrees, that makes a corner.
    pub corner_threshold: i32,
    /// Segments are subdivided until none is longer than this.
    pub length_threshold: Binary64,
    /// The largest number of subdivision passes.
    pub max_iterations: usize,
    /// The smallest turn, in degrees, at which a spline is spliced.
    pub splice_threshold: i32,
    /// The number of decimal places of a coordinate in a path, if limited.
    pub path_precision: Option<u32>,
    /// The share of the pixels of the top and bottom rows that must have the
    /// key colour for the image to be keyed.
    pub keying_threshold: Binary32,
}

impl Config {
    /// The settings of a conversion when none are given.
    pub open spec fn standard() -> Config {
        Config {
            color_mode: ColorMode::Color,
            hierarchical: Hierarchical::Stacked,
            filter_speckle: 1,
            color_precision: 6,
            layer_difference: 16,
            mode: PathSimplifyMode::Spline,
            corner_threshold: 60,
            length_threshold: Binary64 { bits: DEFAULT_LENGTH_THRESHOLD },
            max_iterations: 10,
            splice_threshold: 45,
            path_precision: Some(2u32),
            keying_threshold: Binary32 { bits: DEFAULT_KEYING_THRESHOLD },
        }
    }
}

impl Default for Config {
    fn default() -> (config: Config)
        ensures
            config == Config::standard(),
    {
        Config {
            color_mode: ColorMode::Color,
            hierarchical: Hierarchical::Stacked,
            filter_speckle: 1,
            color_precision: 6,
            layer_difference: 16,
            mode: PathSimplifyMode::Spline,
            corner_threshold: 60,
            length_threshold: Binary64 { bits: DEFAULT_LENGTH_THRESHOLD },
            max_iterations: 10,
            splice_threshold: 45,
            path_precision: Some(2),
            keying_threshold: Binary32 { bits: DEFAULT_KEYING_THRESHOLD },
        }
    }
}

} // verus!
