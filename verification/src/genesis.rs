//! Genesis-side configuration types: timing, region, controller and audio
//! options, and the exact pixel-aspect-ratio table.

use vstd::prelude::*;

verus! {

pub const NATIVE_M68K_DIVIDER: u64 = 7;

pub const DEFAULT_SUB_CPU_DIVIDER: u64 = 4;

pub const MODEL_1_VA2_LPF_CUTOFF: u32 = 3390;

pub const MODEL_1_VA3_LPF_CUTOFF: u32 = 2840;

pub const MODEL_2_1ST_LPF_CUTOFF: u32 = 3789;

pub const MODEL_2_2ND_LPF_CUTOFF: u32 = 6725;

pub const DEFAULT_PCM_LPF_CUTOFF: u32 = 7973;

/// Console timing standard.
#[derive(Debug, Clone, Copy, PartialEq, Eq, Structural)]
pub enum TimingMode {
    Ntsc,
    Pal,
}

/// A frame's dimensions in pixels.
#[derive(Debug, Clone, Copy, PartialEq, Eq, Structural)]
pub struct FrameSize {
    pub width: u32,
    pub height: u32,
}

/// An exact pixel aspect ratio, kept as a positive rational so the table
/// can be stated and checked precisely; the renderer divides when drawing.
#[derive(Debug, Clone, Copy, PartialEq, Eq, Structural)]
pub struct PixelAspectRatio {
    pub numerator: u32,
    pub denominator: u32,
}

#[derive(Debug, Clone, Copy, PartialEq, Eq, Structural)]
pub enum GenesisAspectRatio {
    Auto,
    Ntsc,
    Pal,
    SquarePixels,
    Stretched,
}

impl Default for GenesisAspectRatio {
    fn default() -> (r: Self)
        ensures
            r is Auto,
    {
        GenesisAspectRatio::Auto
    }
}

/// The aspect ratio `Auto` resolves to under the given timing standard.
pub open spec fn spec_resolve_auto(s: GenesisAspectRatio, timing_mode: TimingMode)
    -> GenesisAspectRatio {
    if s is Auto {
        match timing_mode {
            TimingMode::Ntsc => GenesisAspectRatio::Ntsc,
            TimingMode::Pal => GenesisAspectRatio::Pal,
        }
    } else {
        s
    }
}

/// The H40-mode pixel aspect ratio table; `Stretched` has none.
pub open spec fn spec_h40_ratio(s: GenesisAspectRatio, timing_mode: TimingMode) -> Option<
    PixelAspectRatio,
> {
    match spec_resolve_auto(s, timing_mode) {
        GenesisAspectRatio::Ntsc => Option::Some(PixelAspectRatio { numerator: 32, denominator: 35 }),
        GenesisAspectRatio::Pal => Option::Some(PixelAspectRatio { numerator: 11, denominator: 10 }),
        GenesisAspectRatio::SquarePixels => Option::Some(
            PixelAspectRatio { numerator: 1, denominator: 1 },
        ),
        _ => Option::None,
    }
}

/// The width-dependent pixel aspect ratio table, with the doubling applied
/// for interlaced double-resolution frames.
pub open spec fn spec_pixel_aspect_ratio(
    s: GenesisAspectRatio,
    timing_mode: TimingMode,
    frame_size: FrameSize,
    adjust_for_2x_resolution: bool,
) -> Option<PixelAspectRatio> {
    let resolved = spec_resolve_auto(s, timing_mode);
    let base: Option<PixelAspectRatio> = match resolved {
        GenesisAspectRatio::SquarePixels => Option::Some(
            PixelAspectRatio { numerator: 1, denominator: 1 },
        ),
        GenesisAspectRatio::Ntsc => if 256 <= frame_size.width <= 284 {
            Option::Some(PixelAspectRatio { numerator: 8, denominator: 7 })
        } else if 320 <= frame_size.width <= 347 {
            Option::Some(PixelAspectRatio { numerator: 32, denominator: 35 })
        } else {
            Option::None
        },
        GenesisAspectRatio::Pal => if 256 <= frame_size.width <= 284 {
            Option::Some(PixelAspectRatio { numerator: 11, denominator: 8 })
        } else if 320 <= frame_size.width <= 347 {
            Option::Some(PixelAspectRatio { numerator: 11, denominator: 10 })
        } else {
            Option::None
        },
        _ => Option::None,
    };
    if adjust_for_2x_resolution && frame_size.height >= 448 {
        match base {
            Option::Some(par) => Option::Some(
                PixelAspectRatio {
                    numerator: (2 * par.numerator) as u32,
                    denominator: par.denominator,
                },
            ),
            Option::None => Option::None,
        }
    } else {
        base
    }
}

impl GenesisAspectRatio {
    /// The pixel aspect ratio used in H40 mode, where every line has the
    /// same width; `Auto` follows the timing standard and `Stretched` means
    /// fill the window.
    pub fn to_h40_pixel_aspect_ratio(self, timing_mode: TimingMode) -> (r: Option<
        PixelAspectRatio,
    >)
        ensures
            r == spec_h40_ratio(self, timing_mode),
    {
        let resolved = match (self, timing_mode) {
            (GenesisAspectRatio::Auto, TimingMode::Ntsc) => GenesisAspectRatio::Ntsc,
            (GenesisAspectRatio::Auto, TimingMode::Pal) => GenesisAspectRatio::Pal,
            _ => self,
        };

        match resolved {
            GenesisAspectRatio::Ntsc => Some(PixelAspectRatio { numerator: 32, denominator: 35 }),
            GenesisAspectRatio::Pal => Some(PixelAspectRatio { numerator: 11, denominator: 10 }),
            GenesisAspectRatio::SquarePixels => Some(
                PixelAspectRatio { numerator: 1, denominator: 1 },
            ),
            _ => None,
        }
    }

    /// The pixel aspect ratio for the given frame size; widths outside the
    /// two hardware line widths have no defined ratio, and interlaced
    /// double-resolution frames double the ratio.
    pub fn to_pixel_aspect_ratio(
        self,
        timing_mode: TimingMode,
        frame_size: FrameSize,
        adjust_for_2x_resolution: bool,
    ) -> (r: Option<PixelAspectRatio>)
        ensures
            r == spec_pixel_aspect_ratio(self, timing_mode, frame_size, adjust_for_2x_resolution),
    {
        let resolved = match (self, timing_mode) {
            (GenesisAspectRatio::Auto, TimingMode::Ntsc) => GenesisAspectRatio::Ntsc,
            (GenesisAspectRatio::Auto, TimingMode::Pal) => GenesisAspectRatio::Pal,
            _ => self,
        };

        let pixel_aspect_ratio: Option<PixelAspectRatio> = match resolved {
            GenesisAspectRatio::SquarePixels => Some(
                PixelAspectRatio { numerator: 1, denominator: 1 },
            ),
            GenesisAspectRatio::Ntsc => {
                if 256 <= frame_size.width && frame_size.width <= 284 {
                    Some(PixelAspectRatio { numerator: 8, denominator: 7 })
                } else if 320 <= frame_size.width && frame_size.width <= 347 {
                    Some(PixelAspectRatio { numerator: 32, denominator: 35 })
                } else {
                    None
                }
            },
            GenesisAspectRatio::Pal => {
                if 256 <= frame_size.width && frame_size.width <= 284 {
                    Some(PixelAspectRatio { numerator: 11, denominator: 8 })
                } else if 320 <= frame_size.width && frame_size.width <= 347 {
                    Some(PixelAspectRatio { numerator: 11, denominator: 10 })
                } else {
                    None
                }
            },
            _ => None,
        };

        if adjust_for_2x_resolution && frame_size.height >= 448 {
            match pixel_aspect_ratio {
                Some(par) => Some(
                    PixelAspectRatio {
                        numerator: 2 * par.numerator,
                        denominator: par.denominator,
                    },
                ),
                None => None,
            }
        } else {
            pixel_aspect_ratio
        }
    }
}

#[derive(Debug, Clone, Copy, PartialEq, Eq, Structural)]
pub enum GenesisRegion {
    Americas,
    Japan,
    Europe,
}

#[derive(Debug, Clone, Copy, PartialEq, Eq, Structural)]
pub enum Opn2BusyBehavior {
    Ym2612,
    Ym3438,
    AlwaysZero,
}

impl Default for Opn2BusyBehavior {
    fn default() -> (r: Self)
        ensures
            r is Ym3438,
    {
        Opn2BusyBehavior::Ym3438
    }
}

#[derive(Debug, Clone, Copy, PartialEq, Eq, Structural)]
pub enum GenesisControllerType {
    ThreeButton,
    SixButton,
    Disconnected,
}

impl Default for GenesisControllerType {
    fn default() -> (r: Self)
        ensures
            r is SixButton,
    {
        GenesisControllerType::SixButton
    }
}

#[derive(Debug, Clone, Copy, PartialEq, Eq, Structural)]
pub enum PcmInterpolation {
    Off,
    Linear,
    CubicHermite,
    CubicHermite6Point,
}

impl Default for PcmInterpolation {
    fn default() -> (r: Self)
        ensures
            r is Off,
    {
        PcmInterpolation::Off
    }
}

#[derive(Debug, Clone, Copy, PartialEq, Eq, Structural)]
pub enum S32XVideoOut {
    Combined,
    GenesisOnly,
    S32XOnly,
}

impl Default for S32XVideoOut {
    fn default() -> (r: Self)
        ensures
            r is Combined,
    {
        S32XVideoOut::Combined
    }
}

} // verus!
