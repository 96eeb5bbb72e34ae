//! Game Boy emulator interface types and the frame-loop decisions: hardware
//! mode selection, tick effects, and when battery-backed SRAM is persisted.

use vstd::prelude::*;

use crate::cartridge::Cartridge;
use crate::memory::Memory;

verus! {

/// Errors raised while loading a Game Boy cartridge.
#[derive(Debug, Clone, Copy, PartialEq, Eq, Structural)]
pub enum GameBoyLoadError {
    InvalidSramByte(u8),
    UnsupportedMapperByte(u8),
}

/// Errors raised while running: each wraps the collaborator's error to
/// identify the stage that failed.
#[derive(Debug)]
pub enum GameBoyError<RErr, AErr, SErr> {
    Rendering(RErr),
    Audio(AErr),
    SaveWrite(SErr),
}

/// Which DMG hardware generation the emulator behaves as.
#[derive(Debug, Clone, Copy, PartialEq, Eq, Structural)]
pub enum HardwareMode {
    Dmg,
    Cgb,
}

/// What a ROM header says about the hardware it supports.
#[derive(Debug, Clone, Copy, PartialEq, Eq, Structural)]
pub enum SoftwareType {
    DmgOnly,
    CgbEnhanced,
    CgbOnly,
}

/// The hardware mode selected for a ROM: forcing DMG always wins, and
/// DMG-only software never runs on CGB hardware.
pub open spec fn spec_hardware_mode(force_dmg_mode: bool, software_type: SoftwareType)
    -> HardwareMode {
    if force_dmg_mode || software_type is DmgOnly {
        HardwareMode::Dmg
    } else {
        HardwareMode::Cgb
    }
}

/// Selects the hardware mode for a ROM.
pub fn hardware_mode_for(force_dmg_mode: bool, software_type: SoftwareType) -> (r: HardwareMode)
    ensures
        r == spec_hardware_mode(force_dmg_mode, software_type),
{
    match (force_dmg_mode, software_type) {
        (true, _) => HardwareMode::Dmg,
        (_, SoftwareType::DmgOnly) => HardwareMode::Dmg,
        (false, SoftwareType::CgbEnhanced | SoftwareType::CgbOnly) => HardwareMode::Cgb,
    }
}

#[derive(Debug, Clone, Copy, PartialEq, Eq, Structural)]
pub enum BackgroundTileMap {
    Zero,
    One,
}

impl Default for BackgroundTileMap {
    fn default() -> (r: Self)
        ensures
            r is Zero,
    {
        BackgroundTileMap::Zero
    }
}

#[derive(Debug, Clone, Copy, PartialEq, Eq, Structural)]
pub enum GbAspectRatio {
    SquarePixels,
    Stretched,
}

#[derive(Debug, Clone, Copy, PartialEq, Eq, Structural)]
pub enum GbPalette {
    BlackAndWhite,
    GreenTint,
    LimeGreen,
    Custom,
}

#[derive(Debug, Clone, Copy, PartialEq, Eq, Structural)]
pub enum GbcColorCorrection {
    Off,
    GbcLcd,
    GbaLcd,
}

#[derive(Debug, Clone, Copy, PartialEq, Eq, Structural)]
pub enum GbAudioResampler {
    LowPassNearestNeighbor,
    WindowedSinc,
}

/// The Game Boy core's configuration, as handed in by the host.
#[derive(Debug, Clone, Copy)]
pub struct GameBoyEmulatorConfig {
    pub force_dmg_mode: bool,
    pub pretend_to_be_gba: bool,
    pub aspect_ratio: GbAspectRatio,
    pub gb_palette: GbPalette,
    pub gb_custom_palette: [(u8, u8, u8); 4],
    pub gbc_color_correction: GbcColorCorrection,
    pub audio_resampler: GbAudioResampler,
    pub audio_60hz_hack: bool,
}

/// What one outer tick reports back to the host.
#[derive(Debug, Clone, Copy, PartialEq, Eq, Structural)]
pub enum TickEffect {
    Idle,
    FrameRendered,
}

/// Everything the frame loop decides at one tick boundary.
#[derive(Debug, Clone, Copy, PartialEq, Eq, Structural)]
pub struct TickPlan {
    pub render_frame: bool,
    pub advance_rtc: bool,
    pub persist_sram: bool,
    pub effect: TickEffect,
    pub next_frame_count: u64,
}

/// SRAM is persisted only at a frame boundary, only for battery-backed
/// cartridges, only on the frame at 30 modulo 60, and only when dirty.
pub open spec fn spec_persist_decision(
    frame_complete: bool,
    has_battery: bool,
    sram_dirty: bool,
    frame_count: u64,
) -> bool {
    frame_complete && has_battery && frame_count % 60 == 30 && sram_dirty
}

/// Decides what the frame loop does after one CPU instruction: a completed
/// frame is rendered and advances the RTC and the frame counter, and dirty
/// battery-backed SRAM is persisted on the frame at 30 modulo 60.
pub fn plan_tick(frame_complete: bool, has_battery: bool, sram_dirty: bool, frame_count: u64)
    -> (r: TickPlan)
    requires
        frame_count < u64::MAX,
    ensures
        r.render_frame == frame_complete,
        r.advance_rtc == frame_complete,
        r.persist_sram == spec_persist_decision(
            frame_complete,
            has_battery,
            sram_dirty,
            frame_count,
        ),
        r.effect == (if frame_complete {
            TickEffect::FrameRendered
        } else {
            TickEffect::Idle
        }),
        r.next_frame_count == (if frame_complete {
            frame_count + 1
        } else {
            frame_count as int
        }),
{
    if frame_complete {
        TickPlan {
            render_frame: true,
            advance_rtc: true,
            persist_sram: has_battery && frame_count % 60 == 30 && sram_dirty,
            effect: TickEffect::FrameRendered,
            next_frame_count: frame_count + 1,
        }
    } else {
        TickPlan {
            render_frame: false,
            advance_rtc: false,
            persist_sram: false,
            effect: TickEffect::Idle,
            next_frame_count: frame_count,
        }
    }
}

/// Law: persistence is idempotent. Persisting dirty SRAM hands out the RAM
/// image and acknowledges with `clear_cartridge_ram_dirty`; a second persist
/// of the same memory yields identical bytes, and since the first persist
/// already cleared the dirty flag, the frame loop never decides to persist
/// again until a new write dirties the RAM.
pub proof fn lemma_persistence_idempotent(m0: Memory, m1: Memory)
    requires
        m0.cartridge.ram_dirty,
        // `m1` is `m0` after the first persist was acknowledged
        m1 == (Memory {
            cartridge: Cartridge { ram_dirty: false, ..m0.cartridge },
            ..m0
        }),
    ensures
        m1.cartridge.ram@ == m0.cartridge.ram@,
        !m1.cartridge.ram_dirty,
        forall|frame_complete: bool, has_battery: bool, frame_count: u64|
            !spec_persist_decision(
                frame_complete,
                has_battery,
                m1.cartridge.ram_dirty,
                frame_count,
            ),
{
}

} // verus!
