//! Frontend decision logic: hardware selection by file extension, the
//! Steam Deck display fingerprint, and configuration reload.

use vstd::prelude::*;

use vstd::string::StringSliceAdditionalSpecFns;

use crate::genesis::TimingMode;

verus! {

/// Which console an SMS/GG ROM targets.
#[derive(Debug, Clone, Copy, PartialEq, Eq, Structural)]
pub enum SmsGgHardware {
    MasterSystem,
    GameGear,
}

/// ASCII upper-case letters folded to lower case; other bytes unchanged.
pub open spec fn spec_ascii_lower(b: u8) -> u8 {
    if 0x41 <= b <= 0x5A {
        (b + 0x20) as u8
    } else {
        b
    }
}

/// The hardware a file extension selects: `sms` (any case) is a Master
/// System ROM, `gg` a Game Gear ROM, and anything else defaults to the
/// Master System.
pub open spec fn spec_hardware_for_ext(bytes: Seq<u8>) -> SmsGgHardware {
    if bytes.len() == 3 && spec_ascii_lower(bytes[0]) == 0x73 && spec_ascii_lower(bytes[1])
        == 0x6D && spec_ascii_lower(bytes[2]) == 0x73 {
        SmsGgHardware::MasterSystem
    } else if bytes.len() == 2 && spec_ascii_lower(bytes[0]) == 0x67 && spec_ascii_lower(
        bytes[1],
    ) == 0x67 {
        SmsGgHardware::GameGear
    } else {
        SmsGgHardware::MasterSystem
    }
}

/// Folds one byte to ASCII lower case.
fn ascii_lower(b: u8) -> (r: u8)
    ensures
        r == spec_ascii_lower(b),
{
    if 0x41 <= b && b <= 0x5A {
        b + 0x20
    } else {
        b
    }
}

/// Picks the hardware for a ROM file extension, case-insensitively.
pub fn hardware_for_ext(extension: &str) -> (r: SmsGgHardware)
    ensures
        r == spec_hardware_for_ext(extension.spec_bytes()),
{
    let bytes = extension.as_bytes();
    if bytes.len() == 3 && ascii_lower(bytes[0]) == 0x73 && ascii_lower(bytes[1]) == 0x6D
        && ascii_lower(bytes[2]) == 0x73 {
        SmsGgHardware::MasterSystem
    } else if bytes.len() == 2 && ascii_lower(bytes[0]) == 0x67 && ascii_lower(bytes[1]) == 0x67 {
        SmsGgHardware::GameGear
    } else {
        SmsGgHardware::MasterSystem
    }
}

/// The display-name bytes a Steam Deck's internal panel reports in its
/// EDID: the descriptor tag `0xFC 0x00` followed by `ANX7530 U` and a line
/// feed.
pub open spec fn spec_is_steam_deck_edid(edid: Seq<u8>) -> bool {
    &&& edid.len() >= 87
    &&& edid[75] == 0xFCu8
    &&& edid[76] == 0x00u8
    &&& edid[77] == 0x41u8
    &&& edid[78] == 0x4Eu8
    &&& edid[79] == 0x58u8
    &&& edid[80] == 0x37u8
    &&& edid[81] == 0x35u8
    &&& edid[82] == 0x33u8
    &&& edid[83] == 0x30u8
    &&& edid[84] == 0x20u8
    &&& edid[85] == 0x55u8
    &&& edid[86] == 0x0Au8
}

/// Recognizes the Steam Deck's internal panel by the display-name bytes of
/// its EDID, so the host can override a broken default display scale.
pub fn is_steam_deck_edid(edid: &[u8]) -> (r: bool)
    ensures
        r == spec_is_steam_deck_edid(edid@),
{
    edid.len() >= 87 && edid[75] == 0xFC && edid[76] == 0x00 && edid[77] == 0x41 && edid[78]
        == 0x4E && edid[79] == 0x58 && edid[80] == 0x37 && edid[81] == 0x35 && edid[82] == 0x33
        && edid[83] == 0x30 && edid[84] == 0x20 && edid[85] == 0x55 && edid[86] == 0x0A
}

/// The SMS/GG frontend configuration the reload path applies.
#[derive(Debug, Clone, Copy, PartialEq, Eq, Structural)]
pub struct SmsGgConfig {
    pub sms_timing_mode: TimingMode,
    pub fm_sound_unit_enabled: bool,
    pub boot_from_bios: bool,
    pub run_without_cartridge: bool,
    pub axis_deadzone: i16,
    pub z80_divider: u32,
}

/// Error surfaced when the audio backend cannot apply a new configuration.
#[derive(Debug, Clone, Copy, PartialEq, Eq, Structural)]
pub enum AudioError {
    BackendUnavailable,
}

/// The frontend state a configuration reload touches: the active config and
/// the generation counter of the input mappings built from it.
#[derive(Debug, Clone, Copy, PartialEq, Eq, Structural)]
pub struct NativeSmsGgEmulator {
    pub config: SmsGgConfig,
    pub input_mapping_generation: u64,
}

impl NativeSmsGgEmulator {
    pub fn new(config: SmsGgConfig) -> (r: NativeSmsGgEmulator)
        ensures
            r.config == config,
            r.input_mapping_generation == 0,
    {
        NativeSmsGgEmulator { config, input_mapping_generation: 0 }
    }

    /// Applies a reloaded configuration: rendering and audio parameters take
    /// effect immediately, and the input mappings are rebuilt from the new
    /// deadzone and bindings.
    pub fn reload_smsgg_config(&mut self, config: Box<SmsGgConfig>) -> (r: Result<
        (),
        AudioError,
    >)
        requires
            old(self).input_mapping_generation < u64::MAX,
        ensures
            r is Ok,
            final(self).config == *config,
            final(self).input_mapping_generation == old(self).input_mapping_generation + 1,
    {
        self.config = *config;
        self.input_mapping_generation = self.input_mapping_generation + 1;
        Ok(())
    }
}

} // verus!
