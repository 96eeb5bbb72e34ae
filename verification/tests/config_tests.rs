use jgenesis_core::frontend::{
    hardware_for_ext, is_steam_deck_edid, NativeSmsGgEmulator, SmsGgConfig, SmsGgHardware,
};
use jgenesis_core::gb::{
    hardware_mode_for, plan_tick, HardwareMode, SoftwareType, TickEffect,
};
use jgenesis_core::genesis::{
    FrameSize, GenesisAspectRatio, PixelAspectRatio, TimingMode,
};

#[test]
fn h40_aspect_ratio_table() {
    assert_eq!(
        GenesisAspectRatio::Ntsc.to_h40_pixel_aspect_ratio(TimingMode::Ntsc),
        Some(PixelAspectRatio { numerator: 32, denominator: 35 })
    );
    assert_eq!(
        GenesisAspectRatio::Pal.to_h40_pixel_aspect_ratio(TimingMode::Ntsc),
        Some(PixelAspectRatio { numerator: 11, denominator: 10 })
    );
    assert_eq!(
        GenesisAspectRatio::SquarePixels.to_h40_pixel_aspect_ratio(TimingMode::Pal),
        Some(PixelAspectRatio { numerator: 1, denominator: 1 })
    );
    assert_eq!(GenesisAspectRatio::Stretched.to_h40_pixel_aspect_ratio(TimingMode::Ntsc), None);
    // Auto resolves by timing standard.
    assert_eq!(
        GenesisAspectRatio::Auto.to_h40_pixel_aspect_ratio(TimingMode::Pal),
        Some(PixelAspectRatio { numerator: 11, denominator: 10 })
    );
}

#[test]
fn width_dependent_aspect_ratio_table() {
    let h224 = |width| FrameSize { width, height: 224 };
    assert_eq!(
        GenesisAspectRatio::Ntsc.to_pixel_aspect_ratio(TimingMode::Ntsc, h224(256), false),
        Some(PixelAspectRatio { numerator: 8, denominator: 7 })
    );
    assert_eq!(
        GenesisAspectRatio::Ntsc.to_pixel_aspect_ratio(TimingMode::Ntsc, h224(320), false),
        Some(PixelAspectRatio { numerator: 32, denominator: 35 })
    );
    assert_eq!(
        GenesisAspectRatio::Pal.to_pixel_aspect_ratio(TimingMode::Pal, h224(256), false),
        Some(PixelAspectRatio { numerator: 11, denominator: 8 })
    );
    // An unexpected width has no defined ratio.
    assert_eq!(
        GenesisAspectRatio::Ntsc.to_pixel_aspect_ratio(TimingMode::Ntsc, h224(300), false),
        None
    );
    // Interlaced double-resolution frames double the ratio.
    let tall = FrameSize { width: 320, height: 448 };
    assert_eq!(
        GenesisAspectRatio::Ntsc.to_pixel_aspect_ratio(TimingMode::Ntsc, tall, true),
        Some(PixelAspectRatio { numerator: 64, denominator: 35 })
    );
    // Stretched means no ratio, stretch to the window.
    assert_eq!(
        GenesisAspectRatio::Stretched.to_pixel_aspect_ratio(TimingMode::Ntsc, h224(320), false),
        None
    );
}

#[test]
fn extension_selects_hardware_case_insensitively() {
    assert_eq!(hardware_for_ext("sms"), SmsGgHardware::MasterSystem);
    assert_eq!(hardware_for_ext("SMS"), SmsGgHardware::MasterSystem);
    assert_eq!(hardware_for_ext("gg"), SmsGgHardware::GameGear);
    assert_eq!(hardware_for_ext("Gg"), SmsGgHardware::GameGear);
    assert_eq!(hardware_for_ext("bin"), SmsGgHardware::MasterSystem);
    assert_eq!(hardware_for_ext(""), SmsGgHardware::MasterSystem);
}

#[test]
fn steam_deck_edid_fingerprint() {
    let mut edid = vec![0u8; 128];
    edid[75..87].copy_from_slice(&[
        0xFC, 0x00, 0x41, 0x4E, 0x58, 0x37, 0x35, 0x33, 0x30, 0x20, 0x55, 0x0A,
    ]);
    assert!(is_steam_deck_edid(&edid));

    edid[80] = 0x38;
    assert!(!is_steam_deck_edid(&edid));
    assert!(!is_steam_deck_edid(&[0u8; 40]));
}

#[test]
fn hardware_mode_selection() {
    assert_eq!(hardware_mode_for(true, SoftwareType::CgbOnly), HardwareMode::Dmg);
    assert_eq!(hardware_mode_for(false, SoftwareType::DmgOnly), HardwareMode::Dmg);
    assert_eq!(hardware_mode_for(false, SoftwareType::CgbEnhanced), HardwareMode::Cgb);
    assert_eq!(hardware_mode_for(false, SoftwareType::CgbOnly), HardwareMode::Cgb);
}

#[test]
fn tick_plan_persists_only_at_frame_30_of_60() {
    // No frame completed: nothing happens.
    let plan = plan_tick(false, true, true, 30);
    assert!(!plan.render_frame);
    assert!(!plan.persist_sram);
    assert_eq!(plan.effect, TickEffect::Idle);
    assert_eq!(plan.next_frame_count, 30);

    // Frame complete at the persist boundary with dirty battery RAM.
    let plan = plan_tick(true, true, true, 30);
    assert!(plan.render_frame);
    assert!(plan.advance_rtc);
    assert!(plan.persist_sram);
    assert_eq!(plan.effect, TickEffect::FrameRendered);
    assert_eq!(plan.next_frame_count, 31);

    // Same boundary on the next minute of frames.
    assert!(plan_tick(true, true, true, 90).persist_sram);

    // Off-boundary, not dirty, or no battery: no persist.
    assert!(!plan_tick(true, true, true, 31).persist_sram);
    assert!(!plan_tick(true, true, false, 30).persist_sram);
    assert!(!plan_tick(true, false, true, 30).persist_sram);
}

#[test]
fn config_reload_applies_immediately() {
    let initial = SmsGgConfig {
        sms_timing_mode: TimingMode::Ntsc,
        fm_sound_unit_enabled: false,
        boot_from_bios: false,
        run_without_cartridge: false,
        axis_deadzone: 8000,
        z80_divider: 15,
    };
    let mut emulator = NativeSmsGgEmulator::new(initial);
    assert_eq!(emulator.input_mapping_generation, 0);

    let reloaded = SmsGgConfig { fm_sound_unit_enabled: true, axis_deadzone: 4000, ..initial };
    let result = emulator.reload_smsgg_config(Box::new(reloaded));
    assert!(result.is_ok());
    assert_eq!(emulator.config, reloaded);
    assert_eq!(emulator.input_mapping_generation, 1);
}
