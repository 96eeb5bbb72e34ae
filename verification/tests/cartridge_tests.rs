use jgenesis_core::cartridge::{Cartridge, Mapper};
use jgenesis_core::memory::{Memory, SmsGgRegion};

fn sega_rom_64k() -> Vec<u8> {
    // A 64 KiB ROM whose Codemasters checksum does not match: mapper Sega.
    let mut rom = vec![0u8; 0x10000];
    rom[0] = 0x01; // unbalanced word, so the sum misses the checksum below
    rom[0x7FE6] = 0x34;
    rom[0x7FE7] = 0x12;
    rom
}

fn codemasters_rom_64k() -> Vec<u8> {
    // All words zero except one pair summing to 0 mod 2^16, so the word sum
    // excluding the checksum word itself is zero; then any stored checksum
    // matches itself.
    let mut rom = vec![0u8; 0x10000];
    rom[0] = 0x34;
    rom[1] = 0x12;
    rom[0x100] = 0xCC;
    rom[0x101] = 0xED;
    rom[0x7FE6] = 0x78;
    rom[0x7FE7] = 0x56;
    rom
}

#[test]
fn small_rom_is_never_codemasters() {
    let rom = vec![0xFFu8; 0x4000];
    assert_eq!(Mapper::detect_from_rom(&rom), Mapper::Sega);
}

#[test]
fn all_ff_32k_rom_detects_sega_with_default_banks() {
    let rom = vec![0xFFu8; 0x8000];
    let cart = Cartridge::new(rom, None);
    assert_eq!(cart.mapper, Mapper::Sega);
    assert_eq!(cart.rom_bank_0, 0);
    assert_eq!(cart.rom_bank_1, 1);
    assert_eq!(cart.rom_bank_2, 2);
    assert!(!cart.ram_mapped);
    assert!(!cart.ram_dirty);
}

#[test]
fn matching_checksum_detects_codemasters() {
    let cart = Cartridge::new(codemasters_rom_64k(), None);
    assert_eq!(cart.mapper, Mapper::Codemasters);
}

#[test]
fn mirroring_pads_to_next_power_of_two() {
    // 0x6000 bytes mirror up to 0x8000, repeating the image cyclically.
    let mut rom = vec![0u8; 0x6000];
    rom[0x123] = 0xAB;
    let cart = Cartridge::new(rom, None);
    assert_eq!(cart.rom.len(), 0x8000);
    assert_eq!(cart.rom.index(0x123), 0xAB);
    assert_eq!(cart.rom.index(0x6000 + 0x123), 0xAB);
}

#[test]
fn banked_read_uses_bank_register_and_mask() {
    let mut rom = sega_rom_64k();
    rom[0x8400] = 0x77; // bank 2, offset 0x400
    let mut mem = Memory::new(rom, None, None);

    // [0xFFFC]=0x08 maps RAM; [0xFFFD]=0x02 sets ROM bank 0 to 2.
    mem.write(0xFFFC, 0x08);
    mem.write(0xFFFD, 0x02);
    assert!(mem.cartridge.ram_mapped);
    assert_eq!(mem.cartridge.ram_bank, 0);
    assert_eq!(mem.cartridge.rom_bank_0, 2);

    // Reads from 0x0400 now go through bank 2: (2 << 14) | 0x400 = 0x8400.
    assert_eq!(mem.read(0x0400), 0x77);
}

#[test]
fn banked_window_reads_follow_the_documented_formula() {
    // Fill a 64 KiB ROM with a position-dependent pattern and check the
    // bank-1 window against rom[((bank << 14) | (addr & 0x3FFF)) & (len-1)].
    let mut rom = sega_rom_64k();
    for (i, byte) in rom.iter_mut().enumerate() {
        *byte = (i % 251) as u8;
    }
    if Mapper::detect_from_rom(&rom) != Mapper::Sega {
        rom[2] ^= 1; // break an accidental Codemasters checksum match
    }
    let mut mem = Memory::new(rom.clone(), None, None);
    mem.write(0xFFFE, 0x03); // ROM bank 1 := 3

    for addr in [0x4000u16, 0x4123, 0x7FFF] {
        let rom_addr = ((3u32 << 14) | u32::from(addr & 0x3FFF)) as usize & (rom.len() - 1);
        assert_eq!(mem.read(addr), rom[rom_addr]);
    }

    // The first 1 KiB of the Sega mapper is unbanked.
    assert_eq!(mem.read(0x0123), rom[0x0123]);
}

#[test]
fn sega_sram_read_back_survives_bank_changes() {
    let rom = sega_rom_64k();
    let mut mem = Memory::new(rom, None, None);
    mem.write(0xFFFC, 0x08); // map RAM
    mem.write(0x8123, 0x5A); // lands in cartridge RAM
    assert!(mem.cartridge.ram_dirty);

    // Change the ROM bank registers; the RAM byte must read back unchanged.
    mem.write(0xFFFD, 0x07);
    mem.write(0xFFFE, 0x05);
    mem.write(0xFFFF, 0x03);
    assert_eq!(mem.read(0x8123), 0x5A);
}

#[test]
fn codemasters_ram_mirrors_at_low_13_bits() {
    let rom = codemasters_rom_64k();
    let mut mem = Memory::new(rom, None, None);

    // A write in 0x4000..=0x7FFF sets bank 1 and maps RAM from bit 7.
    mem.write(0x4000, 0x81);
    assert!(mem.cartridge.ram_mapped);
    assert_eq!(mem.cartridge.rom_bank_1, 0x81);

    mem.write(0xA123, 0xC3);
    assert_eq!(mem.cartridge.ram[0x0123], 0xC3);

    // Changing bank 2 must not disturb the mapped RAM byte.
    mem.write(0x8000, 0x3F);
    assert_eq!(mem.cartridge.rom_bank_2, 0x3F);
    assert_eq!(mem.read(0xA123), 0xC3);
}

#[test]
fn boot_without_bios_and_cartridge_reads_open_bus() {
    let rom = sega_rom_64k();
    let mut mem = Memory::new(rom, None, None);
    mem.memory_control().cartridge_enabled = false;
    assert_eq!(mem.read(0x0000), 0xFF);
    // RAM byte 0 is pre-seeded with the value the BIOS would have written.
    assert_eq!(mem.read(0xC000), 0xAB);
}

#[test]
fn overlapping_bios_and_cartridge_reads_and_bytes() {
    let mut rom = sega_rom_64k();
    rom[0x10] = 0xF0;
    let bios = {
        let mut b = vec![0u8; 0x2000];
        b[0x10] = 0x3C;
        b
    };
    let mut mem = Memory::new(rom, Some(bios), None);
    // Boots from BIOS only.
    assert_eq!(mem.read(0x10), 0x3C);
    // With both sources enabled, the byte is the AND of the two.
    mem.memory_control().cartridge_enabled = true;
    assert_eq!(mem.read(0x10), 0xF0 & 0x3C);
}

#[test]
fn rom_crc32_matches_iso_hdlc_reference() {
    // CRC-32/ISO-HDLC check value for "123456789" is 0xCBF43926; embed that
    // probe at the head of a 1 KiB image and cross-check with the crc crate.
    let mut rom = vec![0u8; 0x400];
    rom[..9].copy_from_slice(b"123456789");
    let expected = crc::Crc::<u32>::new(&crc::CRC_32_ISO_HDLC).checksum(&rom);
    let cart = Cartridge::new(rom.clone(), None);
    assert_eq!(cart.rom_crc32, expected);

    let probe = crc::Crc::<u32>::new(&crc::CRC_32_ISO_HDLC).checksum(b"123456789");
    assert_eq!(probe, 0xCBF43926);
}

#[test]
fn crc32_survives_persist_and_reload() {
    let rom = sega_rom_64k();
    let mut mem = Memory::new(rom, None, None);
    let crc_before = mem.cartridge.rom_crc32;

    let (rom, bios, ram) = mem.take_cartridge_rom_and_ram();
    assert!(bios.is_none());
    let mem2 = Memory::new(rom, None, Some(ram));
    assert_eq!(mem2.cartridge.rom_crc32, crc_before);
}

#[test]
fn sram_image_round_trips_through_reload() {
    let rom = sega_rom_64k();
    let mut mem = Memory::new(rom, None, None);
    mem.write(0xFFFC, 0x08);
    mem.write(0x8123, 0x5A);

    let (rom, _bios, ram) = mem.take_cartridge_rom_and_ram();
    let mut mem2 = Memory::new(rom, None, Some(ram));
    mem2.write(0xFFFC, 0x08);
    assert_eq!(mem2.read(0x8123), 0x5A);
}

#[test]
fn persistence_clears_dirty_and_is_idempotent() {
    let rom = sega_rom_64k();
    let mut mem = Memory::new(rom, None, None);
    mem.write(0xFFFC, 0x08);
    mem.write(0x9000, 0x11);
    assert!(mem.cartridge_ram_dirty());

    let first: Vec<u8> = mem.cartridge_ram().to_vec();
    mem.clear_cartridge_ram_dirty();
    assert!(!mem.cartridge_ram_dirty());

    let second: Vec<u8> = mem.cartridge_ram().to_vec();
    assert_eq!(first, second);
}

#[test]
fn audio_control_round_trip() {
    let rom = sega_rom_64k();
    let mut mem = Memory::new(rom, None, None);
    assert!(!mem.fm_enabled());
    assert!(mem.psg_enabled());
    assert_eq!(mem.read_audio_control(), 0x00);

    mem.write_audio_control(0x01);
    assert!(mem.fm_enabled());
    assert!(!mem.psg_enabled());
    assert_eq!(mem.read_audio_control(), 0x01);

    mem.write_audio_control(0x03);
    assert!(mem.fm_enabled());
    assert!(mem.psg_enabled());
    assert_eq!(mem.read_audio_control(), 0x03);

    mem.write_audio_control(0x02);
    assert!(!mem.fm_enabled());
    assert!(!mem.psg_enabled());
    assert_eq!(mem.read_audio_control(), 0x02);
}

#[test]
fn region_guessed_from_header() {
    let mut rom = sega_rom_64k();
    rom[0x7FF0..0x7FF8].copy_from_slice(b"TMR SEGA");
    rom[0x7FFF] = 0x40; // region code 4: export
    let mem = Memory::new(rom, None, None);
    assert_eq!(mem.guess_cartridge_region(), SmsGgRegion::International);

    let mut rom = sega_rom_64k();
    rom[0x7FF0..0x7FF8].copy_from_slice(b"TMR SEGA");
    rom[0x7FFF] = 0x30; // region code 3: domestic
    let mem = Memory::new(rom, None, None);
    assert_eq!(mem.guess_cartridge_region(), SmsGgRegion::Domestic);

    // No header at all: assume Domestic.
    let mem = Memory::new(sega_rom_64k(), None, None);
    assert_eq!(mem.guess_cartridge_region(), SmsGgRegion::Domestic);
}

#[test]
fn gg_registers_and_bios_banking() {
    let rom = sega_rom_64k();
    let mut mem = Memory::new(rom, None, None);
    assert_eq!(mem.gg_registers().ext_port, 0x7F);
    mem.gg_registers().ext_port = 0x55;
    assert_eq!(mem.gg_registers().ext_port, 0x55);

    // A BIOS larger than 32 KiB is banked; bank registers load from writes
    // to 0xFFFD..=0xFFFF while the BIOS is enabled.
    let mut bios = vec![0u8; 0x10000];
    bios[0x8400] = 0x99; // bank 2, offset 0x400
    let mut mem = Memory::new(sega_rom_64k(), Some(bios), None);
    mem.write(0xFFFD, 0x02); // BIOS bank 0 now points at bank 2
    assert_eq!(mem.read(0x0400), 0x99);
}

#[test]
fn ram_mapped_write_marks_battery() {
    let rom = sega_rom_64k();
    let mut mem = Memory::new(rom, None, None);
    assert!(!mem.cartridge_has_battery());
    mem.write(0xFFFC, 0x08);
    assert!(mem.cartridge_has_battery());
}

#[test]
fn take_rom_from_moves_the_image() {
    let mut a = Memory::new(sega_rom_64k(), None, None);
    let mut b = Memory::new(codemasters_rom_64k(), None, None);
    let b_len = b.cartridge.rom.len();
    a.take_rom_from(&mut b);
    assert_eq!(a.cartridge.rom.len(), b_len);
    assert_eq!(b.cartridge.rom.len(), 0);
}
