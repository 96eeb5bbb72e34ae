//! Sega Master System / Game Gear memory map: cartridge slot, BIOS overlay,
//! system RAM, and the memory-mapped control registers.

use vstd::prelude::*;

use crate::bits::{bit_u8, spec_bit_u8};
use crate::cartridge::{zero_vec, Cartridge, Mapper, Rom, MAX_ROM_SIZE};

verus! {

/// Size of the on-board system RAM.
pub const SYSTEM_RAM_SIZE: usize = 0x2000;

/// Cartridge region read from the Sega header.
#[derive(Debug, Clone, Copy, PartialEq, Eq, Structural)]
pub enum SmsGgRegion {
    Domestic,
    International,
}

/// State of the FM expansion and PSG audio enable bits.
#[derive(Debug, Clone, Copy, PartialEq, Eq, Structural)]
pub struct AudioControl {
    pub fm_enabled: bool,
    pub psg_enabled: bool,
}

impl Default for AudioControl {
    /// At power-on the PSG is audible and the FM unit is off.
    fn default() -> (r: Self)
        ensures
            !r.fm_enabled,
            r.psg_enabled,
    {
        Self { fm_enabled: false, psg_enabled: true }
    }
}

/// Which of the two overlapping ROM sources answer slot reads.
#[derive(Debug, Clone, Copy, PartialEq, Eq, Structural)]
pub struct MemoryControl {
    pub cartridge_enabled: bool,
    pub bios_enabled: bool,
}

impl MemoryControl {
    /// With a BIOS present the machine boots from it; without one the
    /// cartridge answers from the start.
    pub fn new(bios_rom: Option<&Vec<u8>>) -> (r: Self)
        ensures
            r.cartridge_enabled == (bios_rom is None),
            r.bios_enabled == (bios_rom is Some),
    {
        match bios_rom {
            Some(_) => Self { cartridge_enabled: false, bios_enabled: true },
            None => Self { cartridge_enabled: true, bios_enabled: false },
        }
    }
}

/// Game Gear specific I/O registers.
#[derive(Debug, Clone, Copy, PartialEq, Eq, Structural)]
pub struct GameGearRegisters {
    pub ext_port: u8,
}

impl GameGearRegisters {
    pub fn new() -> (r: Self)
        ensures
            r.ext_port == 0x7F,
    {
        Self { ext_port: 0x7F }
    }
}

/// The full SMS / Game Gear memory map.
#[derive(Debug, Clone)]
pub struct Memory {
    pub cartridge: Cartridge,
    pub bios_rom: Option<Vec<u8>>,
    pub bios_rom_banks: [u32; 3],
    pub ram: Vec<u8>,
    pub memory_control: MemoryControl,
    pub audio_control: AudioControl,
    pub gg_registers: GameGearRegisters,
}

/// The bytes of the string `TMR SEGA` stand at `start`.
pub open spec fn tmr_sega_at(rom: Seq<u8>, start: int) -> bool {
    &&& rom[start] == 0x54u8
    &&& rom[start + 1] == 0x4Du8
    &&& rom[start + 2] == 0x52u8
    &&& rom[start + 3] == 0x20u8
    &&& rom[start + 4] == 0x53u8
    &&& rom[start + 5] == 0x45u8
    &&& rom[start + 6] == 0x47u8
    &&& rom[start + 7] == 0x41u8
}

/// The region encoded by a valid Sega header at `start`, if one is there.
pub open spec fn spec_region_at(rom: Seq<u8>, start: int) -> Option<SmsGgRegion> {
    if rom.len() < start + 16 || !tmr_sega_at(rom, start) {
        Option::None
    } else {
        let code = rom[start + 15] >> 4;
        if code == 3 || code == 5 {
            Option::Some(SmsGgRegion::Domestic)
        } else if code == 4 || code == 6 || code == 7 {
            Option::Some(SmsGgRegion::International)
        } else {
            Option::None
        }
    }
}

/// Region guessed from the first valid header among the three known header
/// locations; Domestic when none is found.
pub open spec fn spec_guess_region(rom: Seq<u8>) -> SmsGgRegion {
    if spec_region_at(rom, 0x7FF0) is Some {
        spec_region_at(rom, 0x7FF0)->Some_0
    } else if spec_region_at(rom, 0x3FF0) is Some {
        spec_region_at(rom, 0x3FF0)->Some_0
    } else if spec_region_at(rom, 0x1FF0) is Some {
        spec_region_at(rom, 0x1FF0)->Some_0
    } else {
        SmsGgRegion::Domestic
    }
}

/// Checks one candidate header location.
fn region_at(rom: &Vec<u8>, start: usize) -> (r: Option<SmsGgRegion>)
    requires
        start + 16 <= usize::MAX,
    ensures
        r == spec_region_at(rom@, start as int),
{
    if rom.len() < start + 16 {
        return None;
    }
    let header_ok = rom[start] == 0x54 && rom[start + 1] == 0x4D && rom[start + 2] == 0x52
        && rom[start + 3] == 0x20 && rom[start + 4] == 0x53 && rom[start + 5] == 0x45
        && rom[start + 6] == 0x47 && rom[start + 7] == 0x41;
    if !header_ok {
        return None;
    }
    let code = rom[start + 15] >> 4;
    if code == 3 || code == 5 {
        Some(SmsGgRegion::Domestic)
    } else if code == 4 || code == 6 || code == 7 {
        Some(SmsGgRegion::International)
    } else {
        None
    }
}

/// How a slot write changes the cartridge, given the active mapper.
pub open spec fn cartridge_write_rel(
    c: Cartridge,
    d: Cartridge,
    enabled: bool,
    address: u16,
    value: u8,
) -> bool {
    if !enabled {
        d == c
    } else {
        match c.mapper {
            Mapper::Sega => {
                if 0x8000 <= address && address < 0xC000 {
                    write_ram_rel(c, d, address, value)
                } else if address == 0xFFFC {
                    d == (Cartridge {
                        ram_mapped: spec_bit_u8(value, 3),
                        has_battery: c.has_battery || spec_bit_u8(value, 3),
                        ram_bank: if spec_bit_u8(value, 2) { 1u32 } else { 0u32 },
                        ..c
                    })
                } else if address == 0xFFFD {
                    d == (Cartridge { rom_bank_0: value as u32, ..c })
                } else if address == 0xFFFE {
                    d == (Cartridge { rom_bank_1: value as u32, ..c })
                } else if address == 0xFFFF {
                    d == (Cartridge { rom_bank_2: value as u32, ..c })
                } else {
                    d == c
                }
            },
            Mapper::Codemasters => {
                if address < 0x4000 {
                    d == (Cartridge { rom_bank_0: value as u32, ..c })
                } else if address < 0x8000 {
                    d == (Cartridge {
                        rom_bank_1: value as u32,
                        ram_mapped: spec_bit_u8(value, 7),
                        has_battery: c.has_battery || spec_bit_u8(value, 7),
                        ..c
                    })
                } else if address < 0xA000 {
                    d == (Cartridge { rom_bank_2: value as u32, ..c })
                } else if address < 0xC000 {
                    if c.ram_mapped {
                        write_ram_rel(c, d, address, value)
                    } else {
                        d == (Cartridge { rom_bank_2: value as u32, ..c })
                    }
                } else {
                    d == c
                }
            },
        }
    }
}

/// Effect of `Cartridge::write_ram` on the cartridge state.
pub open spec fn write_ram_rel(c: Cartridge, d: Cartridge, address: u16, value: u8) -> bool {
    if c.ram_mapped {
        &&& d.ram@ == c.ram@.update(c.spec_ram_addr(address), value)
        &&& d.ram_dirty
        &&& d.has_battery == c.has_battery
        &&& Cartridge::same_mapper_state(c, d)
    } else {
        d == c
    }
}

impl Memory {
    /// Well-formedness of the whole memory map.
    pub open spec fn wf(self) -> bool {
        &&& self.cartridge.wf()
        &&& self.ram@.len() == SYSTEM_RAM_SIZE
        &&& forall|i: int| 0 <= i < 3 ==> self.bios_rom_banks@[i] < 0x100
        &&& (self.bios_rom matches Some(b) ==> 1 <= b@.len() <= MAX_ROM_SIZE)
    }

    /// The byte a BIOS read of `address` returns: the plain byte for a 32 KiB
    /// image, the banked byte for a larger one, and `0xFF` with no BIOS.
    pub open spec fn spec_read_bios(self, address: u16) -> u8 {
        match self.bios_rom {
            Option::None => 0xFF,
            Option::Some(bios) => {
                let baddr: u32 = if bios@.len() > 0x8000 {
                    if address < 0x0400 {
                        address as u32
                    } else {
                        (self.bios_rom_banks@[(address / 0x4000) as int] << 14)
                            | ((address & 0x3FFF) as u32)
                    }
                } else {
                    address as u32
                };
                bios@[(baddr & ((bios@.len() - 1) as u32)) as int]
            },
        }
    }

    /// The byte a slot read of `address` returns: the AND of the overlapping
    /// enabled sources below `0xC000` (open-bus pull-ups), `0xFF` when none
    /// is enabled, and mirrored system RAM above.
    pub open spec fn spec_read(self, address: u16) -> u8 {
        if address < 0xC000 {
            if self.memory_control.cartridge_enabled {
                if self.memory_control.bios_enabled {
                    self.cartridge.spec_read(address) & self.spec_read_bios(address)
                } else {
                    self.cartridge.spec_read(address)
                }
            } else if self.memory_control.bios_enabled {
                self.spec_read_bios(address)
            } else {
                0xFF
            }
        } else {
            self.ram@[(address & 0x1FFF) as int]
        }
    }

    /// Builds the memory map. With no BIOS present, RAM byte 0 is pre-seeded
    /// with `0xAB`, the value a BIOS would have left there.
    pub fn new(rom: Vec<u8>, bios_rom: Option<Vec<u8>>, initial_cartridge_ram: Option<Vec<u8>>)
        -> (r: Memory)
        requires
            0x400 <= rom@.len() <= MAX_ROM_SIZE,
            (bios_rom matches Some(b) ==> 1 <= b@.len() <= MAX_ROM_SIZE),
        ensures
            r.wf(),
            r.cartridge.mapper == crate::cartridge::spec_detect_mapper(rom@),
            r.cartridge.rom_crc32 == crate::cartridge::crc32_of(rom@),
            rom@.len() <= r.cartridge.rom.0@.len() < 2 * rom@.len(),
            forall|i: int|
                0 <= i < r.cartridge.rom.0@.len()
                    ==> r.cartridge.rom.0@[i] == rom@[i % rom@.len() as int],
            (match initial_cartridge_ram {
                Some(ram) => if ram@.len() == crate::cartridge::CARTRIDGE_RAM_SIZE {
                    r.cartridge.ram@ == ram@
                } else {
                    r.cartridge.ram@ == Seq::new(
                        crate::cartridge::CARTRIDGE_RAM_SIZE as nat,
                        |i: int| 0u8,
                    )
                },
                None => r.cartridge.ram@ == Seq::new(
                    crate::cartridge::CARTRIDGE_RAM_SIZE as nat,
                    |i: int| 0u8,
                ),
            }),
            r.cartridge.rom_bank_0 == 0 && r.cartridge.rom_bank_1 == 1
                && r.cartridge.rom_bank_2 == 2,
            !r.cartridge.ram_mapped && !r.cartridge.ram_dirty && !r.cartridge.has_battery,
            r.cartridge.ram_bank == 0,
            r.bios_rom == bios_rom,
            r.bios_rom_banks@ == seq![0u32, 1u32, 2u32],
            r.ram@ == (if bios_rom is None {
                Seq::new(SYSTEM_RAM_SIZE as nat, |i: int| 0u8).update(0, 0xABu8)
            } else {
                Seq::new(SYSTEM_RAM_SIZE as nat, |i: int| 0u8)
            }),
            r.memory_control.cartridge_enabled == (bios_rom is None),
            r.memory_control.bios_enabled == (bios_rom is Some),
            !r.audio_control.fm_enabled && r.audio_control.psg_enabled,
            r.gg_registers.ext_port == 0x7F,
    {
        let memory_control = MemoryControl::new(bios_rom.as_ref());

        let mut ram = zero_vec(SYSTEM_RAM_SIZE);
        if bios_rom.is_none() {
            // Some BIOS versions write their last port $3E write to the
            // beginning of RAM; mimic this if no BIOS is present.
            //   0xAB = cartridge port enabled, RAM enabled, everything else
            //   disabled
            ram[0] = 0xAB;
        }

        Memory {
            cartridge: Cartridge::new(rom, initial_cartridge_ram),
            bios_rom,
            bios_rom_banks: [0, 1, 2],
            ram,
            memory_control,
            audio_control: AudioControl::default(),
            gg_registers: GameGearRegisters::new(),
        }
    }

    /// Reads the byte mapped at `address`.
    pub fn read(&self, address: u16) -> (r: u8)
        requires
            self.wf(),
        ensures
            r == self.spec_read(address),
    {
        if address < 0xC000 {
            if self.memory_control.cartridge_enabled {
                let cartridge_byte = self.cartridge.read(address);
                if self.memory_control.bios_enabled {
                    // Cartridge and BIOS are both enabled; return logical AND
                    // of their bytes
                    let bios_byte = self.read_bios(address);
                    cartridge_byte & bios_byte
                } else {
                    cartridge_byte
                }
            } else if self.memory_control.bios_enabled {
                self.read_bios(address)
            } else {
                0xFF
            }
        } else {
            let ram_addr = address & 0x1FFF;
            proof {
                assert((address & 0x1FFF) < 0x2000) by (bit_vector);
            }
            self.ram[ram_addr as usize]
        }
    }

    /// Reads the BIOS byte mapped at `address`.
    fn read_bios(&self, address: u16) -> (r: u8)
        requires
            self.wf(),
            address < 0xC000,
        ensures
            r == self.spec_read_bios(address),
    {
        let bios_rom = match &self.bios_rom {
            Some(b) => b,
            None => {
                return 0xFF;
            },
        };

        let bios_addr: u32 = if bios_rom.len() > 0x8000 {
            if address < 0x0400 {
                address as u32
            } else {
                let rom_bank_idx = address / 0x4000;
                let rom_bank = self.bios_rom_banks[rom_bank_idx as usize];
                (rom_bank << 14) | ((address & 0x3FFF) as u32)
            }
        } else {
            address as u32
        };

        let mask = (bios_rom.len() - 1) as u32;
        let idx = bios_addr & mask;
        proof {
            assert(bios_addr & mask <= mask) by (bit_vector);
        }
        bios_rom[idx as usize]
    }

    /// Performs the slot write of `value` at `address`: system RAM above
    /// `0xC000`, the BIOS bank registers while the BIOS is enabled, and the
    /// active mapper's registers or mapped RAM.
    pub fn write(&mut self, address: u16, value: u8)
        requires
            old(self).wf(),
        ensures
            final(self).wf(),
            final(self).ram@ == (if address >= 0xC000 {
                old(self).ram@.update((address & 0x1FFF) as int, value)
            } else {
                old(self).ram@
            }),
            final(self).bios_rom == old(self).bios_rom,
            final(self).bios_rom_banks@ == (if old(self).memory_control.bios_enabled
                && address >= 0xFFFD {
                old(self).bios_rom_banks@.update((address - 0xFFFD) as int, value as u32)
            } else {
                old(self).bios_rom_banks@
            }),
            final(self).memory_control == old(self).memory_control,
            final(self).audio_control == old(self).audio_control,
            final(self).gg_registers == old(self).gg_registers,
            cartridge_write_rel(
                old(self).cartridge,
                final(self).cartridge,
                old(self).memory_control.cartridge_enabled,
                address,
                value,
            ),
    {
        if address >= 0xC000 {
            let ram_addr = address & 0x1FFF;
            proof {
                assert((address & 0x1FFF) < 0x2000) by (bit_vector);
            }
            self.ram[ram_addr as usize] = value;
        }

        if self.memory_control.bios_enabled && address >= 0xFFFD {
            self.bios_rom_banks[(address - 0xFFFD) as usize] = value as u32;
        }

        if !self.memory_control.cartridge_enabled {
            return;
        }

        match (self.cartridge.mapper, address) {
            (Mapper::Sega, 0x8000..=0xBFFF) => {
                self.cartridge.write_ram(address, value);
            },
            (Mapper::Sega, 0xFFFC) => {
                self.cartridge.set_ram_mapped(bit_u8(value, 3));
                self.cartridge.ram_bank = if bit_u8(value, 2) {
                    1
                } else {
                    0
                };
            },
            (Mapper::Sega, 0xFFFD) | (Mapper::Codemasters, 0x0000..=0x3FFF) => {
                self.cartridge.rom_bank_0 = value as u32;
            },
            (Mapper::Sega, 0xFFFE) => {
                self.cartridge.rom_bank_1 = value as u32;
            },
            (Mapper::Sega, 0xFFFF) | (Mapper::Codemasters, 0x8000..=0x9FFF) => {
                self.cartridge.rom_bank_2 = value as u32;
            },
            (Mapper::Codemasters, 0x4000..=0x7FFF) => {
                self.cartridge.rom_bank_1 = value as u32;
                self.cartridge.set_ram_mapped(bit_u8(value, 7));
            },
            (Mapper::Codemasters, 0xA000..=0xBFFF) => {
                if self.cartridge.ram_mapped {
                    self.cartridge.write_ram(address, value);
                } else {
                    self.cartridge.rom_bank_2 = value as u32;
                }
            },
            _ => {},
        }
    }

    /// The current cartridge RAM image.
    pub fn cartridge_ram(&self) -> (r: &[u8])
        ensures
            r@ == self.cartridge.ram@,
    {
        self.cartridge.ram.as_slice()
    }

    pub fn cartridge_has_battery(&self) -> (r: bool)
        ensures
            r == self.cartridge.has_battery,
    {
        self.cartridge.has_battery
    }

    pub fn cartridge_ram_dirty(&self) -> (r: bool)
        ensures
            r == self.cartridge.ram_dirty,
    {
        self.cartridge.ram_dirty
    }

    /// Acknowledges a completed persist of the cartridge RAM.
    pub fn clear_cartridge_ram_dirty(&mut self)
        ensures
            *final(self) == (Memory {
                cartridge: Cartridge { ram_dirty: false, ..old(self).cartridge },
                ..*old(self)
            }),
    {
        self.cartridge.ram_dirty = false;
    }

    /// Moves the ROM image out of `other` into `self`; used when restoring a
    /// save state, whose snapshot does not carry the ROM.
    pub fn take_rom_from(&mut self, other: &mut Self)
        ensures
            *final(self) == (Memory {
                cartridge: Cartridge {
                    rom: old(other).cartridge.rom,
                    ..old(self).cartridge
                },
                ..*old(self)
            }),
            final(other).cartridge.rom.0@.len() == 0,
            final(other).cartridge.ram == old(other).cartridge.ram,
            final(other).cartridge.mapper == old(other).cartridge.mapper,
            final(other).ram == old(other).ram,
            final(other).bios_rom == old(other).bios_rom,
            final(other).memory_control == old(other).memory_control,
    {
        let mut taken = Rom(Vec::new());
        core::mem::swap(&mut taken, &mut other.cartridge.rom);
        self.cartridge.rom = taken;
    }

    /// Hands the ROM, BIOS and cartridge RAM images back to the caller,
    /// leaving empty images behind.
    pub fn take_cartridge_rom_and_ram(&mut self) -> (r: (Vec<u8>, Option<Vec<u8>>, Vec<u8>))
        ensures
            r.0 == old(self).cartridge.rom.0,
            r.1 == old(self).bios_rom,
            r.2 == old(self).cartridge.ram,
            final(self).cartridge.rom.0@.len() == 0,
            final(self).bios_rom is None,
            final(self).cartridge.ram@.len() == 0,
            final(self).cartridge.mapper == old(self).cartridge.mapper,
            final(self).cartridge.has_battery == old(self).cartridge.has_battery,
            final(self).cartridge.ram_dirty == old(self).cartridge.ram_dirty,
            final(self).cartridge.ram_mapped == old(self).cartridge.ram_mapped,
            final(self).cartridge.ram_bank == old(self).cartridge.ram_bank,
            final(self).cartridge.rom_bank_0 == old(self).cartridge.rom_bank_0,
            final(self).cartridge.rom_bank_1 == old(self).cartridge.rom_bank_1,
            final(self).cartridge.rom_bank_2 == old(self).cartridge.rom_bank_2,
            final(self).cartridge.rom_crc32 == old(self).cartridge.rom_crc32,
            final(self).bios_rom_banks == old(self).bios_rom_banks,
            final(self).ram == old(self).ram,
            final(self).memory_control == old(self).memory_control,
            final(self).audio_control == old(self).audio_control,
            final(self).gg_registers == old(self).gg_registers,
    {
        let mut rom = Rom(Vec::new());
        core::mem::swap(&mut rom, &mut self.cartridge.rom);
        let mut bios_rom: Option<Vec<u8>> = None;
        core::mem::swap(&mut bios_rom, &mut self.bios_rom);
        let mut ram: Vec<u8> = Vec::new();
        core::mem::swap(&mut ram, &mut self.cartridge.ram);
        (rom.0, bios_rom, ram)
    }

    pub fn fm_enabled(&self) -> (r: bool)
        ensures
            r == self.audio_control.fm_enabled,
    {
        self.audio_control.fm_enabled
    }

    pub fn psg_enabled(&self) -> (r: bool)
        ensures
            r == self.audio_control.psg_enabled,
    {
        self.audio_control.psg_enabled
    }

    /// Encodes the audio enable bits as the value read back from the audio
    /// control port.
    pub fn read_audio_control(&self) -> (r: u8)
        ensures
            r == (match (self.audio_control.fm_enabled, self.audio_control.psg_enabled) {
                (false, true) => 0x00u8,
                (true, false) => 0x01u8,
                (false, false) => 0x02u8,
                (true, true) => 0x03u8,
            }),
    {
        match (self.audio_control.fm_enabled, self.audio_control.psg_enabled) {
            (false, true) => 0x00,
            (true, false) => 0x01,
            (false, false) => 0x02,
            (true, true) => 0x03,
        }
    }

    /// Decodes a write to the audio control port: bit 0 enables FM; the PSG
    /// stays audible only when both units or neither are selected.
    pub fn write_audio_control(&mut self, value: u8)
        ensures
            final(self).audio_control.fm_enabled == spec_bit_u8(value & 0x03, 0),
            final(self).audio_control.psg_enabled == ((value & 0x03) == 0 || (value & 0x03) == 3),
            *final(self) == (Memory { audio_control: final(self).audio_control, ..*old(self) }),
    {
        let control_bits = value & 0x03;
        self.audio_control.fm_enabled = bit_u8(control_bits, 0);
        self.audio_control.psg_enabled = control_bits == 0 || control_bits == 3;
    }

    /// Guesses the cartridge region from the Sega header, trying the three
    /// locations the header may sit at; a missing or unreadable header means
    /// Domestic, as some Japanese releases carry none.
    pub fn guess_cartridge_region(&self) -> (r: SmsGgRegion)
        ensures
            r == spec_guess_region(self.cartridge.rom.0@),
    {
        let rom = &self.cartridge.rom.0;
        if let Some(region) = region_at(rom, 0x7FF0) {
            return region;
        }
        if let Some(region) = region_at(rom, 0x3FF0) {
            return region;
        }
        if let Some(region) = region_at(rom, 0x1FF0) {
            return region;
        }
        SmsGgRegion::Domestic
    }

    pub fn gg_registers(&mut self) -> (r: &mut GameGearRegisters)
        ensures
            *r == old(self).gg_registers,
            *final(self) == (Memory { gg_registers: *final(r), ..*old(self) }),
    {
        &mut self.gg_registers
    }

    pub fn memory_control(&mut self) -> (r: &mut MemoryControl)
        ensures
            *r == old(self).memory_control,
            *final(self) == (Memory { memory_control: *final(r), ..*old(self) }),
    {
        &mut self.memory_control
    }
}

} // verus!
