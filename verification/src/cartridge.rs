//! SMS / Game Gear cartridge: ROM mirroring, mapper detection, banked ROM
//! reads, and battery-backed RAM.

use vstd::prelude::*;

verus! {

/// Size of the cartridge RAM image. Most cartridges with RAM only had 8 KiB,
/// but up to 32 KiB was supported, and the header contains no information on
/// RAM size (or even whether RAM is present).
pub const CARTRIDGE_RAM_SIZE: usize = 0x8000;

/// Address of the 16-bit checksum word in Codemasters ROM headers.
pub const CODEMASTERS_CHECKSUM_ADDR: usize = 0x7FE6;

/// Largest ROM image the loader accepts; keeps the power-of-two mirroring and
/// the 32-bit banked addressing free of overflow.
pub const MAX_ROM_SIZE: usize = 0x0400_0000;

/// Named result of the CRC-32/ISO-HDLC checksum that the `crc` crate computes.
pub uninterp spec fn crc32_of(bytes: Seq<u8>) -> u32;

/// Relies on `crc::Crc::<u32>::checksum` with the `CRC_32_ISO_HDLC` algorithm:
/// the result is a function of the input bytes alone.
#[verifier::external_body]
fn crc32_checksum(bytes: &[u8]) -> (r: u32)
    ensures
        r == crc32_of(bytes@),
{
    crc::Crc::<u32>::new(&crc::CRC_32_ISO_HDLC).checksum(bytes)
}

/// The cartridge mapper variant.
#[derive(Debug, Clone, Copy, PartialEq, Eq, Structural)]
pub enum Mapper {
    Sega,
    Codemasters,
}

/// The 16-bit little-endian word stored at byte offset `addr`.
pub open spec fn rom_word_le(rom: Seq<u8>, addr: int) -> u16 {
    (rom[addr] + 0x100 * rom[addr + 1]) as u16
}

/// Wrapping sum of the 16-bit little-endian words at even offsets below
/// `end`, skipping the words of the Sega header area `0x7FF0..=0x7FFF`.
pub open spec fn codemasters_sum(rom: Seq<u8>, end: int) -> u16
    decreases end,
{
    if end < 2 {
        0u16
    } else {
        let addr = end - 2;
        let prev = codemasters_sum(rom, addr);
        if 0x7FF0 <= addr && addr <= 0x7FFF {
            prev
        } else {
            ((prev + rom_word_le(rom, addr)) % 0x10000) as u16
        }
    }
}

/// Mapper choice for a ROM image: Codemasters when the header checksum word
/// matches the word sum, Sega otherwise.
pub open spec fn spec_detect_mapper(rom: Seq<u8>) -> Mapper {
    if rom.len() < 0x8000 {
        Mapper::Sega
    } else if codemasters_sum(rom, rom.len() - rom.len() % 2)
        == rom_word_le(rom, CODEMASTERS_CHECKSUM_ADDR as int) {
        Mapper::Codemasters
    } else {
        Mapper::Sega
    }
}

proof fn lemma_or_shl8_is_le_word(lo: u16, hi: u16)
    by (bit_vector)
    requires
        lo < 0x100,
        hi < 0x100,
    ensures
        (lo | (hi << 8)) == lo + 0x100 * hi,
{
}

impl Mapper {
    /// Codemasters ROMs have a 16-bit checksum at `0x7FE6` which is the sum of
    /// all 16-bit words in the ROM except for the words in the Sega header.
    /// If summing all of the words matches the word at `0x7FE6`, assume this
    /// is a Codemasters ROM.
    pub fn detect_from_rom(rom: &[u8]) -> (r: Mapper)
        ensures
            r == spec_detect_mapper(rom@),
    {
        if rom.len() < 0x8000 {
            // No real ROMs should be less than 32KB, but regardless this
            // isn't a Codemasters ROM
            return Mapper::Sega;
        }

        let lo = rom[CODEMASTERS_CHECKSUM_ADDR];
        let hi = rom[CODEMASTERS_CHECKSUM_ADDR + 1];
        let expected_checksum: u16 = (lo as u16) | ((hi as u16) << 8);
        proof {
            lemma_or_shl8_is_le_word(lo as u16, hi as u16);
        }

        let even_len = rom.len() - rom.len() % 2;
        let mut checksum: u16 = 0;
        let mut address: usize = 0;
        while address < even_len
            invariant
                rom@.len() >= 0x8000,
                even_len == rom@.len() - rom@.len() % 2,
                address % 2 == 0,
                address <= even_len,
                checksum == codemasters_sum(rom@, address as int),
            decreases even_len - address,
        {
            if address < 0x7FF0 || address > 0x7FFF {
                let b0 = rom[address];
                let b1 = rom[address + 1];
                let word: u16 = (b0 as u16) | ((b1 as u16) << 8);
                proof {
                    lemma_or_shl8_is_le_word(b0 as u16, b1 as u16);
                }
                checksum = checksum.wrapping_add(word);
            }
            address += 2;
        }

        if checksum == expected_checksum {
            Mapper::Codemasters
        } else {
            Mapper::Sega
        }
    }
}

/// Immutable ROM image, mirrored up to the next power of two at load time.
#[derive(Debug, Clone)]
pub struct Rom(pub Vec<u8>);

impl Rom {
    /// Length of the (mirrored) ROM image in bytes.
    pub fn len(&self) -> (r: usize)
        ensures
            r == self.0@.len(),
    {
        self.0.len()
    }

    /// The byte at `index`.
    pub fn index(&self, index: usize) -> (r: u8)
        requires
            index < self.0@.len(),
        ensures
            r == self.0@[index as int],
    {
        self.0[index]
    }
}

/// True when `n` is a power of two.
pub open spec fn is_power_of_two(n: int) -> bool
    decreases n,
{
    if n <= 0 {
        false
    } else if n == 1 {
        true
    } else {
        n % 2 == 0 && is_power_of_two(n / 2)
    }
}

/// Extends `rom` so that its length becomes the next power of two, repeating
/// the image cyclically; an image whose length already is a power of two is
/// left unchanged.
pub fn mirror_to_next_power_of_two(rom: &mut Vec<u8>)
    requires
        1 <= old(rom)@.len() <= MAX_ROM_SIZE,
    ensures
        is_power_of_two(final(rom)@.len() as int),
        old(rom)@.len() <= final(rom)@.len() < 2 * old(rom)@.len(),
        forall|i: int|
            0 <= i < final(rom)@.len()
                ==> final(rom)@[i] == old(rom)@[i % old(rom)@.len() as int],
{
    let len = rom.len();
    let mut target: usize = 1;
    while target < len
        invariant
            len <= MAX_ROM_SIZE,
            1 <= target,
            is_power_of_two(target as int),
            target < 2 * len,
        decreases 2 * len - target,
    {
        target = target * 2;
    }

    proof {
        assert(forall|i: int| 0 <= i < len ==> #[trigger] (i % (len as int)) == i)
            by (nonlinear_arith);
    }

    let ghost orig: Seq<u8> = rom@;
    let mut i = len;
    while i < target
        invariant
            1 <= len,
            len <= i <= target,
            rom@.len() == i,
            orig.len() == len,
            forall|j: int| 0 <= j < i ==> rom@[j] == orig[j % (len as int)],
        decreases target - i,
    {
        let src = i % len;
        proof {
            assert((i as int % len as int) % (len as int) == i as int % len as int)
                by (nonlinear_arith)
                requires len >= 1;
        }
        let b = rom[src];
        rom.push(b);
        i += 1;
    }
}

/// A fresh all-zero byte vector of length `n`.
pub(crate) fn zero_vec(n: usize) -> (r: Vec<u8>)
    ensures
        r@ == Seq::new(n as nat, |i: int| 0u8),
{
    let mut v: Vec<u8> = Vec::new();
    let mut i: usize = 0;
    while i < n
        invariant
            i <= n,
            v@.len() == i,
            forall|j: int| 0 <= j < i ==> v@[j] == 0u8,
        decreases n - i,
    {
        v.push(0);
        i += 1;
    }
    proof {
        assert(v@ =~= Seq::new(n as nat, |i: int| 0u8));
    }
    v
}

/// A cartridge: the mirrored ROM image, the 32 KiB RAM image, and the mapper
/// banking registers.
#[derive(Debug, Clone)]
pub struct Cartridge {
    pub rom: Rom,
    pub ram: Vec<u8>,
    pub mapper: Mapper,
    pub has_battery: bool,
    pub rom_bank_0: u32,
    pub rom_bank_1: u32,
    pub rom_bank_2: u32,
    pub ram_mapped: bool,
    pub ram_bank: u32,
    pub ram_dirty: bool,
    pub rom_crc32: u32,
}

impl Cartridge {
    /// Well-formedness: the ROM is mirrored to a power of two of at least
    /// 1 KiB, the RAM image has its fixed size, and every bank register holds
    /// a value that once fit in a byte.
    pub open spec fn wf(self) -> bool {
        &&& 0x400 <= self.rom.0@.len() < 2 * MAX_ROM_SIZE
        &&& is_power_of_two(self.rom.0@.len() as int)
        &&& self.ram@.len() == CARTRIDGE_RAM_SIZE
        &&& self.rom_bank_0 < 0x100
        &&& self.rom_bank_1 < 0x100
        &&& self.rom_bank_2 < 0x100
        &&& self.ram_bank < 2
    }

    /// Mask applied to banked ROM addresses: the mirrored length minus one.
    pub open spec fn rom_mask(self) -> u32 {
        (self.rom.0@.len() - 1) as u32
    }

    /// The ROM byte that a banked address resolves to.
    pub open spec fn spec_read_rom_address(self, address: u32) -> u8 {
        self.rom.0@[(address & self.rom_mask()) as int]
    }

    /// The RAM offset a mapped-RAM access resolves to: bank-extended on the
    /// Sega mapper, mirrored into a single 8 KiB page on Codemasters.
    pub open spec fn spec_ram_addr(self, address: u16) -> int {
        match self.mapper {
            Mapper::Sega => ((self.ram_bank << 14) | ((address & 0x3FFF) as u32)) as int,
            Mapper::Codemasters => (address & 0x1FFF) as int,
        }
    }

    /// The byte returned by a cartridge read of `address`, per mapper and
    /// banking state.
    pub open spec fn spec_read(self, address: u16) -> u8 {
        if self.mapper == Mapper::Sega && address < 0x0400 {
            self.rom.0@[address as int]
        } else if address < 0x4000 {
            self.spec_read_rom_address((self.rom_bank_0 << 14) | (address as u32))
        } else if address < 0x8000 {
            self.spec_read_rom_address((self.rom_bank_1 << 14) | ((address & 0x3FFF) as u32))
        } else if self.mapper == Mapper::Sega {
            if self.ram_mapped {
                self.ram@[self.spec_ram_addr(address)]
            } else {
                self.spec_read_rom_address((self.rom_bank_2 << 14) | ((address & 0x3FFF) as u32))
            }
        } else if 0xA000 <= address && self.ram_mapped {
            self.ram@[self.spec_ram_addr(address)]
        } else {
            self.spec_read_rom_address((self.rom_bank_2 << 14) | ((address & 0x3FFF) as u32))
        }
    }

    /// Everything except the RAM image, the RAM-dirty flag and the
    /// battery flag agrees between `a` and `b`.
    pub open spec fn same_mapper_state(a: Cartridge, b: Cartridge) -> bool {
        &&& b.rom == a.rom
        &&& b.mapper == a.mapper
        &&& b.rom_bank_0 == a.rom_bank_0
        &&& b.rom_bank_1 == a.rom_bank_1
        &&& b.rom_bank_2 == a.rom_bank_2
        &&& b.ram_mapped == a.ram_mapped
        &&& b.ram_bank == a.ram_bank
        &&& b.rom_crc32 == a.rom_crc32
    }

    /// Loads a cartridge: detects the mapper, computes the ROM checksum,
    /// adopts the initial RAM image when it has the expected size, and
    /// mirrors the ROM up to the next power of two.
    ///
    /// Whether the cartridge is battery-backed is not recorded in the header;
    /// it is inferred later, when the game maps cartridge RAM.
    pub fn new(rom: Vec<u8>, initial_ram: Option<Vec<u8>>) -> (r: Cartridge)
        requires
            0x400 <= rom@.len() <= MAX_ROM_SIZE,
        ensures
            r.wf(),
            r.mapper == spec_detect_mapper(rom@),
            r.rom_crc32 == crc32_of(rom@),
            rom@.len() <= r.rom.0@.len() < 2 * rom@.len(),
            forall|i: int|
                0 <= i < r.rom.0@.len() ==> r.rom.0@[i] == rom@[i % rom@.len() as int],
            (match initial_ram {
                Some(ram) => if ram@.len() == CARTRIDGE_RAM_SIZE {
                    r.ram@ == ram@
                } else {
                    r.ram@ == Seq::new(CARTRIDGE_RAM_SIZE as nat, |i: int| 0u8)
                },
                None => r.ram@ == Seq::new(CARTRIDGE_RAM_SIZE as nat, |i: int| 0u8),
            }),
            !r.has_battery,
            r.rom_bank_0 == 0 && r.rom_bank_1 == 1 && r.rom_bank_2 == 2,
            !r.ram_mapped,
            r.ram_bank == 0,
            !r.ram_dirty,
    {
        let mapper = Mapper::detect_from_rom(rom.as_slice());
        let checksum = crc32_checksum(rom.as_slice());

        let ram = match initial_ram {
            Some(ram) => {
                if ram.len() == CARTRIDGE_RAM_SIZE {
                    ram
                } else {
                    zero_vec(CARTRIDGE_RAM_SIZE)
                }
            },
            None => zero_vec(CARTRIDGE_RAM_SIZE),
        };

        let mut rom = rom;
        mirror_to_next_power_of_two(&mut rom);

        Cartridge {
            rom: Rom(rom),
            ram,
            mapper,
            has_battery: false,
            rom_bank_0: 0,
            rom_bank_1: 1,
            rom_bank_2: 2,
            ram_mapped: false,
            ram_bank: 0,
            ram_dirty: false,
            rom_crc32: checksum,
        }
    }

    /// Reads the ROM byte a banked address resolves to, wrapping at the
    /// mirrored length.
    pub fn read_rom_address(&self, address: u32) -> (r: u8)
        requires
            self.wf(),
        ensures
            r == self.spec_read_rom_address(address),
    {
        let mask = (self.rom.len() - 1) as u32;
        let wrapped = address & mask;
        proof {
            let m = self.rom_mask();
            assert(address & m <= m) by (bit_vector);
        }
        self.rom.index(wrapped as usize)
    }

    /// Reads the cartridge byte mapped at `address`.
    ///
    /// Addresses `0xC000..=0xFFFF` are never routed to the cartridge.
    pub fn read(&self, address: u16) -> (r: u8)
        requires
            self.wf(),
            address < 0xC000,
        ensures
            r == self.spec_read(address),
    {
        proof {
            lemma_bank_or_in_range(self.ram_bank, address);
        }
        match (self.mapper, address) {
            (Mapper::Sega, 0x0000..=0x03FF) => self.rom.index(address as usize),
            (Mapper::Sega, 0x0400..=0x3FFF) | (Mapper::Codemasters, 0x0000..=0x3FFF) => {
                let rom_addr = (self.rom_bank_0 << 14) | (address as u32);
                self.read_rom_address(rom_addr)
            },
            (_, 0x4000..=0x7FFF) => {
                let rom_addr = (self.rom_bank_1 << 14) | ((address & 0x3FFF) as u32);
                self.read_rom_address(rom_addr)
            },
            (Mapper::Sega, _) => {
                if self.ram_mapped {
                    let ram_addr = (self.ram_bank << 14) | ((address & 0x3FFF) as u32);
                    self.ram[ram_addr as usize]
                } else {
                    let rom_addr = (self.rom_bank_2 << 14) | ((address & 0x3FFF) as u32);
                    self.read_rom_address(rom_addr)
                }
            },
            (Mapper::Codemasters, 0x8000..=0x9FFF) => {
                let rom_addr = (self.rom_bank_2 << 14) | ((address & 0x3FFF) as u32);
                self.read_rom_address(rom_addr)
            },
            (Mapper::Codemasters, _) => {
                if self.ram_mapped {
                    // Codemasters cartridges with RAM don't support banking;
                    // they only have 8KB
                    self.ram[(address & 0x1FFF) as usize]
                } else {
                    let rom_addr = (self.rom_bank_2 << 14) | ((address & 0x3FFF) as u32);
                    self.read_rom_address(rom_addr)
                }
            },
        }
    }

    /// Writes `value` into mapped cartridge RAM and marks the RAM dirty; a
    /// write with RAM unmapped is ignored.
    pub fn write_ram(&mut self, address: u16, value: u8)
        requires
            old(self).wf(),
        ensures
            final(self).wf(),
            Cartridge::same_mapper_state(*old(self), *final(self)),
            final(self).has_battery == old(self).has_battery,
            old(self).ram_mapped ==> {
                &&& final(self).ram@
                    == old(self).ram@.update(old(self).spec_ram_addr(address), value)
                &&& final(self).ram_dirty
            },
            !old(self).ram_mapped ==> *final(self) == *old(self),
    {
        if self.ram_mapped {
            proof {
                lemma_bank_or_in_range(self.ram_bank, address);
            }
            let ram_addr: u32 = match self.mapper {
                Mapper::Sega => (self.ram_bank << 14) | ((address & 0x3FFF) as u32),
                Mapper::Codemasters => (address & 0x1FFF) as u32,
            };
            self.ram[ram_addr as usize] = value;

            self.ram_dirty = true;
        }
    }

    /// Maps or unmaps cartridge RAM. Enabling RAM marks the cartridge as
    /// battery-backed if it was not already.
    pub fn set_ram_mapped(&mut self, value: bool)
        ensures
            *final(self) == (Cartridge {
                ram_mapped: value,
                has_battery: old(self).has_battery || value,
                ..*old(self)
            }),
    {
        self.ram_mapped = value;

        if value && !self.has_battery {
            self.has_battery = true;
        }
    }
}

/// For a bank register below 2 and any 16-bit address, the combined RAM
/// offset stays inside the 32 KiB RAM image.
proof fn lemma_bank_or_in_range(ram_bank: u32, address: u16)
    by (bit_vector)
    requires
        ram_bank < 2,
    ensures
        ((ram_bank << 14) | ((address & 0x3FFF) as u32)) < 0x8000,
        ((address & 0x1FFF) as u32) < 0x8000,
{
}

/// Law: a banked ROM read returns the ROM byte at
/// `((bank << 14) | (address & 0x3FFF)) & (rom_len - 1)`; the bank-1 window
/// `0x4000..=0x7FFF` is shown here, and `spec_read` states the same shape for
/// the other banked windows.
pub proof fn lemma_banked_rom_read(c: Cartridge, address: u16)
    requires
        c.wf(),
        0x4000 <= address < 0x8000,
    ensures
        c.spec_read(address)
            == c.rom.0@[(((c.rom_bank_1 << 14) | ((address & 0x3FFF) as u32))
                & c.rom_mask()) as int],
{
}

/// Law: a byte written through a mapped RAM address is read back from the
/// same address, whatever happened to the ROM bank registers in between, as
/// long as the RAM configuration (mapped flag, RAM bank, mapper, RAM bytes)
/// is untouched.
pub proof fn lemma_sram_write_then_read(
    c0: Cartridge,
    c1: Cartridge,
    c2: Cartridge,
    address: u16,
    value: u8,
)
    requires
        c0.wf(),
        c0.ram_mapped,
        c0.mapper == Mapper::Sega ==> 0x8000 <= address < 0xC000,
        c0.mapper == Mapper::Codemasters ==> 0xA000 <= address < 0xC000,
        // c1 is c0 after `write_ram(address, value)`
        c1.ram@ == c0.ram@.update(c0.spec_ram_addr(address), value),
        Cartridge::same_mapper_state(c0, c1),
        // c2 differs from c1 only in ROM bank registers and dirty state
        c2.wf(),
        c2.ram@ == c1.ram@,
        c2.mapper == c1.mapper,
        c2.ram_mapped == c1.ram_mapped,
        c2.ram_bank == c1.ram_bank,
    ensures
        c2.spec_read(address) == value,
{
    lemma_bank_or_in_range(c0.ram_bank, address);
}

/// Law: with the Codemasters mapper, mapped RAM mirrors at
/// `address & 0x1FFF`, independent of every bank register: two cartridges
/// that agree on the RAM bytes read the same byte at any two addresses with
/// equal low 13 bits.
pub proof fn lemma_codemasters_ram_mirror(c: Cartridge, d: Cartridge, a1: u16, a2: u16)
    requires
        c.wf(),
        d.wf(),
        c.mapper == Mapper::Codemasters,
        d.mapper == Mapper::Codemasters,
        c.ram_mapped,
        d.ram_mapped,
        c.ram@ == d.ram@,
        0xA000 <= a1 < 0xC000,
        0xA000 <= a2 < 0xC000,
        a1 & 0x1FFF == a2 & 0x1FFF,
    ensures
        c.spec_read(a1) == d.spec_read(a2),
        c.spec_read(a1) == c.ram@[(a1 & 0x1FFF) as int],
{
    lemma_bank_or_in_range(0, a1);
    lemma_bank_or_in_range(0, a2);
}

} // verus!
