//! Motorola 68000 register file: data/address registers, the two stack
//! pointers, the status register, and the condition-code bits.

use vstd::prelude::*;

use crate::bits::{bit_u16, bit_u8, spec_bit_u16, spec_bit_u8};

verus! {

/// Interrupt mask the CPU holds after reset.
pub const DEFAULT_INTERRUPT_MASK: u8 = 7;

/// 0 or 1 as a byte, for composing flag words.
pub open spec fn b2u(b: bool) -> u8 {
    if b {
        1u8
    } else {
        0u8
    }
}

/// The X/N/Z/V/C condition codes of the status register's low byte.
#[derive(Debug, Clone, Copy, PartialEq, Eq, Structural)]
pub struct ConditionCodes {
    pub carry: bool,
    pub overflow: bool,
    pub zero: bool,
    pub negative: bool,
    pub extend: bool,
}

impl ConditionCodes {
    /// The condition codes encoded by the low five bits of `value`.
    pub open spec fn spec_from_u8(value: u8) -> ConditionCodes {
        ConditionCodes {
            carry: spec_bit_u8(value, 0),
            overflow: spec_bit_u8(value, 1),
            zero: spec_bit_u8(value, 2),
            negative: spec_bit_u8(value, 3),
            extend: spec_bit_u8(value, 4),
        }
    }

    /// The flag byte these condition codes encode to.
    pub open spec fn spec_to_u8(self) -> u8 {
        (b2u(self.extend) << 4) | (b2u(self.negative) << 3) | (b2u(self.zero) << 2)
            | (b2u(self.overflow) << 1) | b2u(self.carry)
    }

    /// Decodes a flag byte.
    pub fn from_u8(value: u8) -> (r: ConditionCodes)
        ensures
            r == ConditionCodes::spec_from_u8(value),
    {
        ConditionCodes {
            carry: bit_u8(value, 0),
            overflow: bit_u8(value, 1),
            zero: bit_u8(value, 2),
            negative: bit_u8(value, 3),
            extend: bit_u8(value, 4),
        }
    }

    /// Encodes the flag byte.
    pub fn to_u8(self) -> (r: u8)
        ensures
            r == self.spec_to_u8(),
    {
        let e: u8 = if self.extend {
            1
        } else {
            0
        };
        let n: u8 = if self.negative {
            1
        } else {
            0
        };
        let z: u8 = if self.zero {
            1
        } else {
            0
        };
        let v: u8 = if self.overflow {
            1
        } else {
            0
        };
        let c: u8 = if self.carry {
            1
        } else {
            0
        };
        (e << 4) | (n << 3) | (z << 2) | (v << 1) | c
    }
}

proof fn lemma_flag_byte_bits(e: u8, n: u8, z: u8, v: u8, c: u8)
    by (bit_vector)
    requires
        e < 2,
        n < 2,
        z < 2,
        v < 2,
        c < 2,
    ensures
        (((e << 4) | (n << 3) | (z << 2) | (v << 1) | c) >> 0) & 1 == c,
        (((e << 4) | (n << 3) | (z << 2) | (v << 1) | c) >> 1) & 1 == v,
        (((e << 4) | (n << 3) | (z << 2) | (v << 1) | c) >> 2) & 1 == z,
        (((e << 4) | (n << 3) | (z << 2) | (v << 1) | c) >> 3) & 1 == n,
        (((e << 4) | (n << 3) | (z << 2) | (v << 1) | c) >> 4) & 1 == e,
{
}

/// Law: the round trip condition codes -> flag byte -> condition codes is
/// the identity.
pub proof fn lemma_ccr_round_trip(cc: ConditionCodes)
    ensures
        ConditionCodes::spec_from_u8(cc.spec_to_u8()) == cc,
{
    lemma_flag_byte_bits(
        b2u(cc.extend),
        b2u(cc.negative),
        b2u(cc.zero),
        b2u(cc.overflow),
        b2u(cc.carry),
    );
}

/// The 68000 register file.
#[derive(Debug, Clone, Copy)]
pub struct Registers {
    pub data: [u32; 8],
    pub address: [u32; 7],
    pub usp: u32,
    pub ssp: u32,
    pub pc: u32,
    pub prefetch: u16,
    pub ccr: ConditionCodes,
    pub interrupt_priority_mask: u8,
    pub pending_interrupt_level: Option<u8>,
    pub supervisor_mode: bool,
    pub trace_enabled: bool,
    pub address_error: bool,
    pub last_instruction_was_muldiv: bool,
    pub stopped: bool,
}

/// The power-on register file: everything cleared, supervisor mode on,
/// interrupts masked.
pub open spec fn spec_is_power_on(r: Registers) -> bool {
    &&& (forall|i: int| 0 <= i < 8 ==> r.data@[i] == 0)
    &&& (forall|i: int| 0 <= i < 7 ==> r.address@[i] == 0)
    &&& r.usp == 0 && r.ssp == 0 && r.pc == 0
    &&& r.prefetch == 0
    &&& r.ccr == ConditionCodes::spec_from_u8(0)
    &&& r.interrupt_priority_mask == DEFAULT_INTERRUPT_MASK
    &&& r.pending_interrupt_level is None
    &&& r.supervisor_mode
    &&& !r.trace_enabled
    &&& !r.address_error
    &&& !r.last_instruction_was_muldiv
    &&& !r.stopped
}

impl Registers {
    /// Power-on register file: supervisor mode, interrupts masked.
    pub fn new() -> (r: Registers)
        ensures
            spec_is_power_on(r),
    {
        Registers {
            data: [0, 0, 0, 0, 0, 0, 0, 0],
            address: [0, 0, 0, 0, 0, 0, 0],
            usp: 0,
            ssp: 0,
            pc: 0,
            prefetch: 0,
            ccr: ConditionCodes::from_u8(0),
            interrupt_priority_mask: DEFAULT_INTERRUPT_MASK,
            pending_interrupt_level: None,
            supervisor_mode: true,
            trace_enabled: false,
            address_error: false,
            last_instruction_was_muldiv: false,
            stopped: false,
        }
    }

    /// The 16-bit status register: trace, supervisor, interrupt mask in the
    /// high byte; the condition codes in the low byte.
    pub open spec fn spec_sr(self) -> u16 {
        let msb = self.interrupt_priority_mask | (if self.supervisor_mode {
            0x20u8
        } else {
            0u8
        }) | (if self.trace_enabled {
            0x80u8
        } else {
            0u8
        });
        ((msb as u16) << 8) | (self.ccr.spec_to_u8() as u16)
    }

    /// The register file after a status-register write: only the bits of the
    /// mask `0xA71F` are represented; all others are dropped.
    pub open spec fn spec_set_sr(self, value: u16) -> Registers {
        Registers {
            interrupt_priority_mask: ((value >> 8) as u8) & 0x07,
            supervisor_mode: spec_bit_u8((value >> 8) as u8, 5),
            trace_enabled: spec_bit_u8((value >> 8) as u8, 7),
            ccr: ConditionCodes::spec_from_u8(value as u8),
            ..self
        }
    }

    pub fn status_register(&self) -> (r: u16)
        ensures
            r == self.spec_sr(),
    {
        let lsb: u8 = self.ccr.to_u8();
        let msb: u8 = self.interrupt_priority_mask | (if self.supervisor_mode {
            0x20
        } else {
            0
        }) | (if self.trace_enabled {
            0x80
        } else {
            0
        });
        ((msb as u16) << 8) | (lsb as u16)
    }

    pub fn set_status_register(&mut self, value: u16)
        ensures
            *final(self) == old(self).spec_set_sr(value),
    {
        let msb = (value >> 8) as u8;
        let lsb = value as u8;

        self.interrupt_priority_mask = msb & 0x07;
        self.supervisor_mode = bit_u8(msb, 5);
        self.trace_enabled = bit_u8(msb, 7);

        self.ccr = ConditionCodes::from_u8(lsb);
    }

    /// The live stack pointer, selected by the supervisor bit.
    pub open spec fn spec_sp(self) -> u32 {
        if self.supervisor_mode {
            self.ssp
        } else {
            self.usp
        }
    }

    /// The register file with the live stack pointer replaced.
    pub open spec fn spec_with_sp(self, sp: u32) -> Registers {
        if self.supervisor_mode {
            Registers { ssp: sp, ..self }
        } else {
            Registers { usp: sp, ..self }
        }
    }

    pub fn sp(&self) -> (r: u32)
        ensures
            r == self.spec_sp(),
    {
        if self.supervisor_mode {
            self.ssp
        } else {
            self.usp
        }
    }

    pub fn set_sp(&mut self, sp: u32)
        ensures
            *final(self) == old(self).spec_with_sp(sp),
    {
        if self.supervisor_mode {
            self.ssp = sp;
        } else {
            self.usp = sp;
        }
    }
}

proof fn lemma_flag_byte_masks(lsb: u8)
    by (bit_vector)
    ensures
        ((b2u((lsb >> 4) & 1 == 1) << 4) | (b2u((lsb >> 3) & 1 == 1) << 3) | (b2u(
            (lsb >> 2) & 1 == 1,
        ) << 2) | (b2u((lsb >> 1) & 1 == 1) << 1) | b2u((lsb >> 0) & 1 == 1)) == lsb & 0x1F,
{
}

proof fn lemma_sr_msb_mask(msb: u8)
    by (bit_vector)
    ensures
        ((msb & 0x07) | (if (msb >> 5) & 1 == 1 {
            0x20u8
        } else {
            0u8
        }) | (if (msb >> 7) & 1 == 1 {
            0x80u8
        } else {
            0u8
        })) == msb & 0xA7,
{
}

proof fn lemma_sr_combine(v: u16)
    by (bit_vector)
    ensures
        ((((((v >> 8) as u8) & 0xA7) as u16) << 8) | (((v as u8) & 0x1F) as u16)) == v & 0xA71F,
{
}

/// Law: writing the status register and reading it back yields exactly the
/// written value masked to the implemented bits, `value & 0xA71F`.
pub proof fn lemma_status_register_mask(r: Registers, value: u16)
    ensures
        r.spec_set_sr(value).spec_sr() == value & 0xA71F,
{
    let msb = (value >> 8) as u8;
    let lsb = value as u8;
    lemma_flag_byte_masks(lsb);
    lemma_sr_msb_mask(msb);
    lemma_sr_combine(value);
}

/// A numbered data register, `D0` to `D7`.
#[derive(Debug, Clone, Copy, PartialEq, Eq, Structural)]
pub struct DataRegister(pub u8);

impl DataRegister {
    pub fn read_from(self, registers: &Registers) -> (r: u32)
        requires
            self.0 < 8,
        ensures
            r == registers.data@[self.0 as int],
    {
        registers.data[self.0 as usize]
    }

    /// Byte writes replace only the low 8 bits.
    pub fn write_byte_to(self, registers: &mut Registers, value: u8)
        requires
            self.0 < 8,
        ensures
            final(registers).data@ == old(registers).data@.update(
                self.0 as int,
                (old(registers).data@[self.0 as int] & 0xFFFF_FF00) | value as u32,
            ),
            *final(registers) == (Registers { data: final(registers).data, ..*old(registers) }),
    {
        let existing_value = registers.data[self.0 as usize];
        registers.data[self.0 as usize] = (existing_value & 0xFFFF_FF00) | value as u32;
    }

    /// Word writes replace only the low 16 bits.
    pub fn write_word_to(self, registers: &mut Registers, value: u16)
        requires
            self.0 < 8,
        ensures
            final(registers).data@ == old(registers).data@.update(
                self.0 as int,
                (old(registers).data@[self.0 as int] & 0xFFFF_0000) | value as u32,
            ),
            *final(registers) == (Registers { data: final(registers).data, ..*old(registers) }),
    {
        let existing_value = registers.data[self.0 as usize];
        registers.data[self.0 as usize] = (existing_value & 0xFFFF_0000) | value as u32;
    }

    pub fn write_long_word_to(self, registers: &mut Registers, value: u32)
        requires
            self.0 < 8,
        ensures
            final(registers).data@ == old(registers).data@.update(self.0 as int, value),
            *final(registers) == (Registers { data: final(registers).data, ..*old(registers) }),
    {
        registers.data[self.0 as usize] = value;
    }
}

/// A numbered address register, `A0` to `A7`; `A7` is the live stack
/// pointer.
#[derive(Debug, Clone, Copy, PartialEq, Eq, Structural)]
pub struct AddressRegister(pub u8);

impl AddressRegister {
    pub open spec fn spec_is_sp(self) -> bool {
        self.0 == 7
    }

    /// The value this address register holds; `A7` reads the stack pointer
    /// selected by the supervisor bit.
    pub open spec fn spec_read(self, registers: Registers) -> u32 {
        if self.0 == 7 {
            registers.spec_sp()
        } else {
            registers.address@[self.0 as int]
        }
    }

    pub fn is_stack_pointer(self) -> (r: bool)
        ensures
            r == self.spec_is_sp(),
    {
        self.0 == 7
    }

    pub fn read_from(self, registers: &Registers) -> (r: u32)
        requires
            self.0 < 8,
        ensures
            r == self.spec_read(*registers),
    {
        match (self.0, registers.supervisor_mode) {
            (7, false) => registers.usp,
            (7, true) => registers.ssp,
            (register, _) => registers.address[register as usize],
        }
    }

    /// Word writes to an address register are sign extended to 32 bits.
    pub fn write_word_to(self, registers: &mut Registers, value: u16)
        requires
            self.0 < 8,
        ensures
            self.0 == 7 ==> *final(registers) == old(registers).spec_with_sp(
                value as i16 as u32,
            ),
            self.0 < 7 ==> {
                &&& final(registers).address@ == old(registers).address@.update(
                    self.0 as int,
                    value as i16 as u32,
                )
                &&& *final(registers) == (Registers {
                    address: final(registers).address,
                    ..*old(registers)
                })
            },
    {
        self.write_long_word_to(registers, value as i16 as u32);
    }

    pub fn write_long_word_to(self, registers: &mut Registers, value: u32)
        requires
            self.0 < 8,
        ensures
            self.0 == 7 ==> *final(registers) == old(registers).spec_with_sp(value),
            self.0 < 7 ==> {
                &&& final(registers).address@ == old(registers).address@.update(
                    self.0 as int,
                    value,
                )
                &&& *final(registers) == (Registers {
                    address: final(registers).address,
                    ..*old(registers)
                })
            },
    {
        match (self.0, registers.supervisor_mode) {
            (7, false) => {
                registers.usp = value;
            },
            (7, true) => {
                registers.ssp = value;
            },
            (register, _) => {
                registers.address[register as usize] = value;
            },
        }
    }
}

/// Operand widths.
#[derive(Debug, Clone, Copy, PartialEq, Eq, Structural)]
pub enum OpSize {
    Byte,
    Word,
    LongWord,
}

impl OpSize {
    /// The step a post-increment or pre-decrement applies for this width;
    /// byte accesses through the stack pointer keep it word aligned.
    pub open spec fn spec_increment_step_for(self, register: AddressRegister) -> u32 {
        match self {
            OpSize::Byte => if register.spec_is_sp() {
                2u32
            } else {
                1u32
            },
            OpSize::Word => 2u32,
            OpSize::LongWord => 4u32,
        }
    }

    pub fn increment_step_for(self, register: AddressRegister) -> (r: u32)
        ensures
            r == self.spec_increment_step_for(register),
    {
        match self {
            OpSize::Byte => {
                if register.is_stack_pointer() {
                    2
                } else {
                    1
                }
            },
            OpSize::Word => 2,
            OpSize::LongWord => 4,
        }
    }
}

/// Width applied to an index register before it enters an address sum.
#[derive(Debug, Clone, Copy, PartialEq, Eq, Structural)]
pub enum IndexSize {
    SignExtendedWord,
    LongWord,
}

/// The register an indexed addressing mode scales by.
#[derive(Debug, Clone, Copy, PartialEq, Eq, Structural)]
pub enum IndexRegister {
    Data(DataRegister),
    Address(AddressRegister),
}

impl IndexRegister {
    pub open spec fn wf(self) -> bool {
        match self {
            IndexRegister::Data(r) => r.0 < 8,
            IndexRegister::Address(r) => r.0 < 8,
        }
    }

    /// The index value: the raw register, optionally sign extended from its
    /// low word.
    pub open spec fn spec_read(self, registers: Registers, size: IndexSize) -> u32 {
        let raw = match self {
            IndexRegister::Data(r) => registers.data@[r.0 as int],
            IndexRegister::Address(r) => r.spec_read(registers),
        };
        match size {
            IndexSize::SignExtendedWord => raw as i16 as u32,
            IndexSize::LongWord => raw,
        }
    }

    pub fn read_from(self, registers: &Registers, size: IndexSize) -> (r: u32)
        requires
            self.wf(),
        ensures
            r == self.spec_read(*registers, size),
    {
        let raw_value = match self {
            IndexRegister::Data(register) => register.read_from(registers),
            IndexRegister::Address(register) => register.read_from(registers),
        };

        match size {
            IndexSize::SignExtendedWord => raw_value as i16 as u32,
            IndexSize::LongWord => raw_value,
        }
    }
}

/// The index register and width encoded by an extension word: bit 15 selects
/// the register file, bits 14-12 the register number, bit 11 the width.
pub open spec fn spec_parse_index(extension: u16) -> (IndexRegister, IndexSize) {
    let number = ((extension >> 12) & 0x07) as u8;
    let register = if spec_bit_u16(extension, 15) {
        IndexRegister::Address(AddressRegister(number))
    } else {
        IndexRegister::Data(DataRegister(number))
    };
    let size = if spec_bit_u16(extension, 11) {
        IndexSize::LongWord
    } else {
        IndexSize::SignExtendedWord
    };
    (register, size)
}

/// Decodes the index register and width out of an extension word.
pub fn parse_index(extension: u16) -> (r: (IndexRegister, IndexSize))
    ensures
        r == spec_parse_index(extension),
        r.0.wf(),
{
    let register_number = ((extension >> 12) & 0x07) as u8;
    let register = if bit_u16(extension, 15) {
        IndexRegister::Address(AddressRegister(register_number))
    } else {
        IndexRegister::Data(DataRegister(register_number))
    };

    let size = if bit_u16(extension, 11) {
        IndexSize::LongWord
    } else {
        IndexSize::SignExtendedWord
    };

    proof {
        assert(((extension >> 12) & 0x07) < 8) by (bit_vector);
    }
    (register, size)
}

} // verus!
