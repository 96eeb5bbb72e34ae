//! 68000 instruction decoding: addressing modes, the exception variants, and
//! the decoder for the implemented instruction set.

use vstd::prelude::*;

use crate::m68k_registers::{AddressRegister, DataRegister, OpSize};

verus! {

/// An operand addressing mode, as encoded in an opcode.
#[derive(Debug, Clone, Copy, PartialEq, Eq, Structural)]
pub enum AddressingMode {
    DataDirect(DataRegister),
    AddressDirect(AddressRegister),
    AddressIndirect(AddressRegister),
    AddressIndirectPostincrement(AddressRegister),
    AddressIndirectPredecrement(AddressRegister),
    AddressIndirectDisplacement(AddressRegister),
    AddressIndirectIndexed(AddressRegister),
    PcRelativeDisplacement,
    PcRelativeIndexed,
    AbsoluteShort,
    AbsoluteLong,
    Immediate,
    Quick(u8),
}

impl AddressingMode {
    /// Register numbers the mode mentions are in range.
    pub open spec fn wf(self) -> bool {
        match self {
            AddressingMode::DataDirect(r) => r.0 < 8,
            AddressingMode::AddressDirect(r) => r.0 < 8,
            AddressingMode::AddressIndirect(r) => r.0 < 8,
            AddressingMode::AddressIndirectPostincrement(r) => r.0 < 8,
            AddressingMode::AddressIndirectPredecrement(r) => r.0 < 8,
            AddressingMode::AddressIndirectDisplacement(r) => r.0 < 8,
            AddressingMode::AddressIndirectIndexed(r) => r.0 < 8,
            _ => true,
        }
    }

    pub fn is_data_direct(self) -> (r: bool)
        ensures
            r == (self is DataDirect),
    {
        matches!(self, AddressingMode::DataDirect(..))
    }

    pub fn is_address_direct(self) -> (r: bool)
        ensures
            r == (self is AddressDirect),
    {
        matches!(self, AddressingMode::AddressDirect(..))
    }

    /// Whether the mode resolves to a memory location.
    pub open spec fn spec_is_memory(self) -> bool {
        self is AddressIndirect || self is AddressIndirectPostincrement
            || self is AddressIndirectPredecrement || self is AddressIndirectDisplacement
            || self is AddressIndirectIndexed || self is PcRelativeDisplacement
            || self is PcRelativeIndexed || self is AbsoluteShort || self is AbsoluteLong
    }

    pub fn is_memory(self) -> (r: bool)
        ensures
            r == self.spec_is_memory(),
    {
        matches!(
            self,
            AddressingMode::AddressIndirect(..)
                | AddressingMode::AddressIndirectPostincrement(..)
                | AddressingMode::AddressIndirectPredecrement(..)
                | AddressingMode::AddressIndirectDisplacement(..)
                | AddressingMode::AddressIndirectIndexed(..)
                | AddressingMode::PcRelativeDisplacement
                | AddressingMode::PcRelativeIndexed
                | AddressingMode::AbsoluteShort
                | AddressingMode::AbsoluteLong
        )
    }

    /// The fixed operand-resolution overhead of this mode, additive to an
    /// instruction's base cycle count.
    pub open spec fn spec_address_calculation_cycles(self, size: OpSize) -> u32 {
        let long = size is LongWord;
        match self {
            AddressingMode::DataDirect(..) => 0u32,
            AddressingMode::AddressDirect(..) => 0u32,
            AddressingMode::Quick(..) => 0u32,
            AddressingMode::AddressIndirect(..) => if long {
                8u32
            } else {
                4u32
            },
            AddressingMode::AddressIndirectPostincrement(..) => if long {
                8u32
            } else {
                4u32
            },
            AddressingMode::Immediate => if long {
                8u32
            } else {
                4u32
            },
            AddressingMode::AddressIndirectPredecrement(..) => if long {
                10u32
            } else {
                6u32
            },
            AddressingMode::AddressIndirectDisplacement(..) => if long {
                12u32
            } else {
                8u32
            },
            AddressingMode::PcRelativeDisplacement => if long {
                12u32
            } else {
                8u32
            },
            AddressingMode::AbsoluteShort => if long {
                12u32
            } else {
                8u32
            },
            AddressingMode::AddressIndirectIndexed(..) => if long {
                14u32
            } else {
                10u32
            },
            AddressingMode::PcRelativeIndexed => if long {
                14u32
            } else {
                10u32
            },
            AddressingMode::AbsoluteLong => if long {
                16u32
            } else {
                12u32
            },
        }
    }

    pub fn address_calculation_cycles(self, size: OpSize) -> (r: u32)
        ensures
            r == self.spec_address_calculation_cycles(size),
    {
        match (self, size) {
            (
                AddressingMode::DataDirect(..)
                | AddressingMode::AddressDirect(..)
                | AddressingMode::Quick(..),
                _,
            ) => 0,
            (
                AddressingMode::AddressIndirect(..)
                | AddressingMode::AddressIndirectPostincrement(..)
                | AddressingMode::Immediate,
                OpSize::Byte | OpSize::Word,
            ) => 4,
            (AddressingMode::AddressIndirectPredecrement(..), OpSize::Byte | OpSize::Word) => 6,
            (
                AddressingMode::AddressIndirectDisplacement(..)
                | AddressingMode::PcRelativeDisplacement
                | AddressingMode::AbsoluteShort,
                OpSize::Byte | OpSize::Word,
            )
            | (
                AddressingMode::AddressIndirect(..)
                | AddressingMode::AddressIndirectPostincrement(..)
                | AddressingMode::Immediate,
                OpSize::LongWord,
            ) => 8,
            (
                AddressingMode::AddressIndirectIndexed(..) | AddressingMode::PcRelativeIndexed,
                OpSize::Byte | OpSize::Word,
            )
            | (AddressingMode::AddressIndirectPredecrement(..), OpSize::LongWord) => 10,
            (AddressingMode::AbsoluteLong, OpSize::Byte | OpSize::Word)
            | (
                AddressingMode::AddressIndirectDisplacement(..)
                | AddressingMode::PcRelativeDisplacement
                | AddressingMode::AbsoluteShort,
                OpSize::LongWord,
            ) => 12,
            (
                AddressingMode::AddressIndirectIndexed(..) | AddressingMode::PcRelativeIndexed,
                OpSize::LongWord,
            ) => 14,
            (AddressingMode::AbsoluteLong, OpSize::LongWord) => 16,
        }
    }
}

/// The kind of bus operation that raised an address error.
#[derive(Debug, Clone, Copy, PartialEq, Eq, Structural)]
pub enum BusOpType {
    Read,
    Write,
    Jump,
}

/// The 68000 exceptions the execution engine raises internally.
#[derive(Debug, Clone, Copy, PartialEq, Eq, Structural)]
pub enum Exception {
    AddressError(u32, BusOpType),
    PrivilegeViolation,
    IllegalInstruction(u16),
    DivisionByZero { cycles: u32 },
    Trap(u32),
    CheckRegister { cycles: u32 },
}

pub type ExecuteResult<T> = Result<T, Exception>;

/// A decoded instruction of the implemented subset.
#[derive(Debug, Clone, Copy, PartialEq, Eq, Structural)]
pub enum Instruction {
    Nop,
    Move { size: OpSize, source: AddressingMode, dest: AddressingMode },
    MoveFromSr(AddressingMode),
    MoveToSr(AddressingMode),
    Trap(u32),
}

impl Instruction {
    /// Every addressing mode the instruction mentions is in range.
    pub open spec fn wf(self) -> bool {
        match self {
            Instruction::Move { size, source, dest } => source.wf() && dest.wf(),
            Instruction::MoveFromSr(dest) => dest.wf(),
            Instruction::MoveToSr(source) => source.wf(),
            _ => true,
        }
    }

    /// The destination addressing mode, for the address-error stack frame.
    pub open spec fn spec_dest_addressing_mode(self) -> Option<AddressingMode> {
        match self {
            Instruction::Move { size, source, dest } => Option::Some(dest),
            Instruction::MoveFromSr(dest) => Option::Some(dest),
            Instruction::MoveToSr(..) => Option::None,
            _ => Option::None,
        }
    }

    /// The source addressing mode, for the address-error stack frame.
    pub open spec fn spec_source_addressing_mode(self) -> Option<AddressingMode> {
        match self {
            Instruction::Move { size, source, dest } => Option::Some(source),
            Instruction::MoveFromSr(..) => Option::None,
            Instruction::MoveToSr(source) => Option::Some(source),
            _ => Option::None,
        }
    }

    pub fn dest_addressing_mode(self) -> (r: Option<AddressingMode>)
        ensures
            r == self.spec_dest_addressing_mode(),
    {
        match self {
            Instruction::Move { dest, .. } => Some(dest),
            Instruction::MoveFromSr(dest) => Some(dest),
            _ => None,
        }
    }

    pub fn source_addressing_mode(self) -> (r: Option<AddressingMode>)
        ensures
            r == self.spec_source_addressing_mode(),
    {
        match self {
            Instruction::Move { source, .. } => Some(source),
            Instruction::MoveToSr(source) => Some(source),
            _ => None,
        }
    }
}

/// The addressing mode encoded by a 3-bit mode field and 3-bit register
/// field, or nothing for the unused encodings.
pub open spec fn spec_parse_addressing_mode(mode: u16, register: u16) -> Option<AddressingMode> {
    if mode == 0 {
        Option::Some(AddressingMode::DataDirect(DataRegister(register as u8)))
    } else if mode == 1 {
        Option::Some(AddressingMode::AddressDirect(AddressRegister(register as u8)))
    } else if mode == 2 {
        Option::Some(AddressingMode::AddressIndirect(AddressRegister(register as u8)))
    } else if mode == 3 {
        Option::Some(AddressingMode::AddressIndirectPostincrement(AddressRegister(register as u8)))
    } else if mode == 4 {
        Option::Some(AddressingMode::AddressIndirectPredecrement(AddressRegister(register as u8)))
    } else if mode == 5 {
        Option::Some(AddressingMode::AddressIndirectDisplacement(AddressRegister(register as u8)))
    } else if mode == 6 {
        Option::Some(AddressingMode::AddressIndirectIndexed(AddressRegister(register as u8)))
    } else if mode == 7 && register == 0 {
        Option::Some(AddressingMode::AbsoluteShort)
    } else if mode == 7 && register == 1 {
        Option::Some(AddressingMode::AbsoluteLong)
    } else if mode == 7 && register == 2 {
        Option::Some(AddressingMode::PcRelativeDisplacement)
    } else if mode == 7 && register == 3 {
        Option::Some(AddressingMode::PcRelativeIndexed)
    } else if mode == 7 && register == 4 {
        Option::Some(AddressingMode::Immediate)
    } else {
        Option::None
    }
}

/// Decodes a mode/register field pair.
pub fn parse_addressing_mode(mode: u16, register: u16) -> (r: Option<AddressingMode>)
    requires
        mode < 8,
        register < 8,
    ensures
        r == spec_parse_addressing_mode(mode, register),
        (r matches Some(m) ==> m.wf()),
{
    match mode {
        0 => Some(AddressingMode::DataDirect(DataRegister(register as u8))),
        1 => Some(AddressingMode::AddressDirect(AddressRegister(register as u8))),
        2 => Some(AddressingMode::AddressIndirect(AddressRegister(register as u8))),
        3 => Some(AddressingMode::AddressIndirectPostincrement(AddressRegister(register as u8))),
        4 => Some(AddressingMode::AddressIndirectPredecrement(AddressRegister(register as u8))),
        5 => Some(AddressingMode::AddressIndirectDisplacement(AddressRegister(register as u8))),
        6 => Some(AddressingMode::AddressIndirectIndexed(AddressRegister(register as u8))),
        _ => {
            match register {
                0 => Some(AddressingMode::AbsoluteShort),
                1 => Some(AddressingMode::AbsoluteLong),
                2 => Some(AddressingMode::PcRelativeDisplacement),
                3 => Some(AddressingMode::PcRelativeIndexed),
                4 => Some(AddressingMode::Immediate),
                _ => None,
            }
        },
    }
}

/// Whether `mode` may stand as a MOVE destination: data-alterable modes
/// only, and address-direct (MOVEA) never with byte width.
pub open spec fn spec_valid_move_dest(mode: AddressingMode, size: OpSize) -> bool {
    match mode {
        AddressingMode::DataDirect(..) => true,
        AddressingMode::AddressDirect(..) => !(size is Byte),
        AddressingMode::AddressIndirect(..) => true,
        AddressingMode::AddressIndirectPostincrement(..) => true,
        AddressingMode::AddressIndirectPredecrement(..) => true,
        AddressingMode::AddressIndirectDisplacement(..) => true,
        AddressingMode::AddressIndirectIndexed(..) => true,
        AddressingMode::AbsoluteShort => true,
        AddressingMode::AbsoluteLong => true,
        _ => false,
    }
}

/// The instruction a 16-bit opcode decodes to, or nothing when the opcode is
/// illegal or outside the implemented subset.
pub open spec fn spec_decode(opcode: u16) -> Option<Instruction> {
    if opcode == 0x4E71 {
        Option::Some(Instruction::Nop)
    } else if 0x4E40 <= opcode && opcode <= 0x4E4F {
        Option::Some(Instruction::Trap((opcode & 0xF) as u32))
    } else if opcode & 0xFFC0 == 0x40C0 {
        match spec_parse_addressing_mode((opcode >> 3) & 0x07, opcode & 0x07) {
            Option::Some(dest) => if spec_valid_move_dest(dest, OpSize::Word) {
                Option::Some(Instruction::MoveFromSr(dest))
            } else {
                Option::None
            },
            Option::None => Option::None,
        }
    } else if opcode & 0xFFC0 == 0x46C0 {
        match spec_parse_addressing_mode((opcode >> 3) & 0x07, opcode & 0x07) {
            Option::Some(source) => if !(source is AddressDirect) {
                Option::Some(Instruction::MoveToSr(source))
            } else {
                Option::None
            },
            Option::None => Option::None,
        }
    } else if opcode & 0xC000 == 0 && opcode & 0x3000 != 0 {
        let size = if opcode & 0x3000 == 0x1000 {
            OpSize::Byte
        } else if opcode & 0x3000 == 0x3000 {
            OpSize::Word
        } else {
            OpSize::LongWord
        };
        let source = spec_parse_addressing_mode((opcode >> 3) & 0x07, opcode & 0x07);
        let dest = spec_parse_addressing_mode((opcode >> 6) & 0x07, (opcode >> 9) & 0x07);
        match (source, dest) {
            (Option::Some(s), Option::Some(d)) => if spec_valid_move_dest(d, size) && !(
            d is Immediate) {
                Option::Some(Instruction::Move { size, source: s, dest: d })
            } else {
                Option::None
            },
            _ => Option::None,
        }
    } else {
        Option::None
    }
}

/// Decodes an opcode into the implemented instruction subset.
pub fn decode(opcode: u16) -> (r: Option<Instruction>)
    ensures
        r == spec_decode(opcode),
        (r matches Some(i) ==> i.wf()),
{
    proof {
        assert((opcode >> 3) & 0x07 < 8 && opcode & 0x07 < 8 && (opcode >> 6) & 0x07 < 8
            && (opcode >> 9) & 0x07 < 8) by (bit_vector);
    }
    if opcode == 0x4E71 {
        Some(Instruction::Nop)
    } else if 0x4E40 <= opcode && opcode <= 0x4E4F {
        Some(Instruction::Trap((opcode & 0xF) as u32))
    } else if opcode & 0xFFC0 == 0x40C0 {
        match parse_addressing_mode((opcode >> 3) & 0x07, opcode & 0x07) {
            Some(dest) => {
                if valid_move_dest(dest, OpSize::Word) {
                    Some(Instruction::MoveFromSr(dest))
                } else {
                    None
                }
            },
            None => None,
        }
    } else if opcode & 0xFFC0 == 0x46C0 {
        match parse_addressing_mode((opcode >> 3) & 0x07, opcode & 0x07) {
            Some(source) => {
                if !source.is_address_direct() {
                    Some(Instruction::MoveToSr(source))
                } else {
                    None
                }
            },
            None => None,
        }
    } else if opcode & 0xC000 == 0 && opcode & 0x3000 != 0 {
        let size = if opcode & 0x3000 == 0x1000 {
            OpSize::Byte
        } else if opcode & 0x3000 == 0x3000 {
            OpSize::Word
        } else {
            OpSize::LongWord
        };
        let source = parse_addressing_mode((opcode >> 3) & 0x07, opcode & 0x07);
        let dest = parse_addressing_mode((opcode >> 6) & 0x07, (opcode >> 9) & 0x07);
        match (source, dest) {
            (Some(s), Some(d)) => {
                if valid_move_dest(d, size) && !matches!(d, AddressingMode::Immediate) {
                    Some(Instruction::Move { size, source: s, dest: d })
                } else {
                    None
                }
            },
            _ => None,
        }
    } else {
        None
    }
}

/// Checks that `mode` is a legal MOVE destination for `size`.
fn valid_move_dest(mode: AddressingMode, size: OpSize) -> (r: bool)
    ensures
        r == spec_valid_move_dest(mode, size),
{
    match mode {
        AddressingMode::DataDirect(..) => true,
        AddressingMode::AddressDirect(..) => !matches!(size, OpSize::Byte),
        AddressingMode::AddressIndirect(..) => true,
        AddressingMode::AddressIndirectPostincrement(..) => true,
        AddressingMode::AddressIndirectPredecrement(..) => true,
        AddressingMode::AddressIndirectDisplacement(..) => true,
        AddressingMode::AddressIndirectIndexed(..) => true,
        AddressingMode::AbsoluteShort => true,
        AddressingMode::AbsoluteLong => true,
        _ => false,
    }
}

} // verus!
