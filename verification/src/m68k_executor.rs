//! The 68000 instruction executor: operand resolution, the stack discipline,
//! and the exception protocol.

use vstd::prelude::*;

use crate::m68k_bus::{spec_long, BusInterface};
use crate::m68k_instructions::{
    AddressingMode, BusOpType, Exception, ExecuteResult, Instruction,
};
use crate::m68k_registers::{AddressRegister, DataRegister, Registers};

verus! {

pub const ADDRESS_ERROR_VECTOR: u32 = 3;
pub const ILLEGAL_OPCODE_VECTOR: u32 = 4;
pub const DIVIDE_BY_ZERO_VECTOR: u32 = 5;
pub const CHECK_REGISTER_VECTOR: u32 = 6;
pub const PRIVILEGE_VIOLATION_VECTOR: u32 = 8;
pub const LINE_1010_VECTOR: u32 = 10;
pub const LINE_1111_VECTOR: u32 = 11;
pub const AUTO_VECTORED_INTERRUPT_BASE_ADDRESS: u32 = 0x60;

/// Wrapping additions and subtractions on bus addresses keep parity, and
/// consecutive stack adjustments compose.
pub proof fn lemma_wrap_arith(a: u32)
    ensures
        a.wrapping_add(2) % 2 == a % 2,
        a.wrapping_add(4) % 2 == a % 2,
        a.wrapping_sub(2) % 2 == a % 2,
        a.wrapping_sub(4) % 2 == a % 2,
        a.wrapping_sub(4).wrapping_add(2) == a.wrapping_sub(2),
        a.wrapping_sub(4).wrapping_sub(2) == a.wrapping_sub(6),
        a.wrapping_sub(6).wrapping_sub(2) == a.wrapping_sub(8),
        a.wrapping_sub(8).wrapping_sub(4) == a.wrapping_sub(12),
        a.wrapping_sub(12).wrapping_add(2) == a.wrapping_sub(10),
        a.wrapping_sub(12).wrapping_sub(2) == a.wrapping_sub(14),
        a.wrapping_sub(6) % 2 == a % 2,
        a.wrapping_sub(8) % 2 == a % 2,
        a.wrapping_sub(10) % 2 == a % 2,
        a.wrapping_sub(12) % 2 == a % 2,
        a.wrapping_sub(14) % 2 == a % 2,
        a.wrapping_add(2).wrapping_sub(2) == a,
{
}

/// A location an addressing mode resolved to.
#[derive(Debug, Clone, Copy, PartialEq, Eq, Structural)]
pub enum ResolvedAddress {
    DataRegister(DataRegister),
    AddressRegister(AddressRegister),
    Memory(u32),
    MemoryPostincrement { address: u32, register: AddressRegister, increment: u32 },
    Immediate(u32),
}

/// How `apply_post` changes the register file: a post-increment location
/// advances its register; everything else leaves the registers alone.
pub open spec fn apply_post_rel(resolved: ResolvedAddress, r0: Registers, r1: Registers) -> bool {
    match resolved {
        ResolvedAddress::MemoryPostincrement { address, register, increment } => {
            if register.0 == 7 {
                r1 == r0.spec_with_sp(address.wrapping_add(increment))
            } else {
                &&& r1.address@ == r0.address@.update(
                    register.0 as int,
                    address.wrapping_add(increment),
                )
                &&& r1 == (Registers { address: r1.address, ..r0 })
            }
        },
        _ => r1 == r0,
    }
}

/// The byte read from a resolved location: registers and immediates
/// truncate; memory reads the bus byte.
pub open spec fn spec_read_byte_resolved<B: BusInterface>(
    resolved: ResolvedAddress,
    r0: Registers,
    b0: B,
) -> u8 {
    match resolved {
        ResolvedAddress::DataRegister(reg) => r0.data@[reg.0 as int] as u8,
        ResolvedAddress::AddressRegister(reg) => reg.spec_read(r0) as u8,
        ResolvedAddress::Memory(address) => b0.byte_at(address),
        ResolvedAddress::MemoryPostincrement { address, .. } => b0.byte_at(address),
        ResolvedAddress::Immediate(value) => value as u8,
    }
}

/// The word read from a resolved location; an odd memory address is an
/// address error.
pub open spec fn spec_read_word_resolved<B: BusInterface>(
    resolved: ResolvedAddress,
    r0: Registers,
    b0: B,
) -> ExecuteResult<u16> {
    match resolved {
        ResolvedAddress::DataRegister(reg) => Result::Ok(r0.data@[reg.0 as int] as u16),
        ResolvedAddress::AddressRegister(reg) => Result::Ok(reg.spec_read(r0) as u16),
        ResolvedAddress::Memory(address) => if address % 2 == 0 {
            Result::Ok(b0.word_at(address))
        } else {
            Result::Err(Exception::AddressError(address, BusOpType::Read))
        },
        ResolvedAddress::MemoryPostincrement { address, .. } => if address % 2 == 0 {
            Result::Ok(b0.word_at(address))
        } else {
            Result::Err(Exception::AddressError(address, BusOpType::Read))
        },
        ResolvedAddress::Immediate(value) => Result::Ok(value as u16),
    }
}

/// The long word read from a resolved location; an odd memory address is an
/// address error.
pub open spec fn spec_read_long_resolved<B: BusInterface>(
    resolved: ResolvedAddress,
    r0: Registers,
    b0: B,
) -> ExecuteResult<u32> {
    match resolved {
        ResolvedAddress::DataRegister(reg) => Result::Ok(r0.data@[reg.0 as int]),
        ResolvedAddress::AddressRegister(reg) => Result::Ok(reg.spec_read(r0)),
        ResolvedAddress::Memory(address) => if address % 2 == 0 {
            Result::Ok(spec_long(b0.word_at(address), b0.word_at(address.wrapping_add(2))))
        } else {
            Result::Err(Exception::AddressError(address, BusOpType::Read))
        },
        ResolvedAddress::MemoryPostincrement { address, .. } => if address % 2 == 0 {
            Result::Ok(spec_long(b0.word_at(address), b0.word_at(address.wrapping_add(2))))
        } else {
            Result::Err(Exception::AddressError(address, BusOpType::Read))
        },
        ResolvedAddress::Immediate(value) => Result::Ok(value),
    }
}

/// After a faulting instruction the bus memory is untouched and the
/// supervisor stack pointer kept its parity, having moved only by the small
/// pre/post operand adjustments.
pub open spec fn err_state_rel<B: BusInterface>(r0: Registers, b0: B, r1: Registers, b1: B) -> bool {
    &&& crate::m68k_bus::mem_preserved(b0, b1)
    &&& r1.ssp % 2 == r0.ssp % 2
    &&& (0x200 <= r0.ssp <= 0xFFFF_0000 ==> r1.ssp >= 0x1F0)
}

impl ResolvedAddress {
    /// Whether the location is a bare address register.
    pub fn is_address_register(self) -> (r: bool)
        ensures
            r == (self is AddressRegister),
    {
        matches!(self, ResolvedAddress::AddressRegister(..))
    }

    /// The memory address of a memory-backed location.
    pub open spec fn spec_memory_address(self) -> u32 {
        match self {
            ResolvedAddress::Memory(address) => address,
            ResolvedAddress::MemoryPostincrement { address, .. } => address,
            _ => 0u32,
        }
    }

    /// Register numbers the location mentions are in range.
    pub open spec fn wf(self) -> bool {
        match self {
            ResolvedAddress::DataRegister(r) => r.0 < 8,
            ResolvedAddress::AddressRegister(r) => r.0 < 8,
            ResolvedAddress::MemoryPostincrement { address, register, increment } => register.0
                < 8,
            _ => true,
        }
    }

    /// Applies the pending post-increment, if this location carries one.
    pub fn apply_post(self, registers: &mut Registers)
        requires
            self.wf(),
        ensures
            apply_post_rel(self, *old(registers), *final(registers)),
    {
        if let ResolvedAddress::MemoryPostincrement { address, register, increment } = self {
            register.write_long_word_to(registers, address.wrapping_add(increment));
        }
    }
}

/// Executes one instruction against a register file and a bus; holds the
/// opcode being executed and its decoded form for the exception protocol.
#[derive(Debug, Clone, Copy)]
pub struct InstructionExecutor {
    pub allow_tas_writes: bool,
    pub opcode: u16,
    pub instruction: Option<Instruction>,
}

impl InstructionExecutor {
    pub fn new(allow_tas_writes: bool) -> (r: InstructionExecutor)
        ensures
            r.allow_tas_writes == allow_tas_writes,
            r.opcode == 0,
            r.instruction is None,
    {
        InstructionExecutor { allow_tas_writes, opcode: 0, instruction: None }
    }

    /// Reads a word from the bus; an odd address raises an address error
    /// before the access happens.
    pub fn read_bus_word<B: BusInterface>(&self, bus: &mut B, address: u32) -> (r: ExecuteResult<
        u16,
    >)
        ensures
            address % 2 == 0 ==> r == Result::<u16, Exception>::Ok(old(bus).word_at(address)),
            address % 2 != 0 ==> r == Result::<u16, Exception>::Err(
                Exception::AddressError(address, BusOpType::Read),
            ),
            crate::m68k_bus::mem_preserved(*old(bus), *final(bus)),
    {
        if address % 2 != 0 {
            return Err(Exception::AddressError(address, BusOpType::Read));
        }

        Ok(bus.read_word(address))
    }

    /// Writes a word to the bus; an odd address raises an address error
    /// before the access happens.
    pub fn write_bus_word<B: BusInterface>(&self, bus: &mut B, address: u32, value: u16) -> (r:
        ExecuteResult<()>)
        ensures
            address % 2 == 0 ==> {
                &&& r is Ok
                &&& final(bus).word_at(address) == value
                &&& crate::m68k_bus::words_preserved_except(
                    *old(bus),
                    *final(bus),
                    set![address],
                )
                &&& crate::m68k_bus::bytes_preserved_except(
                    *old(bus),
                    *final(bus),
                    set![address, address.wrapping_add(1)],
                )
            },
            address % 2 != 0 ==> {
                &&& r == Result::<(), Exception>::Err(
                    Exception::AddressError(address, BusOpType::Write),
                )
                &&& crate::m68k_bus::mem_preserved(*old(bus), *final(bus))
            },
    {
        if address % 2 != 0 {
            return Err(Exception::AddressError(address, BusOpType::Write));
        }

        bus.write_word(address, value);

        Ok(())
    }

    /// Reads a long word from the bus; an odd address raises an address
    /// error before the access happens.
    pub fn read_bus_long_word<B: BusInterface>(&self, bus: &mut B, address: u32) -> (r:
        ExecuteResult<u32>)
        ensures
            address % 2 == 0 ==> r == Result::<u32, Exception>::Ok(
                spec_long(
                    old(bus).word_at(address),
                    old(bus).word_at(address.wrapping_add(2)),
                ),
            ),
            address % 2 != 0 ==> r == Result::<u32, Exception>::Err(
                Exception::AddressError(address, BusOpType::Read),
            ),
            crate::m68k_bus::mem_preserved(*old(bus), *final(bus)),
    {
        if address % 2 != 0 {
            return Err(Exception::AddressError(address, BusOpType::Read));
        }

        Ok(bus.read_long_word(address))
    }

    /// Writes a long word to the bus; an odd address raises an address error
    /// before the access happens.
    pub fn write_bus_long_word<B: BusInterface>(&self, bus: &mut B, address: u32, value: u32) -> (
        r: ExecuteResult<()>)
        ensures
            address % 2 == 0 ==> {
                &&& r is Ok
                &&& final(bus).word_at(address) == (value >> 16) as u16
                &&& final(bus).word_at(address.wrapping_add(2)) == value as u16
                &&& crate::m68k_bus::words_preserved_except(
                    *old(bus),
                    *final(bus),
                    set![address, address.wrapping_add(2)],
                )
            },
            address % 2 != 0 ==> {
                &&& r == Result::<(), Exception>::Err(
                    Exception::AddressError(address, BusOpType::Write),
                )
                &&& crate::m68k_bus::mem_preserved(*old(bus), *final(bus))
            },
    {
        if address % 2 != 0 {
            return Err(Exception::AddressError(address, BusOpType::Write));
        }

        bus.write_long_word(address, value);

        Ok(())
    }

    /// Returns the prefetched word and refills the prefetch from the word
    /// after it, advancing PC; an odd PC raises an address error.
    pub fn fetch_operand<B: BusInterface>(&self, registers: &mut Registers, bus: &mut B) -> (r:
        ExecuteResult<u16>)
        ensures
            old(registers).pc % 2 == 0 ==> {
                &&& r == Result::<u16, Exception>::Ok(old(registers).prefetch)
                &&& *final(registers) == spec_fetched(*old(registers), *old(bus))
            },
            old(registers).pc % 2 != 0 ==> {
                &&& r == Result::<u16, Exception>::Err(
                    Exception::AddressError(
                        old(registers).pc.wrapping_add(2),
                        BusOpType::Read,
                    ),
                )
                &&& *final(registers) == *old(registers)
            },
            crate::m68k_bus::mem_preserved(*old(bus), *final(bus)),
    {
        proof {
            lemma_wrap_arith(registers.pc);
        }
        let operand = registers.prefetch;
        let fetched = self.read_bus_word(bus, registers.pc.wrapping_add(2));
        match fetched {
            Ok(word) => {
                registers.prefetch = word;
                registers.pc = registers.pc.wrapping_add(2);
                Ok(operand)
            },
            Err(e) => Err(e),
        }
    }

    /// Pushes a word: the live stack pointer moves down by 2 first; the
    /// write faults on an odd stack pointer.
    pub fn push_stack_u16<B: BusInterface>(
        &self,
        registers: &mut Registers,
        bus: &mut B,
        value: u16,
    ) -> (r: ExecuteResult<()>)
        ensures
            *final(registers) == old(registers).spec_with_sp(
                old(registers).spec_sp().wrapping_sub(2),
            ),
            old(registers).spec_sp() % 2 == 0 ==> {
                &&& r is Ok
                &&& final(bus).word_at(old(registers).spec_sp().wrapping_sub(2)) == value
                &&& crate::m68k_bus::words_preserved_except(
                    *old(bus),
                    *final(bus),
                    set![old(registers).spec_sp().wrapping_sub(2)],
                )
            },
            old(registers).spec_sp() % 2 != 0 ==> {
                &&& r == Result::<(), Exception>::Err(
                    Exception::AddressError(
                        old(registers).spec_sp().wrapping_sub(2),
                        BusOpType::Write,
                    ),
                )
                &&& crate::m68k_bus::mem_preserved(*old(bus), *final(bus))
            },
    {
        proof {
            lemma_wrap_arith(registers.spec_sp());
        }
        let sp = registers.sp().wrapping_sub(2);
        registers.set_sp(sp);

        let r = self.write_bus_word(bus, sp, value);
        r
    }

    /// Pushes a long word as two word writes, high word at the lower
    /// address.
    pub fn push_stack_u32<B: BusInterface>(
        &self,
        registers: &mut Registers,
        bus: &mut B,
        value: u32,
    ) -> (r: ExecuteResult<()>)
        ensures
            *final(registers) == old(registers).spec_with_sp(
                old(registers).spec_sp().wrapping_sub(4),
            ),
            old(registers).spec_sp() % 2 == 0 ==> {
                &&& r is Ok
                &&& final(bus).word_at(old(registers).spec_sp().wrapping_sub(4))
                    == (value >> 16) as u16
                &&& final(bus).word_at(old(registers).spec_sp().wrapping_sub(2)) == value as u16
                &&& crate::m68k_bus::words_preserved_except(
                    *old(bus),
                    *final(bus),
                    set![
                        old(registers).spec_sp().wrapping_sub(4),
                        old(registers).spec_sp().wrapping_sub(2),
                    ],
                )
            },
            old(registers).spec_sp() % 2 != 0 ==> {
                &&& r == Result::<(), Exception>::Err(
                    Exception::AddressError(
                        old(registers).spec_sp().wrapping_sub(4),
                        BusOpType::Write,
                    ),
                )
                &&& crate::m68k_bus::mem_preserved(*old(bus), *final(bus))
            },
    {
        proof {
            lemma_wrap_arith(registers.spec_sp());
        }
        let high_word = (value >> 16) as u16;
        let low_word = value as u16;

        let sp = registers.sp().wrapping_sub(4);
        registers.set_sp(sp);

        let first = self.write_bus_word(bus, sp, high_word);
        match first {
            Ok(()) => self.write_bus_word(bus, sp.wrapping_add(2), low_word),
            Err(e) => Err(e),
        }
    }

    /// Pops a word; the stack pointer moves only when the read succeeded.
    pub fn pop_stack_u16<B: BusInterface>(&self, registers: &mut Registers, bus: &mut B) -> (r:
        ExecuteResult<u16>)
        ensures
            crate::m68k_bus::mem_preserved(*old(bus), *final(bus)),
            old(registers).spec_sp() % 2 == 0 ==> {
                &&& r == Result::<u16, Exception>::Ok(
                    old(bus).word_at(old(registers).spec_sp()),
                )
                &&& *final(registers) == old(registers).spec_with_sp(
                    old(registers).spec_sp().wrapping_add(2),
                )
            },
            old(registers).spec_sp() % 2 != 0 ==> {
                &&& r == Result::<u16, Exception>::Err(
                    Exception::AddressError(old(registers).spec_sp(), BusOpType::Read),
                )
                &&& *final(registers) == *old(registers)
            },
    {
        let sp = registers.sp();
        let value = self.read_bus_word(bus, sp);
        match value {
            Ok(word) => {
                registers.set_sp(sp.wrapping_add(2));
                Ok(word)
            },
            Err(e) => Err(e),
        }
    }

    /// Pops a long word; the stack pointer moves only when the read
    /// succeeded.
    pub fn pop_stack_u32<B: BusInterface>(&self, registers: &mut Registers, bus: &mut B) -> (r:
        ExecuteResult<u32>)
        ensures
            crate::m68k_bus::mem_preserved(*old(bus), *final(bus)),
            old(registers).spec_sp() % 2 == 0 ==> {
                &&& r == Result::<u32, Exception>::Ok(
                    spec_long(
                        old(bus).word_at(old(registers).spec_sp()),
                        old(bus).word_at(old(registers).spec_sp().wrapping_add(2)),
                    ),
                )
                &&& *final(registers) == old(registers).spec_with_sp(
                    old(registers).spec_sp().wrapping_add(4),
                )
            },
            old(registers).spec_sp() % 2 != 0 ==> {
                &&& r == Result::<u32, Exception>::Err(
                    Exception::AddressError(old(registers).spec_sp(), BusOpType::Read),
                )
                &&& *final(registers) == *old(registers)
            },
    {
        let sp = registers.sp();
        let value = self.read_bus_long_word(bus, sp);
        match value {
            Ok(long) => {
                registers.set_sp(sp.wrapping_add(4));
                Ok(long)
            },
            Err(e) => Err(e),
        }
    }

    /// Jumps: PC lands two bytes short of the target, then one fetch
    /// re-establishes the prefetch invariant; an odd target raises an
    /// address error with the PC already moved.
    pub fn jump_to_address<B: BusInterface>(
        &self,
        registers: &mut Registers,
        bus: &mut B,
        address: u32,
    ) -> (r: ExecuteResult<()>)
        ensures
            crate::m68k_bus::mem_preserved(*old(bus), *final(bus)),
            address % 2 == 0 ==> {
                &&& r is Ok
                &&& *final(registers) == (Registers {
                    pc: address,
                    prefetch: old(bus).word_at(address),
                    ..*old(registers)
                })
            },
            address % 2 != 0 ==> {
                &&& r == Result::<(), Exception>::Err(
                    Exception::AddressError(address, BusOpType::Jump),
                )
                &&& *final(registers) == (Registers {
                    pc: address.wrapping_sub(2),
                    ..*old(registers)
                })
            },
    {
        proof {
            lemma_wrap_arith(address);
        }
        registers.pc = address.wrapping_sub(2);

        if address % 2 != 0 {
            return Err(Exception::AddressError(address, BusOpType::Jump));
        }

        proof {
            assert(address.wrapping_sub(2).wrapping_add(2) == address);
        }
        let _ = self.fetch_operand(registers, bus);

        Ok(())
    }
}

/// The register file after one instruction-stream fetch: PC advanced by two,
/// the prefetch refilled from the following word.
pub open spec fn spec_fetched<B: BusInterface>(r: Registers, b: B) -> Registers {
    Registers { prefetch: b.word_at(r.pc.wrapping_add(2)), pc: r.pc.wrapping_add(2), ..r }
}

/// The long word the exception vector `v` points at.
pub open spec fn spec_vector_target<B: BusInterface>(b: B, v: u32) -> u32 {
    spec_long(b.word_at((4 * v) as u32), b.word_at((4 * v + 2) as u32))
}

/// Every entry of the exception vector table holds an even target address.
pub open spec fn vectors_aligned<B: BusInterface>(b: B) -> bool {
    forall|v: u32| v < 0x40 ==> #[trigger] spec_vector_target(b, v) % 2 == 0
}

/// The PC value pushed by an address-error frame: the documented quirks move
/// it back by 0 or 4 bytes instead of the usual 2, depending on the faulting
/// instruction's operand modes.
pub open spec fn spec_address_error_pc(
    instruction: Option<Instruction>,
    op_type: BusOpType,
    pc: u32,
) -> u32 {
    let dest = match instruction {
        Option::Some(i) => i.spec_dest_addressing_mode(),
        Option::None => Option::None,
    };
    let source = match instruction {
        Option::Some(i) => i.spec_source_addressing_mode(),
        Option::None => Option::None,
    };
    if op_type is Write && (dest matches Some(d) && d is AddressIndirectPredecrement)
        && source is Some {
        pc
    } else if op_type is Write && (dest matches Some(d) && d is AbsoluteLong) && (
    source matches Some(s) && s.spec_is_memory()) {
        pc.wrapping_sub(4)
    } else {
        pc.wrapping_sub(2)
    }
}

/// The complete effect of a trap-style exception entry on registers and
/// memory: `pushed_pc` and the pre-exception SR stand on the supervisor
/// stack (which dropped by 6), the CPU is in supervisor mode with trace
/// cleared, and PC and the prefetch were loaded through `vector`; nothing
/// else moved.
pub open spec fn trap_entry_rel<B: BusInterface>(
    r0: Registers,
    b0: B,
    r1: Registers,
    b1: B,
    vector: u32,
    pushed_pc: u32,
) -> bool {
    &&& b1.word_at(r0.ssp.wrapping_sub(4)) == (pushed_pc >> 16) as u16
    &&& b1.word_at(r0.ssp.wrapping_sub(2)) == pushed_pc as u16
    &&& b1.word_at(r0.ssp.wrapping_sub(6)) == r0.spec_sr()
    &&& crate::m68k_bus::words_preserved_except(
        b0,
        b1,
        set![r0.ssp.wrapping_sub(4), r0.ssp.wrapping_sub(2), r0.ssp.wrapping_sub(6)],
    )
    &&& r1 == (Registers {
        trace_enabled: false,
        supervisor_mode: true,
        ssp: r0.ssp.wrapping_sub(6),
        pc: spec_vector_target(b1, vector),
        prefetch: b1.word_at(spec_vector_target(b1, vector)),
        ..r0
    })
}

/// Law: the address-error frame pushes PC minus 4 when the faulting
/// instruction's destination is absolute-long and its source is any memory
/// mode; it pushes the unadjusted PC for a predecrement destination; and it
/// pushes PC minus 2 in every other case.
pub proof fn lemma_address_error_pc_adjustment(
    instruction: Instruction,
    op_type: BusOpType,
    pc: u32,
)
    ensures
        (instruction matches Instruction::Move { size, source, dest } ==> {
            &&& (op_type is Write && dest is AbsoluteLong && source.spec_is_memory()
                ==> spec_address_error_pc(Option::Some(instruction), op_type, pc)
                == pc.wrapping_sub(4))
            &&& (op_type is Write && dest is AddressIndirectPredecrement
                ==> spec_address_error_pc(Option::Some(instruction), op_type, pc) == pc)
            &&& (op_type is Read ==> spec_address_error_pc(
                Option::Some(instruction),
                op_type,
                pc,
            ) == pc.wrapping_sub(2))
        }),
        instruction is Nop ==> spec_address_error_pc(Option::Some(instruction), op_type, pc)
            == pc.wrapping_sub(2),
{
}

/// The 16-bit status word of an address-error frame: the opcode's high bits,
/// the read/write bit (inverted for MOVE from SR), and the function code.
pub open spec fn spec_address_error_status_word(
    instruction: Option<Instruction>,
    opcode: u16,
    op_type: BusOpType,
    was_supervisor: bool,
) -> u16 {
    let rw_bit = ((op_type is Read) || (op_type is Jump)) != (
    instruction matches Some(Instruction::MoveFromSr(..)));
    let status_code: u16 = if op_type is Jump {
        if was_supervisor {
            0x0Eu16
        } else {
            0x0Au16
        }
    } else {
        0x05u16
    };
    (opcode & 0xFFE0) | (if rw_bit {
        0x10u16
    } else {
        0u16
    }) | status_code
}

/// The vector an illegal opcode traps through: the line-1010 and line-1111
/// opcode blocks use their own vectors.
pub open spec fn spec_illegal_vector(opcode: u16) -> u32 {
    if opcode >> 12 == 0xA {
        LINE_1010_VECTOR
    } else if opcode >> 12 == 0xF {
        LINE_1111_VECTOR
    } else {
        ILLEGAL_OPCODE_VECTOR
    }
}

impl InstructionExecutor {
    /// Handles an address error: drops into supervisor mode and pushes the
    /// documented 14-byte frame — PC (adjusted per operand modes), SR,
    /// opcode, the faulting address, and the status word — then loads PC
    /// from the address-error vector. A misaligned supervisor stack makes
    /// the first push fail, which the caller treats as a double fault.
    pub fn handle_address_error<B: BusInterface>(
        &self,
        registers: &mut Registers,
        bus: &mut B,
        address: u32,
        op_type: BusOpType,
    ) -> (r: ExecuteResult<()>)
        ensures
            old(registers).ssp % 2 == 0 ==> {
                &&& r is Ok
                &&& *final(registers) == (Registers {
                    trace_enabled: false,
                    supervisor_mode: true,
                    ssp: old(registers).ssp.wrapping_sub(14),
                    pc: spec_long(final(bus).word_at(12), final(bus).word_at(14)),
                    ..*old(registers)
                })
                &&& final(bus).word_at(old(registers).ssp.wrapping_sub(14))
                    == spec_address_error_status_word(
                    self.instruction,
                    self.opcode,
                    op_type,
                    old(registers).supervisor_mode,
                )
                &&& final(bus).word_at(old(registers).ssp.wrapping_sub(12))
                    == (address >> 16) as u16
                &&& final(bus).word_at(old(registers).ssp.wrapping_sub(10)) == address as u16
                &&& final(bus).word_at(old(registers).ssp.wrapping_sub(8)) == self.opcode
                &&& final(bus).word_at(old(registers).ssp.wrapping_sub(6))
                    == old(registers).spec_sr()
                &&& final(bus).word_at(old(registers).ssp.wrapping_sub(4))
                    == (spec_address_error_pc(self.instruction, op_type, old(registers).pc)
                    >> 16) as u16
                &&& final(bus).word_at(old(registers).ssp.wrapping_sub(2))
                    == spec_address_error_pc(
                    self.instruction,
                    op_type,
                    old(registers).pc,
                ) as u16
                &&& crate::m68k_bus::words_preserved_except(
                    *old(bus),
                    *final(bus),
                    set![
                        old(registers).ssp.wrapping_sub(14),
                        old(registers).ssp.wrapping_sub(12),
                        old(registers).ssp.wrapping_sub(10),
                        old(registers).ssp.wrapping_sub(8),
                        old(registers).ssp.wrapping_sub(6),
                        old(registers).ssp.wrapping_sub(4),
                        old(registers).ssp.wrapping_sub(2),
                    ],
                )
            },
            old(registers).ssp % 2 != 0 ==> {
                &&& r == Result::<(), Exception>::Err(
                    Exception::AddressError(
                        old(registers).ssp.wrapping_sub(4),
                        BusOpType::Write,
                    ),
                )
                &&& *final(registers) == (Registers {
                    trace_enabled: false,
                    supervisor_mode: true,
                    ssp: old(registers).ssp.wrapping_sub(4),
                    ..*old(registers)
                })
                &&& crate::m68k_bus::mem_preserved(*old(bus), *final(bus))
            },
    {
        proof {
            lemma_wrap_arith(old(registers).ssp);
        }
        let sr = registers.status_register();
        let supervisor_mode = registers.supervisor_mode;

        registers.trace_enabled = false;
        registers.supervisor_mode = true;

        let dest = match self.instruction {
            Some(instruction) => instruction.dest_addressing_mode(),
            None => None,
        };
        let source = match self.instruction {
            Some(instruction) => instruction.source_addressing_mode(),
            None => None,
        };

        let pc = match (op_type, dest, source) {
            (BusOpType::Write, Some(AddressingMode::AddressIndirectPredecrement(..)), Some(_)) => {
                registers.pc
            },
            (
                BusOpType::Write,
                Some(AddressingMode::AbsoluteLong),
                Some(
                    AddressingMode::AddressIndirect(..)
                    | AddressingMode::AddressIndirectPostincrement(..)
                    | AddressingMode::AddressIndirectPredecrement(..)
                    | AddressingMode::AddressIndirectDisplacement(..)
                    | AddressingMode::AddressIndirectIndexed(..)
                    | AddressingMode::PcRelativeDisplacement
                    | AddressingMode::PcRelativeIndexed
                    | AddressingMode::AbsoluteShort
                    | AddressingMode::AbsoluteLong,
                ),
            ) => registers.pc.wrapping_sub(4),
            _ => registers.pc.wrapping_sub(2),
        };

        match self.push_stack_u32(registers, bus, pc) {
            Ok(()) => (),
            Err(e) => {
                return Err(e);
            },
        }
        match self.push_stack_u16(registers, bus, sr) {
            Ok(()) => (),
            Err(e) => {
                return Err(e);
            },
        }
        match self.push_stack_u16(registers, bus, self.opcode) {
            Ok(()) => (),
            Err(e) => {
                return Err(e);
            },
        }
        match self.push_stack_u32(registers, bus, address) {
            Ok(()) => (),
            Err(e) => {
                return Err(e);
            },
        }

        let rw_bit = (matches!(op_type, BusOpType::Read) || matches!(op_type, BusOpType::Jump))
            ^ matches!(self.instruction, Some(Instruction::MoveFromSr(..)));
        let status_code: u16 = match op_type {
            BusOpType::Jump => {
                if supervisor_mode {
                    0x0E
                } else {
                    0x0A
                }
            },
            _ => 0x05,
        };
        let status_word = (self.opcode & 0xFFE0) | (if rw_bit {
            0x10u16
        } else {
            0u16
        }) | status_code;
        match self.push_stack_u16(registers, bus, status_word) {
            Ok(()) => (),
            Err(e) => {
                return Err(e);
            },
        }

        let vector = bus.read_long_word(ADDRESS_ERROR_VECTOR * 4);
        registers.pc = vector;

        Ok(())
    }

    /// Handles a trap-style exception: pushes PC and SR in supervisor mode,
    /// then jumps through the given vector.
    pub fn handle_trap<B: BusInterface>(
        &self,
        registers: &mut Registers,
        bus: &mut B,
        vector: u32,
        pc: u32,
    ) -> (r: ExecuteResult<()>)
        requires
            vector <= 0xFF,
        ensures
            old(registers).ssp % 2 == 0 ==> {
                &&& final(bus).word_at(old(registers).ssp.wrapping_sub(4)) == (pc >> 16) as u16
                &&& final(bus).word_at(old(registers).ssp.wrapping_sub(2)) == pc as u16
                &&& final(bus).word_at(old(registers).ssp.wrapping_sub(6))
                    == old(registers).spec_sr()
                &&& crate::m68k_bus::words_preserved_except(
                    *old(bus),
                    *final(bus),
                    set![
                        old(registers).ssp.wrapping_sub(4),
                        old(registers).ssp.wrapping_sub(2),
                        old(registers).ssp.wrapping_sub(6),
                    ],
                )
                &&& {
                    let target = spec_vector_target(*final(bus), vector);
                    if target % 2 == 0 {
                        &&& r is Ok
                        &&& *final(registers) == (Registers {
                            trace_enabled: false,
                            supervisor_mode: true,
                            ssp: old(registers).ssp.wrapping_sub(6),
                            pc: target,
                            prefetch: final(bus).word_at(target),
                            ..*old(registers)
                        })
                    } else {
                        &&& r == Result::<(), Exception>::Err(
                            Exception::AddressError(target, BusOpType::Jump),
                        )
                        &&& *final(registers) == (Registers {
                            trace_enabled: false,
                            supervisor_mode: true,
                            ssp: old(registers).ssp.wrapping_sub(6),
                            pc: target.wrapping_sub(2),
                            ..*old(registers)
                        })
                    }
                }
            },
            old(registers).ssp % 2 != 0 ==> {
                &&& r == Result::<(), Exception>::Err(
                    Exception::AddressError(
                        old(registers).ssp.wrapping_sub(4),
                        BusOpType::Write,
                    ),
                )
                &&& *final(registers) == (Registers {
                    trace_enabled: false,
                    supervisor_mode: true,
                    ssp: old(registers).ssp.wrapping_sub(4),
                    ..*old(registers)
                })
                &&& crate::m68k_bus::mem_preserved(*old(bus), *final(bus))
            },
    {
        proof {
            lemma_wrap_arith(old(registers).ssp);
        }
        let sr = registers.status_register();
        registers.trace_enabled = false;
        registers.supervisor_mode = true;

        match self.push_stack_u32(registers, bus, pc) {
            Ok(()) => (),
            Err(e) => {
                return Err(e);
            },
        }
        match self.push_stack_u16(registers, bus, sr) {
            Ok(()) => (),
            Err(e) => {
                return Err(e);
            },
        }

        let new_pc = bus.read_long_word(vector * 4);
        match self.jump_to_address(registers, bus, new_pc) {
            Ok(()) => (),
            Err(e) => {
                return Err(e);
            },
        }

        Ok(())
    }

    /// One width of `execute_move`.
    #[verifier::rlimit(100)]
    fn execute_move_byte<B: BusInterface>(
        &self,
        registers: &mut Registers,
        bus: &mut B,
        source: AddressingMode,
        dest: AddressingMode,
    ) -> (r: ExecuteResult<u32>)
        requires
            source.wf(),
            dest.wf(),
            crate::m68k_instructions::spec_valid_move_dest(
                dest,
                crate::m68k_registers::OpSize::Byte,
            ),
        ensures
            (r matches Ok(c) ==> c == 4 + source.spec_address_calculation_cycles(crate::m68k_registers::OpSize::Byte)
                + dest.spec_address_calculation_cycles(crate::m68k_registers::OpSize::Byte)),
            (r matches Err(e) ==> e is AddressError),
            (r is Err ==> err_state_rel(*old(registers), *old(bus), *final(registers), *final(bus))),
            final(registers).address_error == old(registers).address_error,
            final(registers).last_instruction_was_muldiv == old(
                registers,
            ).last_instruction_was_muldiv,
            (r is Ok ==> spec_move_value(source, crate::m68k_registers::OpSize::Byte, *old(registers), *old(bus)) is Ok),
            (r is Ok ==> (spec_move_value(source, crate::m68k_registers::OpSize::Byte, *old(registers), *old(bus)) matches Ok(
                value,
            ) ==> final(registers).ccr == (if dest is AddressDirect {
                old(registers).ccr
            } else {
                spec_move_flags(crate::m68k_registers::OpSize::Byte, value, old(registers).ccr)
            }))),
            (r is Ok ==> (dest matches AddressingMode::DataDirect(reg) ==> (spec_move_value(
                source,
                crate::m68k_registers::OpSize::Byte,
                *old(registers),
                *old(bus),
            ) matches Ok(value) ==> final(registers).data@ == old(registers).data@.update(
                reg.0 as int,
                (old(registers).data@[reg.0 as int] & 0xFFFF_FF00) | value,
            )))),
            (r is Ok ==> (dest matches AddressingMode::AddressDirect(reg) ==> (spec_move_value(
                source,
                crate::m68k_registers::OpSize::Byte,
                *old(registers),
                *old(bus),
            ) matches Ok(value) ==> {
                let stored: u32 = value;
                if reg.0 == 7 {
                    final(registers).spec_sp() == stored
                } else {
                    final(registers).address@[reg.0 as int] == stored
                }
            }))),
            (old(registers).pc % 2 == 0 && !source.spec_is_memory() && (dest is DataDirect
                || dest is AddressDirect) ==> r is Ok),
    {
        proof {
            lemma_wrap_arith(old(registers).ssp);
        }
        let cycles = 4 + source.address_calculation_cycles(
            crate::m68k_registers::OpSize::Byte,
        ) + dest.address_calculation_cycles(crate::m68k_registers::OpSize::Byte);

        let value = match self.read_byte(registers, bus, source) {
            Ok(v) => v,
            Err(e) => {
                return Err(e);
            },
        };
        let ghost r_mid = *registers;
        let dest_resolved = match self.resolve_address(
            registers,
            bus,
            dest,
            crate::m68k_registers::OpSize::Byte,
        ) {
            Ok(res) => res,
            Err(e) => {
                proof {
                    lemma_wrap_arith(r_mid.ssp);
                }
                return Err(e);
            },
        };
        registers.ccr = crate::m68k_registers::ConditionCodes {
            carry: false,
            overflow: false,
            zero: value == 0,
            negative: crate::bits::bit_u8(value, 7),
            extend: registers.ccr.extend,
        };
        self.write_byte_resolved(registers, bus, dest_resolved, value);
        dest_resolved.apply_post(registers);
        Ok(cycles)
    }

    /// One width of `execute_move`.
    #[verifier::rlimit(100)]
    fn execute_move_word<B: BusInterface>(
        &self,
        registers: &mut Registers,
        bus: &mut B,
        source: AddressingMode,
        dest: AddressingMode,
    ) -> (r: ExecuteResult<u32>)
        requires
            source.wf(),
            dest.wf(),
            crate::m68k_instructions::spec_valid_move_dest(
                dest,
                crate::m68k_registers::OpSize::Word,
            ),
        ensures
            (r matches Ok(c) ==> c == 4 + source.spec_address_calculation_cycles(crate::m68k_registers::OpSize::Word)
                + dest.spec_address_calculation_cycles(crate::m68k_registers::OpSize::Word)),
            (r matches Err(e) ==> e is AddressError),
            (r is Err ==> err_state_rel(*old(registers), *old(bus), *final(registers), *final(bus))),
            final(registers).address_error == old(registers).address_error,
            final(registers).last_instruction_was_muldiv == old(
                registers,
            ).last_instruction_was_muldiv,
            (r is Ok ==> spec_move_value(source, crate::m68k_registers::OpSize::Word, *old(registers), *old(bus)) is Ok),
            (r is Ok ==> (spec_move_value(source, crate::m68k_registers::OpSize::Word, *old(registers), *old(bus)) matches Ok(
                value,
            ) ==> final(registers).ccr == (if dest is AddressDirect {
                old(registers).ccr
            } else {
                spec_move_flags(crate::m68k_registers::OpSize::Word, value, old(registers).ccr)
            }))),
            (r is Ok ==> (dest matches AddressingMode::DataDirect(reg) ==> (spec_move_value(
                source,
                crate::m68k_registers::OpSize::Word,
                *old(registers),
                *old(bus),
            ) matches Ok(value) ==> final(registers).data@ == old(registers).data@.update(
                reg.0 as int,
                (old(registers).data@[reg.0 as int] & 0xFFFF_0000) | value,
            )))),
            (r is Ok ==> (dest matches AddressingMode::AddressDirect(reg) ==> (spec_move_value(
                source,
                crate::m68k_registers::OpSize::Word,
                *old(registers),
                *old(bus),
            ) matches Ok(value) ==> {
                let stored: u32 = (value as u16) as i16 as u32;
                if reg.0 == 7 {
                    final(registers).spec_sp() == stored
                } else {
                    final(registers).address@[reg.0 as int] == stored
                }
            }))),
            (old(registers).pc % 2 == 0 && !source.spec_is_memory() && (dest is DataDirect
                || dest is AddressDirect) ==> r is Ok),
    {
        proof {
            lemma_wrap_arith(old(registers).ssp);
        }
        let cycles = 4 + source.address_calculation_cycles(
            crate::m68k_registers::OpSize::Word,
        ) + dest.address_calculation_cycles(crate::m68k_registers::OpSize::Word);

        let value = match self.read_word(registers, bus, source) {
            Ok(v) => v,
            Err(e) => {
                return Err(e);
            },
        };
        let ghost r_mid = *registers;
        let dest_resolved = match self.resolve_address(
            registers,
            bus,
            dest,
            crate::m68k_registers::OpSize::Word,
        ) {
            Ok(res) => res,
            Err(e) => {
                proof {
                    lemma_wrap_arith(r_mid.ssp);
                }
                return Err(e);
            },
        };
        if !dest_resolved.is_address_register() {
            registers.ccr = crate::m68k_registers::ConditionCodes {
                carry: false,
                overflow: false,
                zero: value == 0,
                negative: crate::bits::bit_u16(value, 15),
                extend: registers.ccr.extend,
            };
        }
        match self.write_word_resolved(registers, bus, dest_resolved, value) {
            Ok(()) => (),
            Err(e) => {
                proof {
                    lemma_wrap_arith(r_mid.ssp);
                }
                return Err(e);
            },
        }
        dest_resolved.apply_post(registers);
        Ok(cycles)
    }

    /// One width of `execute_move`.
    #[verifier::rlimit(100)]
    fn execute_move_long<B: BusInterface>(
        &self,
        registers: &mut Registers,
        bus: &mut B,
        source: AddressingMode,
        dest: AddressingMode,
    ) -> (r: ExecuteResult<u32>)
        requires
            source.wf(),
            dest.wf(),
            crate::m68k_instructions::spec_valid_move_dest(
                dest,
                crate::m68k_registers::OpSize::LongWord,
            ),
        ensures
            (r matches Ok(c) ==> c == 4 + source.spec_address_calculation_cycles(crate::m68k_registers::OpSize::LongWord)
                + dest.spec_address_calculation_cycles(crate::m68k_registers::OpSize::LongWord)),
            (r matches Err(e) ==> e is AddressError),
            (r is Err ==> err_state_rel(*old(registers), *old(bus), *final(registers), *final(bus))),
            final(registers).address_error == old(registers).address_error,
            final(registers).last_instruction_was_muldiv == old(
                registers,
            ).last_instruction_was_muldiv,
            (r is Ok ==> spec_move_value(source, crate::m68k_registers::OpSize::LongWord, *old(registers), *old(bus)) is Ok),
            (r is Ok ==> (spec_move_value(source, crate::m68k_registers::OpSize::LongWord, *old(registers), *old(bus)) matches Ok(
                value,
            ) ==> final(registers).ccr == (if dest is AddressDirect {
                old(registers).ccr
            } else {
                spec_move_flags(crate::m68k_registers::OpSize::LongWord, value, old(registers).ccr)
            }))),
            (r is Ok ==> (dest matches AddressingMode::DataDirect(reg) ==> (spec_move_value(
                source,
                crate::m68k_registers::OpSize::LongWord,
                *old(registers),
                *old(bus),
            ) matches Ok(value) ==> final(registers).data@ == old(registers).data@.update(
                reg.0 as int,
                value,
            )))),
            (r is Ok ==> (dest matches AddressingMode::AddressDirect(reg) ==> (spec_move_value(
                source,
                crate::m68k_registers::OpSize::LongWord,
                *old(registers),
                *old(bus),
            ) matches Ok(value) ==> {
                let stored: u32 = value;
                if reg.0 == 7 {
                    final(registers).spec_sp() == stored
                } else {
                    final(registers).address@[reg.0 as int] == stored
                }
            }))),
            (old(registers).pc % 2 == 0 && !source.spec_is_memory() && (dest is DataDirect
                || dest is AddressDirect) ==> r is Ok),
    {
        proof {
            lemma_wrap_arith(old(registers).ssp);
        }
        let cycles = 4 + source.address_calculation_cycles(
            crate::m68k_registers::OpSize::LongWord,
        ) + dest.address_calculation_cycles(crate::m68k_registers::OpSize::LongWord);

        let value = match self.read_long_word(registers, bus, source) {
            Ok(v) => v,
            Err(e) => {
                return Err(e);
            },
        };
        let ghost r_mid = *registers;
        let dest_resolved = match self.resolve_address(
            registers,
            bus,
            dest,
            crate::m68k_registers::OpSize::LongWord,
        ) {
            Ok(res) => res,
            Err(e) => {
                proof {
                    lemma_wrap_arith(r_mid.ssp);
                }
                return Err(e);
            },
        };
        if !dest_resolved.is_address_register() {
            registers.ccr = crate::m68k_registers::ConditionCodes {
                carry: false,
                overflow: false,
                zero: value == 0,
                negative: value >= 0x8000_0000,
                extend: registers.ccr.extend,
            };
        }
        match self.write_long_word_resolved(registers, bus, dest_resolved, value) {
            Ok(()) => (),
            Err(e) => {
                proof {
                    lemma_wrap_arith(r_mid.ssp);
                }
                return Err(e);
            },
        }
        dest_resolved.apply_post(registers);
        Ok(cycles)
    }

    /// Executes a MOVE: reads the source, sets the N/Z flags and clears
    /// V/C, and writes the destination; either operand may fault.
    fn execute_move<B: BusInterface>(
        &self,
        registers: &mut Registers,
        bus: &mut B,
        size: crate::m68k_registers::OpSize,
        source: AddressingMode,
        dest: AddressingMode,
    ) -> (r: ExecuteResult<u32>)
        requires
            source.wf(),
            dest.wf(),
            crate::m68k_instructions::spec_valid_move_dest(dest, size),
        ensures
            (r matches Ok(c) ==> c == 4 + source.spec_address_calculation_cycles(size)
                + dest.spec_address_calculation_cycles(size)),
            (r matches Err(e) ==> e is AddressError),
            (r is Err ==> err_state_rel(*old(registers), *old(bus), *final(registers), *final(bus))),
            final(registers).address_error == old(registers).address_error,
            final(registers).last_instruction_was_muldiv == old(
                registers,
            ).last_instruction_was_muldiv,
            (r is Ok ==> spec_move_value(source, size, *old(registers), *old(bus)) is Ok),
            (r is Ok ==> (spec_move_value(source, size, *old(registers), *old(bus)) matches Ok(
                value,
            ) ==> final(registers).ccr == (if dest is AddressDirect {
                old(registers).ccr
            } else {
                spec_move_flags(size, value, old(registers).ccr)
            }))),
            (r is Ok ==> (dest matches AddressingMode::DataDirect(reg) ==> (spec_move_value(
                source,
                size,
                *old(registers),
                *old(bus),
            ) matches Ok(value) ==> final(registers).data@ == old(registers).data@.update(
                reg.0 as int,
                (match size {
                    crate::m68k_registers::OpSize::Byte => (old(registers).data@[reg.0 as int]
                        & 0xFFFF_FF00) | value,
                    crate::m68k_registers::OpSize::Word => (old(registers).data@[reg.0 as int]
                        & 0xFFFF_0000) | value,
                    crate::m68k_registers::OpSize::LongWord => value,
                }),
            )))),
            (r is Ok ==> (dest matches AddressingMode::AddressDirect(reg) ==> (spec_move_value(
                source,
                size,
                *old(registers),
                *old(bus),
            ) matches Ok(value) ==> {
                let stored: u32 = if size is Word {
                    (value as u16) as i16 as u32
                } else {
                    value
                };
                if reg.0 == 7 {
                    final(registers).spec_sp() == stored
                } else {
                    final(registers).address@[reg.0 as int] == stored
                }
            }))),
            (old(registers).pc % 2 == 0 && !source.spec_is_memory() && (dest is DataDirect
                || dest is AddressDirect) ==> r is Ok),
    {
        match size {
            crate::m68k_registers::OpSize::Byte => self.execute_move_byte(
                registers,
                bus,
                source,
                dest,
            ),
            crate::m68k_registers::OpSize::Word => self.execute_move_word(
                registers,
                bus,
                source,
                dest,
            ),
            crate::m68k_registers::OpSize::LongWord => self.execute_move_long(
                registers,
                bus,
                source,
                dest,
            ),
        }
    }

    /// Acknowledged interrupt entry: raises the mask to the taken level,
    /// pushes PC and SR, and jumps through the auto-vector for that level.
    /// Returns 44 cycles; the 10-cycle recognition delay was already charged
    /// when the interrupt was latched.
    pub fn handle_auto_vectored_interrupt<B: BusInterface>(
        &self,
        registers: &mut Registers,
        bus: &mut B,
        interrupt_level: u8,
    ) -> (r: ExecuteResult<u32>)
        requires
            interrupt_level < 8,
        ensures
            old(registers).ssp % 2 == 0 ==> {
                &&& final(bus).word_at(old(registers).ssp.wrapping_sub(4))
                    == (old(registers).pc >> 16) as u16
                &&& final(bus).word_at(old(registers).ssp.wrapping_sub(2))
                    == old(registers).pc as u16
                &&& final(bus).word_at(old(registers).ssp.wrapping_sub(6))
                    == old(registers).spec_sr()
                &&& crate::m68k_bus::words_preserved_except(
                    *old(bus),
                    *final(bus),
                    set![
                        old(registers).ssp.wrapping_sub(4),
                        old(registers).ssp.wrapping_sub(2),
                        old(registers).ssp.wrapping_sub(6),
                    ],
                )
                &&& {
                    let target = spec_vector_target(
                        *final(bus),
                        (24 + interrupt_level) as u32,
                    );
                    if target % 2 == 0 {
                        &&& r == Result::<u32, Exception>::Ok(44)
                        &&& *final(registers) == (Registers {
                            trace_enabled: false,
                            supervisor_mode: true,
                            interrupt_priority_mask: interrupt_level,
                            ssp: old(registers).ssp.wrapping_sub(6),
                            pc: target,
                            prefetch: final(bus).word_at(target),
                            ..*old(registers)
                        })
                    } else {
                        r == Result::<u32, Exception>::Err(
                            Exception::AddressError(target, BusOpType::Jump),
                        )
                    }
                }
            },
            old(registers).ssp % 2 != 0 ==> r == Result::<u32, Exception>::Err(
                Exception::AddressError(
                    old(registers).ssp.wrapping_sub(4),
                    BusOpType::Write,
                ),
            ),
    {
        proof {
            lemma_wrap_arith(old(registers).ssp);
        }
        let sr = registers.status_register();
        registers.trace_enabled = false;
        registers.supervisor_mode = true;
        registers.interrupt_priority_mask = interrupt_level;

        let pc = registers.pc;
        match self.push_stack_u32(registers, bus, pc) {
            Ok(()) => (),
            Err(e) => {
                return Err(e);
            },
        }
        match self.push_stack_u16(registers, bus, sr) {
            Ok(()) => (),
            Err(e) => {
                return Err(e);
            },
        }

        let vector_addr = AUTO_VECTORED_INTERRUPT_BASE_ADDRESS + 4 * (interrupt_level as u32);
        proof {
            assert(vector_addr == (4 * ((24 + interrupt_level) as u32)) as u32);
            assert(vector_addr % 2 == 0);
            assert(vector_addr.wrapping_add(2) == (4 * ((24 + interrupt_level) as u32) + 2)
                as u32);
        }
        let new_pc = bus.read_long_word(vector_addr);
        match self.jump_to_address(registers, bus, new_pc) {
            Ok(()) => (),
            Err(e) => {
                return Err(e);
            },
        }

        Ok(44)
    }
}

/// How a long-word write into an address register changes the register
/// file; `A7` routes to the live stack pointer.
pub open spec fn write_a_rel(reg: AddressRegister, r0: Registers, r1: Registers, value: u32) -> bool {
    if reg.0 == 7 {
        r1 == r0.spec_with_sp(value)
    } else {
        &&& r1.address@ == r0.address@.update(reg.0 as int, value)
        &&& r1 == (Registers { address: r1.address, ..r0 })
    }
}

/// Outcome of a resolution step that consumes one extension word and, on
/// success, produces `ok_value`.
pub open spec fn fetch1_rel<B: BusInterface>(
    r0: Registers,
    b0: B,
    out: ExecuteResult<ResolvedAddress>,
    r1: Registers,
    ok_value: ResolvedAddress,
) -> bool {
    if r0.pc % 2 == 0 {
        out == Result::<ResolvedAddress, Exception>::Ok(ok_value) && r1 == spec_fetched(r0, b0)
    } else {
        &&& out == Result::<ResolvedAddress, Exception>::Err(
            Exception::AddressError(r0.pc.wrapping_add(2), BusOpType::Read),
        )
        &&& r1 == r0
    }
}

/// Outcome of a resolution step that consumes two extension words and, on
/// success, produces `ok_value` from them.
pub open spec fn fetch2_rel<B: BusInterface>(
    r0: Registers,
    b0: B,
    out: ExecuteResult<ResolvedAddress>,
    r1: Registers,
    ok_value: ResolvedAddress,
) -> bool {
    if r0.pc % 2 == 0 {
        out == Result::<ResolvedAddress, Exception>::Ok(ok_value) && r1 == spec_fetched(
            spec_fetched(r0, b0),
            b0,
        )
    } else {
        &&& out == Result::<ResolvedAddress, Exception>::Err(
            Exception::AddressError(r0.pc.wrapping_add(2), BusOpType::Read),
        )
        &&& r1 == r0
    }
}

/// The full addressing-mode resolution relation: what `resolve_address`
/// returns and how it moves the register file, for every mode.
pub open spec fn resolve_rel<B: BusInterface>(
    mode: AddressingMode,
    size: crate::m68k_registers::OpSize,
    r0: Registers,
    b0: B,
    out: ExecuteResult<ResolvedAddress>,
    r1: Registers,
) -> bool {
    match mode {
        AddressingMode::DataDirect(reg) => out == Result::<ResolvedAddress, Exception>::Ok(
            ResolvedAddress::DataRegister(reg),
        ) && r1 == r0,
        AddressingMode::AddressDirect(reg) => out == Result::<ResolvedAddress, Exception>::Ok(
            ResolvedAddress::AddressRegister(reg),
        ) && r1 == r0,
        AddressingMode::AddressIndirect(reg) => out == Result::<ResolvedAddress, Exception>::Ok(
            ResolvedAddress::Memory(reg.spec_read(r0)),
        ) && r1 == r0,
        AddressingMode::AddressIndirectPredecrement(reg) => {
            let increment = size.spec_increment_step_for(reg);
            let address = reg.spec_read(r0).wrapping_sub(increment);
            &&& out == Result::<ResolvedAddress, Exception>::Ok(ResolvedAddress::Memory(address))
            &&& write_a_rel(reg, r0, r1, address)
        },
        AddressingMode::AddressIndirectPostincrement(reg) => {
            let increment = size.spec_increment_step_for(reg);
            &&& out == Result::<ResolvedAddress, Exception>::Ok(
                ResolvedAddress::MemoryPostincrement {
                    address: reg.spec_read(r0),
                    register: reg,
                    increment,
                },
            )
            &&& r1 == r0
        },
        AddressingMode::AddressIndirectDisplacement(reg) => fetch1_rel(
            r0,
            b0,
            out,
            r1,
            ResolvedAddress::Memory(
                reg.spec_read(r0).wrapping_add((r0.prefetch as i16) as u32),
            ),
        ),
        AddressingMode::AddressIndirectIndexed(reg) => {
            let parsed = crate::m68k_registers::spec_parse_index(r0.prefetch);
            let index = parsed.0.spec_read(r0, parsed.1);
            fetch1_rel(
                r0,
                b0,
                out,
                r1,
                ResolvedAddress::Memory(
                    reg.spec_read(r0).wrapping_add(index).wrapping_add(
                        (r0.prefetch as i8) as u32,
                    ),
                ),
            )
        },
        AddressingMode::PcRelativeDisplacement => fetch1_rel(
            r0,
            b0,
            out,
            r1,
            ResolvedAddress::Memory(r0.pc.wrapping_add((r0.prefetch as i16) as u32)),
        ),
        AddressingMode::PcRelativeIndexed => {
            let parsed = crate::m68k_registers::spec_parse_index(r0.prefetch);
            let index = parsed.0.spec_read(r0, parsed.1);
            fetch1_rel(
                r0,
                b0,
                out,
                r1,
                ResolvedAddress::Memory(
                    r0.pc.wrapping_add(index).wrapping_add((r0.prefetch as i8) as u32),
                ),
            )
        },
        AddressingMode::AbsoluteShort => fetch1_rel(
            r0,
            b0,
            out,
            r1,
            ResolvedAddress::Memory((r0.prefetch as i16) as u32),
        ),
        AddressingMode::AbsoluteLong => fetch2_rel(
            r0,
            b0,
            out,
            r1,
            ResolvedAddress::Memory(
                spec_long(r0.prefetch, b0.word_at(r0.pc.wrapping_add(2))),
            ),
        ),
        AddressingMode::Immediate => {
            match size {
                crate::m68k_registers::OpSize::Byte => fetch1_rel(
                    r0,
                    b0,
                    out,
                    r1,
                    ResolvedAddress::Immediate((r0.prefetch as u8) as u32),
                ),
                crate::m68k_registers::OpSize::Word => fetch1_rel(
                    r0,
                    b0,
                    out,
                    r1,
                    ResolvedAddress::Immediate(r0.prefetch as u32),
                ),
                crate::m68k_registers::OpSize::LongWord => fetch2_rel(
                    r0,
                    b0,
                    out,
                    r1,
                    ResolvedAddress::Immediate(
                        spec_long(r0.prefetch, b0.word_at(r0.pc.wrapping_add(2))),
                    ),
                ),
            }
        },
        AddressingMode::Quick(value) => out == Result::<ResolvedAddress, Exception>::Ok(
            ResolvedAddress::Immediate(value as u32),
        ) && r1 == r0,
    }
}

/// The value `resolve_address` returns for a mode, as a function of the
/// starting state; the register-file effect stays in `resolve_rel`.
pub open spec fn spec_resolve_out<B: BusInterface>(
    mode: AddressingMode,
    size: crate::m68k_registers::OpSize,
    r0: Registers,
    b0: B,
) -> ExecuteResult<ResolvedAddress> {
    let fetch_err = Result::<ResolvedAddress, Exception>::Err(
        Exception::AddressError(r0.pc.wrapping_add(2), BusOpType::Read),
    );
    match mode {
        AddressingMode::DataDirect(reg) => Result::Ok(ResolvedAddress::DataRegister(reg)),
        AddressingMode::AddressDirect(reg) => Result::Ok(ResolvedAddress::AddressRegister(reg)),
        AddressingMode::AddressIndirect(reg) => Result::Ok(
            ResolvedAddress::Memory(reg.spec_read(r0)),
        ),
        AddressingMode::AddressIndirectPredecrement(reg) => Result::Ok(
            ResolvedAddress::Memory(
                reg.spec_read(r0).wrapping_sub(size.spec_increment_step_for(reg)),
            ),
        ),
        AddressingMode::AddressIndirectPostincrement(reg) => Result::Ok(
            ResolvedAddress::MemoryPostincrement {
                address: reg.spec_read(r0),
                register: reg,
                increment: size.spec_increment_step_for(reg),
            },
        ),
        AddressingMode::AddressIndirectDisplacement(reg) => if r0.pc % 2 == 0 {
            Result::Ok(
                ResolvedAddress::Memory(
                    reg.spec_read(r0).wrapping_add((r0.prefetch as i16) as u32),
                ),
            )
        } else {
            fetch_err
        },
        AddressingMode::AddressIndirectIndexed(reg) => if r0.pc % 2 == 0 {
            let parsed = crate::m68k_registers::spec_parse_index(r0.prefetch);
            Result::Ok(
                ResolvedAddress::Memory(
                    reg.spec_read(r0).wrapping_add(parsed.0.spec_read(r0, parsed.1)).wrapping_add(
                        (r0.prefetch as i8) as u32,
                    ),
                ),
            )
        } else {
            fetch_err
        },
        AddressingMode::PcRelativeDisplacement => if r0.pc % 2 == 0 {
            Result::Ok(
                ResolvedAddress::Memory(r0.pc.wrapping_add((r0.prefetch as i16) as u32)),
            )
        } else {
            fetch_err
        },
        AddressingMode::PcRelativeIndexed => if r0.pc % 2 == 0 {
            let parsed = crate::m68k_registers::spec_parse_index(r0.prefetch);
            Result::Ok(
                ResolvedAddress::Memory(
                    r0.pc.wrapping_add(parsed.0.spec_read(r0, parsed.1)).wrapping_add(
                        (r0.prefetch as i8) as u32,
                    ),
                ),
            )
        } else {
            fetch_err
        },
        AddressingMode::AbsoluteShort => if r0.pc % 2 == 0 {
            Result::Ok(ResolvedAddress::Memory((r0.prefetch as i16) as u32))
        } else {
            fetch_err
        },
        AddressingMode::AbsoluteLong => if r0.pc % 2 == 0 {
            Result::Ok(
                ResolvedAddress::Memory(
                    spec_long(r0.prefetch, b0.word_at(r0.pc.wrapping_add(2))),
                ),
            )
        } else {
            fetch_err
        },
        AddressingMode::Immediate => if r0.pc % 2 == 0 {
            match size {
                crate::m68k_registers::OpSize::Byte => Result::Ok(
                    ResolvedAddress::Immediate((r0.prefetch as u8) as u32),
                ),
                crate::m68k_registers::OpSize::Word => Result::Ok(
                    ResolvedAddress::Immediate(r0.prefetch as u32),
                ),
                crate::m68k_registers::OpSize::LongWord => Result::Ok(
                    ResolvedAddress::Immediate(
                        spec_long(r0.prefetch, b0.word_at(r0.pc.wrapping_add(2))),
                    ),
                ),
            }
        } else {
            fetch_err
        },
        AddressingMode::Quick(value) => Result::Ok(ResolvedAddress::Immediate(value as u32)),
    }
}

/// The operand value a MOVE reads, truncated to its width and widened to
/// `u32`, as a function of the state before source resolution; register and
/// immediate sources never fault, memory sources fault on odd addresses and
/// extension fetches fault on an odd PC.
pub open spec fn spec_move_value<B: BusInterface>(
    source: AddressingMode,
    size: crate::m68k_registers::OpSize,
    r0: Registers,
    b0: B,
) -> ExecuteResult<u32> {
    match spec_resolve_out(source, size, r0, b0) {
        Result::Ok(sres) => match size {
            crate::m68k_registers::OpSize::Byte => Result::Ok(
                spec_read_byte_resolved(sres, r0, b0) as u32,
            ),
            crate::m68k_registers::OpSize::Word => match spec_read_word_resolved(sres, r0, b0) {
                Result::Ok(w) => Result::Ok(w as u32),
                Result::Err(e) => Result::Err(e),
            },
            crate::m68k_registers::OpSize::LongWord => spec_read_long_resolved(sres, r0, b0),
        },
        Result::Err(e) => Result::Err(e),
    }
}

/// The condition codes after a MOVE of `value` (already truncated to the
/// width): N and Z follow the value, V and C clear, X is kept.
pub open spec fn spec_move_flags(
    size: crate::m68k_registers::OpSize,
    value: u32,
    old_ccr: crate::m68k_registers::ConditionCodes,
) -> crate::m68k_registers::ConditionCodes {
    crate::m68k_registers::ConditionCodes {
        carry: false,
        overflow: false,
        zero: value == 0,
        negative: match size {
            crate::m68k_registers::OpSize::Byte => crate::bits::spec_bit_u8(value as u8, 7),
            crate::m68k_registers::OpSize::Word => crate::bits::spec_bit_u16(value as u16, 15),
            crate::m68k_registers::OpSize::LongWord => value >= 0x8000_0000,
        },
        extend: old_ccr.extend,
    }
}

/// Like `resolve_rel`, but with a pending post-increment already applied to
/// the register file.
pub open spec fn resolve_post_rel<B: BusInterface>(
    mode: AddressingMode,
    size: crate::m68k_registers::OpSize,
    r0: Registers,
    b0: B,
    out: ExecuteResult<ResolvedAddress>,
    r1: Registers,
) -> bool {
    match mode {
        AddressingMode::AddressIndirectPostincrement(reg) => {
            let increment = size.spec_increment_step_for(reg);
            let address = reg.spec_read(r0);
            &&& out == Result::<ResolvedAddress, Exception>::Ok(
                ResolvedAddress::MemoryPostincrement { address, register: reg, increment },
            )
            &&& write_a_rel(reg, r0, r1, address.wrapping_add(increment))
        },
        _ => resolve_rel(mode, size, r0, b0, out, r1),
    }
}

impl InstructionExecutor {
    /// Resolves an addressing mode to a concrete register, memory location
    /// or immediate value, fetching extension words as the mode demands.
    pub fn resolve_address<B: BusInterface>(
        &self,
        registers: &mut Registers,
        bus: &mut B,
        addressing_mode: AddressingMode,
        size: crate::m68k_registers::OpSize,
    ) -> (r: ExecuteResult<ResolvedAddress>)
        requires
            addressing_mode.wf(),
        ensures
            resolve_rel(addressing_mode, size, *old(registers), *old(bus), r, *final(registers)),
            crate::m68k_bus::mem_preserved(*old(bus), *final(bus)),
            (r matches Ok(res) ==> res.wf()),
    {
        let resolved_address = match addressing_mode {
            AddressingMode::DataDirect(register) => ResolvedAddress::DataRegister(register),
            AddressingMode::AddressDirect(register) => ResolvedAddress::AddressRegister(register),
            AddressingMode::AddressIndirect(register) => {
                ResolvedAddress::Memory(register.read_from(registers))
            },
            AddressingMode::AddressIndirectPredecrement(register) => {
                let increment = size.increment_step_for(register);
                let address = register.read_from(registers).wrapping_sub(increment);
                register.write_long_word_to(registers, address);
                ResolvedAddress::Memory(address)
            },
            AddressingMode::AddressIndirectPostincrement(register) => {
                let increment = size.increment_step_for(register);
                let address = register.read_from(registers);
                ResolvedAddress::MemoryPostincrement { address, register, increment }
            },
            AddressingMode::AddressIndirectDisplacement(register) => {
                let base = register.read_from(registers);
                let extension = match self.fetch_operand(registers, bus) {
                    Ok(w) => w,
                    Err(e) => {
                        return Err(e);
                    },
                };
                let displacement = extension as i16;
                let address = base.wrapping_add(displacement as u32);
                ResolvedAddress::Memory(address)
            },
            AddressingMode::AddressIndirectIndexed(register) => {
                let base = register.read_from(registers);
                let extension = match self.fetch_operand(registers, bus) {
                    Ok(w) => w,
                    Err(e) => {
                        return Err(e);
                    },
                };
                let (index_register, index_size) = crate::m68k_registers::parse_index(extension);
                let index = index_register.read_from(registers, index_size);
                let displacement = extension as i8;

                let address = base.wrapping_add(index).wrapping_add(displacement as u32);
                ResolvedAddress::Memory(address)
            },
            AddressingMode::PcRelativeDisplacement => {
                let pc = registers.pc;
                let extension = match self.fetch_operand(registers, bus) {
                    Ok(w) => w,
                    Err(e) => {
                        return Err(e);
                    },
                };
                let displacement = extension as i16;
                let address = pc.wrapping_add(displacement as u32);
                ResolvedAddress::Memory(address)
            },
            AddressingMode::PcRelativeIndexed => {
                let pc = registers.pc;
                let extension = match self.fetch_operand(registers, bus) {
                    Ok(w) => w,
                    Err(e) => {
                        return Err(e);
                    },
                };
                let (index_register, index_size) = crate::m68k_registers::parse_index(extension);
                let index = index_register.read_from(registers, index_size);
                let displacement = extension as i8;

                let address = pc.wrapping_add(index).wrapping_add(displacement as u32);
                ResolvedAddress::Memory(address)
            },
            AddressingMode::AbsoluteShort => {
                let extension = match self.fetch_operand(registers, bus) {
                    Ok(w) => w,
                    Err(e) => {
                        return Err(e);
                    },
                };
                let address = extension as i16 as u32;
                ResolvedAddress::Memory(address)
            },
            AddressingMode::AbsoluteLong => {
                let extension_0 = match self.fetch_operand(registers, bus) {
                    Ok(w) => w,
                    Err(e) => {
                        return Err(e);
                    },
                };
                proof {
                    lemma_wrap_arith(old(registers).pc);
                }
                let extension_1 = match self.fetch_operand(registers, bus) {
                    Ok(w) => w,
                    Err(e) => {
                        return Err(e);
                    },
                };
                let address = ((extension_0 as u32) << 16) | (extension_1 as u32);
                ResolvedAddress::Memory(address)
            },
            AddressingMode::Immediate => {
                let extension_0 = match self.fetch_operand(registers, bus) {
                    Ok(w) => w,
                    Err(e) => {
                        return Err(e);
                    },
                };
                match size {
                    crate::m68k_registers::OpSize::Byte => ResolvedAddress::Immediate(
                        (extension_0 as u8) as u32,
                    ),
                    crate::m68k_registers::OpSize::Word => ResolvedAddress::Immediate(
                        extension_0 as u32,
                    ),
                    crate::m68k_registers::OpSize::LongWord => {
                        proof {
                            lemma_wrap_arith(old(registers).pc);
                        }
                        let extension_1 = match self.fetch_operand(registers, bus) {
                            Ok(w) => w,
                            Err(e) => {
                                return Err(e);
                            },
                        };
                        let value = ((extension_0 as u32) << 16) | (extension_1 as u32);
                        ResolvedAddress::Immediate(value)
                    },
                }
            },
            AddressingMode::Quick(value) => ResolvedAddress::Immediate(value as u32),
        };

        Ok(resolved_address)
    }

    /// Reads a byte from a resolved location; bytes never fault.
    pub fn read_byte_resolved<B: BusInterface>(
        &self,
        registers: &Registers,
        bus: &mut B,
        resolved_address: ResolvedAddress,
    ) -> (r: u8)
        requires
            resolved_address.wf(),
        ensures
            r == spec_read_byte_resolved(resolved_address, *registers, *old(bus)),
            crate::m68k_bus::mem_preserved(*old(bus), *final(bus)),
    {
        match resolved_address {
            ResolvedAddress::DataRegister(register) => register.read_from(registers) as u8,
            ResolvedAddress::AddressRegister(register) => register.read_from(registers) as u8,
            ResolvedAddress::Memory(address) => bus.read_byte(address),
            ResolvedAddress::MemoryPostincrement { address, .. } => bus.read_byte(address),
            ResolvedAddress::Immediate(value) => value as u8,
        }
    }

    /// `read_byte_resolved` in `Result` shape, for symmetry with the word
    /// and long-word reads.
    pub fn read_byte_resolved_as_result<B: BusInterface>(
        &self,
        registers: &Registers,
        bus: &mut B,
        resolved_address: ResolvedAddress,
    ) -> (r: ExecuteResult<u8>)
        requires
            resolved_address.wf(),
        ensures
            r == Result::<u8, Exception>::Ok(
                spec_read_byte_resolved(resolved_address, *registers, *old(bus)),
            ),
            crate::m68k_bus::mem_preserved(*old(bus), *final(bus)),
    {
        Ok(self.read_byte_resolved(registers, bus, resolved_address))
    }

    /// Reads a word from a resolved location; an odd memory address raises
    /// an address error.
    pub fn read_word_resolved<B: BusInterface>(
        &self,
        registers: &Registers,
        bus: &mut B,
        resolved_address: ResolvedAddress,
    ) -> (r: ExecuteResult<u16>)
        requires
            resolved_address.wf(),
        ensures
            r == spec_read_word_resolved(resolved_address, *registers, *old(bus)),
            crate::m68k_bus::mem_preserved(*old(bus), *final(bus)),
    {
        match resolved_address {
            ResolvedAddress::DataRegister(register) => {
                Ok(register.read_from(registers) as u16)
            },
            ResolvedAddress::AddressRegister(register) => {
                Ok(register.read_from(registers) as u16)
            },
            ResolvedAddress::Memory(address) => self.read_bus_word(bus, address),
            ResolvedAddress::MemoryPostincrement { address, .. } => self.read_bus_word(
                bus,
                address,
            ),
            ResolvedAddress::Immediate(value) => Ok(value as u16),
        }
    }

    /// Reads a long word from a resolved location; an odd memory address
    /// raises an address error.
    pub fn read_long_word_resolved<B: BusInterface>(
        &self,
        registers: &Registers,
        bus: &mut B,
        resolved_address: ResolvedAddress,
    ) -> (r: ExecuteResult<u32>)
        requires
            resolved_address.wf(),
        ensures
            r == spec_read_long_resolved(resolved_address, *registers, *old(bus)),
            crate::m68k_bus::mem_preserved(*old(bus), *final(bus)),
    {
        match resolved_address {
            ResolvedAddress::DataRegister(register) => Ok(register.read_from(registers)),
            ResolvedAddress::AddressRegister(register) => Ok(register.read_from(registers)),
            ResolvedAddress::Memory(address) => self.read_bus_long_word(bus, address),
            ResolvedAddress::MemoryPostincrement { address, .. } => self.read_bus_long_word(
                bus,
                address,
            ),
            ResolvedAddress::Immediate(value) => Ok(value),
        }
    }

    /// Writes a byte to a resolved location. A byte cannot land in an
    /// address register or an immediate, and byte memory writes never
    /// fault.
    pub fn write_byte_resolved<B: BusInterface>(
        &self,
        registers: &mut Registers,
        bus: &mut B,
        resolved_address: ResolvedAddress,
        value: u8,
    )
        requires
            resolved_address.wf(),
            !(resolved_address is AddressRegister),
            !(resolved_address is Immediate),
        ensures
            (match resolved_address {
                ResolvedAddress::DataRegister(reg) => {
                    &&& final(registers).data@ == old(registers).data@.update(
                        reg.0 as int,
                        (old(registers).data@[reg.0 as int] & 0xFFFF_FF00) | value as u32,
                    )
                    &&& *final(registers) == (Registers {
                        data: final(registers).data,
                        ..*old(registers)
                    })
                    &&& crate::m68k_bus::mem_preserved(*old(bus), *final(bus))
                },
                _ => {
                    let address = resolved_address.spec_memory_address();
                    &&& *final(registers) == *old(registers)
                    &&& final(bus).byte_at(address) == value
                    &&& crate::m68k_bus::bytes_preserved_except(
                        *old(bus),
                        *final(bus),
                        set![address],
                    )
                    &&& crate::m68k_bus::words_preserved_except(
                        *old(bus),
                        *final(bus),
                        set![address & 0xFFFF_FFFE],
                    )
                },
            }),
    {
        match resolved_address {
            ResolvedAddress::DataRegister(register) => {
                register.write_byte_to(registers, value);
            },
            ResolvedAddress::Memory(address) => {
                bus.write_byte(address, value);
            },
            ResolvedAddress::MemoryPostincrement { address, .. } => {
                bus.write_byte(address, value);
            },
            _ => {},
        }
    }

    /// Writes a word to a resolved location; an address register sign
    /// extends, and an odd memory address raises an address error.
    pub fn write_word_resolved<B: BusInterface>(
        &self,
        registers: &mut Registers,
        bus: &mut B,
        resolved_address: ResolvedAddress,
        value: u16,
    ) -> (r: ExecuteResult<()>)
        requires
            resolved_address.wf(),
            !(resolved_address is Immediate),
        ensures
            (match resolved_address {
                ResolvedAddress::DataRegister(reg) => {
                    &&& r is Ok
                    &&& final(registers).data@ == old(registers).data@.update(
                        reg.0 as int,
                        (old(registers).data@[reg.0 as int] & 0xFFFF_0000) | value as u32,
                    )
                    &&& *final(registers) == (Registers {
                        data: final(registers).data,
                        ..*old(registers)
                    })
                    &&& crate::m68k_bus::mem_preserved(*old(bus), *final(bus))
                },
                ResolvedAddress::AddressRegister(reg) => {
                    &&& r is Ok
                    &&& write_a_rel(reg, *old(registers), *final(registers), value as i16 as u32)
                    &&& crate::m68k_bus::mem_preserved(*old(bus), *final(bus))
                },
                _ => {
                    let address = resolved_address.spec_memory_address();
                    &&& *final(registers) == *old(registers)
                    &&& (address % 2 == 0 ==> {
                        &&& r is Ok
                        &&& final(bus).word_at(address) == value
                        &&& crate::m68k_bus::words_preserved_except(
                            *old(bus),
                            *final(bus),
                            set![address],
                        )
                    })
                    &&& (address % 2 != 0 ==> {
                        &&& r == Result::<(), Exception>::Err(
                            Exception::AddressError(address, BusOpType::Write),
                        )
                        &&& crate::m68k_bus::mem_preserved(*old(bus), *final(bus))
                    })
                },
            }),
    {
        match resolved_address {
            ResolvedAddress::DataRegister(register) => {
                register.write_word_to(registers, value);
                Ok(())
            },
            ResolvedAddress::AddressRegister(register) => {
                register.write_word_to(registers, value);
                Ok(())
            },
            ResolvedAddress::Memory(address) => self.write_bus_word(bus, address, value),
            ResolvedAddress::MemoryPostincrement { address, .. } => self.write_bus_word(
                bus,
                address,
                value,
            ),
            ResolvedAddress::Immediate(..) => Ok(()),
        }
    }

    /// Writes a long word to a resolved location; an odd memory address
    /// raises an address error.
    pub fn write_long_word_resolved<B: BusInterface>(
        &self,
        registers: &mut Registers,
        bus: &mut B,
        resolved_address: ResolvedAddress,
        value: u32,
    ) -> (r: ExecuteResult<()>)
        requires
            resolved_address.wf(),
            !(resolved_address is Immediate),
        ensures
            (match resolved_address {
                ResolvedAddress::DataRegister(reg) => {
                    &&& r is Ok
                    &&& final(registers).data@ == old(registers).data@.update(
                        reg.0 as int,
                        value,
                    )
                    &&& *final(registers) == (Registers {
                        data: final(registers).data,
                        ..*old(registers)
                    })
                    &&& crate::m68k_bus::mem_preserved(*old(bus), *final(bus))
                },
                ResolvedAddress::AddressRegister(reg) => {
                    &&& r is Ok
                    &&& write_a_rel(reg, *old(registers), *final(registers), value)
                    &&& crate::m68k_bus::mem_preserved(*old(bus), *final(bus))
                },
                _ => {
                    let address = resolved_address.spec_memory_address();
                    &&& *final(registers) == *old(registers)
                    &&& (address % 2 == 0 ==> {
                        &&& r is Ok
                        &&& final(bus).word_at(address) == (value >> 16) as u16
                        &&& final(bus).word_at(address.wrapping_add(2)) == value as u16
                        &&& crate::m68k_bus::words_preserved_except(
                            *old(bus),
                            *final(bus),
                            set![address, address.wrapping_add(2)],
                        )
                    })
                    &&& (address % 2 != 0 ==> {
                        &&& r == Result::<(), Exception>::Err(
                            Exception::AddressError(address, BusOpType::Write),
                        )
                        &&& crate::m68k_bus::mem_preserved(*old(bus), *final(bus))
                    })
                },
            }),
    {
        match resolved_address {
            ResolvedAddress::DataRegister(register) => {
                register.write_long_word_to(registers, value);
                Ok(())
            },
            ResolvedAddress::AddressRegister(register) => {
                register.write_long_word_to(registers, value);
                Ok(())
            },
            ResolvedAddress::Memory(address) => self.write_bus_long_word(bus, address, value),
            ResolvedAddress::MemoryPostincrement { address, .. } => self.write_bus_long_word(
                bus,
                address,
                value,
            ),
            ResolvedAddress::Immediate(..) => Ok(()),
        }
    }

    /// Resolves the mode and, for a post-increment location, applies the
    /// increment right away.
    pub fn resolve_address_with_post<B: BusInterface>(
        &self,
        registers: &mut Registers,
        bus: &mut B,
        addressing_mode: AddressingMode,
        size: crate::m68k_registers::OpSize,
    ) -> (r: ExecuteResult<ResolvedAddress>)
        requires
            addressing_mode.wf(),
        ensures
            resolve_post_rel(
                addressing_mode,
                size,
                *old(registers),
                *old(bus),
                r,
                *final(registers),
            ),
            crate::m68k_bus::mem_preserved(*old(bus), *final(bus)),
            (r matches Ok(res) ==> res.wf()),
    {
        let resolved = match self.resolve_address(registers, bus, addressing_mode, size) {
            Ok(res) => res,
            Err(e) => {
                return Err(e);
            },
        };
        resolved.apply_post(registers);
        Ok(resolved)
    }

    /// Reads the byte operand an addressing mode names, applying any
    /// post-increment.
    pub fn read_byte<B: BusInterface>(
        &self,
        registers: &mut Registers,
        bus: &mut B,
        source: AddressingMode,
    ) -> (r: ExecuteResult<u8>)
        requires
            source.wf(),
        ensures
            resolve_post_rel(
                source,
                crate::m68k_registers::OpSize::Byte,
                *old(registers),
                *old(bus),
                spec_resolve_out(
                    source,
                    crate::m68k_registers::OpSize::Byte,
                    *old(registers),
                    *old(bus),
                ),
                *final(registers),
            ),
            r == (match spec_resolve_out(
                source,
                crate::m68k_registers::OpSize::Byte,
                *old(registers),
                *old(bus),
            ) {
                Result::Ok(res) => Result::<u8, Exception>::Ok(
                    spec_read_byte_resolved(res, *old(registers), *old(bus)),
                ),
                Result::Err(e) => Result::<u8, Exception>::Err(e),
            }),
            crate::m68k_bus::mem_preserved(*old(bus), *final(bus)),
    {
        let resolved_address = match self.resolve_address_with_post(
            registers,
            bus,
            source,
            crate::m68k_registers::OpSize::Byte,
        ) {
            Ok(res) => res,
            Err(e) => {
                return Err(e);
            },
        };
        let value = self.read_byte_resolved(registers, bus, resolved_address);
        Ok(value)
    }

    /// Reads the word operand an addressing mode names, applying any
    /// post-increment.
    pub fn read_word<B: BusInterface>(
        &self,
        registers: &mut Registers,
        bus: &mut B,
        source: AddressingMode,
    ) -> (r: ExecuteResult<u16>)
        requires
            source.wf(),
        ensures
            resolve_post_rel(
                source,
                crate::m68k_registers::OpSize::Word,
                *old(registers),
                *old(bus),
                spec_resolve_out(
                    source,
                    crate::m68k_registers::OpSize::Word,
                    *old(registers),
                    *old(bus),
                ),
                *final(registers),
            ),
            r == (match spec_resolve_out(
                source,
                crate::m68k_registers::OpSize::Word,
                *old(registers),
                *old(bus),
            ) {
                Result::Ok(res) => spec_read_word_resolved(res, *old(registers), *old(bus)),
                Result::Err(e) => Result::<u16, Exception>::Err(e),
            }),
            crate::m68k_bus::mem_preserved(*old(bus), *final(bus)),
    {
        let resolved_address = match self.resolve_address_with_post(
            registers,
            bus,
            source,
            crate::m68k_registers::OpSize::Word,
        ) {
            Ok(res) => res,
            Err(e) => {
                return Err(e);
            },
        };
        let value = match self.read_word_resolved(registers, bus, resolved_address) {
            Ok(v) => v,
            Err(e) => {
                return Err(e);
            },
        };
        Ok(value)
    }

    /// Reads the long-word operand an addressing mode names, applying any
    /// post-increment.
    pub fn read_long_word<B: BusInterface>(
        &self,
        registers: &mut Registers,
        bus: &mut B,
        source: AddressingMode,
    ) -> (r: ExecuteResult<u32>)
        requires
            source.wf(),
        ensures
            resolve_post_rel(
                source,
                crate::m68k_registers::OpSize::LongWord,
                *old(registers),
                *old(bus),
                spec_resolve_out(
                    source,
                    crate::m68k_registers::OpSize::LongWord,
                    *old(registers),
                    *old(bus),
                ),
                *final(registers),
            ),
            r == (match spec_resolve_out(
                source,
                crate::m68k_registers::OpSize::LongWord,
                *old(registers),
                *old(bus),
            ) {
                Result::Ok(res) => spec_read_long_resolved(res, *old(registers), *old(bus)),
                Result::Err(e) => Result::<u32, Exception>::Err(e),
            }),
            crate::m68k_bus::mem_preserved(*old(bus), *final(bus)),
    {
        let resolved_address = match self.resolve_address_with_post(
            registers,
            bus,
            source,
            crate::m68k_registers::OpSize::LongWord,
        ) {
            Ok(res) => res,
            Err(e) => {
                return Err(e);
            },
        };
        let value = match self.read_long_word_resolved(registers, bus, resolved_address) {
            Ok(v) => v,
            Err(e) => {
                return Err(e);
            },
        };
        Ok(value)
    }

    /// `write_byte_resolved` in `Result` shape, for symmetry with the word
    /// and long-word writes.
    pub fn write_byte_resolved_as_result<B: BusInterface>(
        &self,
        registers: &mut Registers,
        bus: &mut B,
        resolved_address: ResolvedAddress,
        value: u8,
    ) -> (r: ExecuteResult<()>)
        requires
            resolved_address.wf(),
            !(resolved_address is AddressRegister),
            !(resolved_address is Immediate),
        ensures
            r is Ok,
            (match resolved_address {
                ResolvedAddress::DataRegister(reg) => {
                    &&& final(registers).data@ == old(registers).data@.update(
                        reg.0 as int,
                        (old(registers).data@[reg.0 as int] & 0xFFFF_FF00) | value as u32,
                    )
                    &&& *final(registers) == (Registers {
                        data: final(registers).data,
                        ..*old(registers)
                    })
                    &&& crate::m68k_bus::mem_preserved(*old(bus), *final(bus))
                },
                _ => {
                    let address = resolved_address.spec_memory_address();
                    &&& *final(registers) == *old(registers)
                    &&& final(bus).byte_at(address) == value
                    &&& crate::m68k_bus::bytes_preserved_except(
                        *old(bus),
                        *final(bus),
                        set![address],
                    )
                    &&& crate::m68k_bus::words_preserved_except(
                        *old(bus),
                        *final(bus),
                        set![address & 0xFFFF_FFFE],
                    )
                },
            }),
    {
        self.write_byte_resolved(registers, bus, resolved_address, value);
        Ok(())
    }

    /// Writes a byte operand to the location an addressing mode names,
    /// applying any post-increment after the store.
    pub fn write_byte<B: BusInterface>(
        &self,
        registers: &mut Registers,
        bus: &mut B,
        dest: AddressingMode,
        value: u8,
    ) -> (r: ExecuteResult<()>)
        requires
            dest.wf(),
            crate::m68k_instructions::spec_valid_move_dest(
                dest,
                crate::m68k_registers::OpSize::Byte,
            ),
        ensures
            r == (match spec_resolve_out(
                dest,
                crate::m68k_registers::OpSize::Byte,
                *old(registers),
                *old(bus),
            ) {
                Result::Ok(res) => Result::<(), Exception>::Ok(()),
                Result::Err(e) => Result::<(), Exception>::Err(e),
            }),
            (r is Err ==> crate::m68k_bus::mem_preserved(*old(bus), *final(bus))),
            (match spec_resolve_out(
                dest,
                crate::m68k_registers::OpSize::Byte,
                *old(registers),
                *old(bus),
            ) {
                Result::Ok(res) => (res is Memory || res is MemoryPostincrement) ==> {
                    &&& final(bus).byte_at(res.spec_memory_address()) == value
                    &&& crate::m68k_bus::bytes_preserved_except(
                        *old(bus),
                        *final(bus),
                        set![res.spec_memory_address()],
                    )
                },
                Result::Err(e) => true,
            }),
    {
        let resolved_address = match self.resolve_address(
            registers,
            bus,
            dest,
            crate::m68k_registers::OpSize::Byte,
        ) {
            Ok(res) => res,
            Err(e) => {
                return Err(e);
            },
        };
        self.write_byte_resolved(registers, bus, resolved_address, value);
        resolved_address.apply_post(registers);

        Ok(())
    }

    /// Writes a word operand to the location an addressing mode names,
    /// applying any post-increment after the store.
    pub fn write_word<B: BusInterface>(
        &self,
        registers: &mut Registers,
        bus: &mut B,
        dest: AddressingMode,
        value: u16,
    ) -> (r: ExecuteResult<()>)
        requires
            dest.wf(),
            crate::m68k_instructions::spec_valid_move_dest(
                dest,
                crate::m68k_registers::OpSize::Word,
            ),
        ensures
            (r is Err ==> crate::m68k_bus::mem_preserved(*old(bus), *final(bus))),
            (match spec_resolve_out(
                dest,
                crate::m68k_registers::OpSize::Word,
                *old(registers),
                *old(bus),
            ) {
                Result::Ok(res) => (res is Memory || res is MemoryPostincrement) ==> {
                    let address = res.spec_memory_address();
                    &&& (address % 2 == 0 ==> {
                        &&& r is Ok
                        &&& final(bus).word_at(address) == value
                        &&& crate::m68k_bus::words_preserved_except(
                            *old(bus),
                            *final(bus),
                            set![address],
                        )
                    })
                    &&& (address % 2 != 0 ==> r == Result::<(), Exception>::Err(
                        Exception::AddressError(address, BusOpType::Write),
                    ))
                },
                Result::Err(e) => r == Result::<(), Exception>::Err(e),
            }),
    {
        let resolved_address = match self.resolve_address(
            registers,
            bus,
            dest,
            crate::m68k_registers::OpSize::Word,
        ) {
            Ok(res) => res,
            Err(e) => {
                return Err(e);
            },
        };
        match self.write_word_resolved(registers, bus, resolved_address, value) {
            Ok(()) => (),
            Err(e) => {
                return Err(e);
            },
        }
        resolved_address.apply_post(registers);

        Ok(())
    }

    /// Writes a long-word operand to the location an addressing mode names,
    /// applying any post-increment after the store.
    pub fn write_long_word<B: BusInterface>(
        &self,
        registers: &mut Registers,
        bus: &mut B,
        dest: AddressingMode,
        value: u32,
    ) -> (r: ExecuteResult<()>)
        requires
            dest.wf(),
            crate::m68k_instructions::spec_valid_move_dest(
                dest,
                crate::m68k_registers::OpSize::LongWord,
            ),
        ensures
            (r is Err ==> crate::m68k_bus::mem_preserved(*old(bus), *final(bus))),
            (match spec_resolve_out(
                dest,
                crate::m68k_registers::OpSize::LongWord,
                *old(registers),
                *old(bus),
            ) {
                Result::Ok(res) => (res is Memory || res is MemoryPostincrement) ==> {
                    let address = res.spec_memory_address();
                    &&& (address % 2 == 0 ==> {
                        &&& r is Ok
                        &&& final(bus).word_at(address) == (value >> 16) as u16
                        &&& final(bus).word_at(address.wrapping_add(2)) == value as u16
                        &&& crate::m68k_bus::words_preserved_except(
                            *old(bus),
                            *final(bus),
                            set![address, address.wrapping_add(2)],
                        )
                    })
                    &&& (address % 2 != 0 ==> r == Result::<(), Exception>::Err(
                        Exception::AddressError(address, BusOpType::Write),
                    ))
                },
                Result::Err(e) => r == Result::<(), Exception>::Err(e),
            }),
    {
        let resolved_address = match self.resolve_address(
            registers,
            bus,
            dest,
            crate::m68k_registers::OpSize::LongWord,
        ) {
            Ok(res) => res,
            Err(e) => {
                return Err(e);
            },
        };
        match self.write_long_word_resolved(registers, bus, resolved_address, value) {
            Ok(()) => (),
            Err(e) => {
                return Err(e);
            },
        }
        resolved_address.apply_post(registers);

        Ok(())
    }
}

impl InstructionExecutor {
    /// Fetches and decodes one opcode, then executes it. Exceptions come
    /// back as errors for `handle_exception`.
    #[verifier::rlimit(100)]
    pub fn do_execute<B: BusInterface>(&mut self, registers: &mut Registers, bus: &mut B) -> (r:
        ExecuteResult<u32>)
        ensures
            final(self).allow_tas_writes == old(self).allow_tas_writes,
            (r is Err ==> err_state_rel(
                *old(registers),
                *old(bus),
                *final(registers),
                *final(bus),
            )),
            (r matches Err(e) ==> {
                &&& !(e is DivisionByZero)
                &&& !(e is CheckRegister)
                &&& (e matches Exception::Trap(v) ==> v < 0x40)
            }),
            (r is Ok ==> {
                &&& final(registers).address_error == old(registers).address_error
                &&& final(registers).last_instruction_was_muldiv == old(
                    registers,
                ).last_instruction_was_muldiv
            }),
            old(registers).pc % 2 != 0 ==> {
                &&& r == Result::<u32, Exception>::Err(
                    Exception::AddressError(
                        old(registers).pc.wrapping_add(2),
                        BusOpType::Read,
                    ),
                )
                &&& *final(registers) == *old(registers)
            },
            old(registers).pc % 2 == 0 ==> {
                &&& final(self).opcode == old(registers).prefetch
                &&& final(self).instruction == crate::m68k_instructions::spec_decode(
                    old(registers).prefetch,
                )
                &&& (crate::m68k_instructions::spec_decode(old(registers).prefetch) is None
                    ==> {
                    &&& r == Result::<u32, Exception>::Err(
                        Exception::IllegalInstruction(old(registers).prefetch),
                    )
                    &&& *final(registers) == spec_fetched(*old(registers), *old(bus))
                })
                &&& (crate::m68k_instructions::spec_decode(old(registers).prefetch)
                    == Option::Some(Instruction::Nop) ==> {
                    &&& r == Result::<u32, Exception>::Ok(4)
                    &&& *final(registers) == spec_fetched(*old(registers), *old(bus))
                })
                &&& (crate::m68k_instructions::spec_decode(old(registers).prefetch)
                    matches Some(Instruction::Trap(n)) ==> {
                    &&& r == Result::<u32, Exception>::Err(Exception::Trap((32 + n) as u32))
                    &&& *final(registers) == spec_fetched(*old(registers), *old(bus))
                })
                &&& (crate::m68k_instructions::spec_decode(old(registers).prefetch)
                    matches Some(Instruction::MoveToSr(s)) && !old(registers).supervisor_mode
                    ==> {
                    &&& r == Result::<u32, Exception>::Err(Exception::PrivilegeViolation)
                    &&& *final(registers) == spec_fetched(*old(registers), *old(bus))
                })
                &&& (crate::m68k_instructions::spec_decode(old(registers).prefetch)
                    matches Some(Instruction::MoveFromSr(dest)) ==> (dest
                    matches AddressingMode::DataDirect(reg) ==> {
                    &&& r == Result::<u32, Exception>::Ok(6)
                    &&& final(registers).data@ == old(registers).data@.update(
                        reg.0 as int,
                        (old(registers).data@[reg.0 as int] & 0xFFFF_0000) | (old(
                            registers,
                        ).spec_sr() as u32),
                    )
                    &&& *final(registers) == (Registers {
                        data: final(registers).data,
                        ..spec_fetched(*old(registers), *old(bus))
                    })
                }))
                &&& (crate::m68k_instructions::spec_decode(old(registers).prefetch)
                    matches Some(Instruction::MoveToSr(source)) ==> (old(
                    registers,
                ).supervisor_mode ==> (source matches AddressingMode::DataDirect(reg) ==> {
                    &&& r == Result::<u32, Exception>::Ok(12)
                    &&& *final(registers) == spec_fetched(*old(registers), *old(bus)).spec_set_sr(
                        old(registers).data@[reg.0 as int] as u16,
                    )
                })))
                &&& (crate::m68k_instructions::spec_decode(old(registers).prefetch)
                    matches Some(Instruction::Move { size, source, dest }) ==> {
                    let fetched = spec_fetched(*old(registers), *old(bus));
                    &&& (r matches Ok(c) ==> c == 4 + source.spec_address_calculation_cycles(
                        size,
                    ) + dest.spec_address_calculation_cycles(size))
                    &&& (r matches Err(e) ==> e is AddressError)
                    &&& (r is Ok ==> spec_move_value(source, size, fetched, *old(bus)) is Ok)
                    &&& (r is Ok ==> (spec_move_value(source, size, fetched, *old(bus))
                        matches Ok(value) ==> final(registers).ccr == (
                    if dest is AddressDirect {
                        old(registers).ccr
                    } else {
                        spec_move_flags(size, value, old(registers).ccr)
                    })))
                    &&& (r is Ok ==> (dest matches AddressingMode::DataDirect(reg) ==> (
                    spec_move_value(source, size, fetched, *old(bus)) matches Ok(value)
                        ==> final(registers).data@ == old(registers).data@.update(
                        reg.0 as int,
                        (match size {
                            crate::m68k_registers::OpSize::Byte => (old(registers).data@[reg.0
                                as int] & 0xFFFF_FF00) | value,
                            crate::m68k_registers::OpSize::Word => (old(registers).data@[reg.0
                                as int] & 0xFFFF_0000) | value,
                            crate::m68k_registers::OpSize::LongWord => value,
                        }),
                    ))))
                    &&& (r is Ok ==> (dest matches AddressingMode::AddressDirect(reg) ==> (
                    spec_move_value(source, size, fetched, *old(bus)) matches Ok(value) ==> {
                        let stored: u32 = if size is Word {
                            (value as u16) as i16 as u32
                        } else {
                            value
                        };
                        if reg.0 == 7 {
                            final(registers).spec_sp() == stored
                        } else {
                            final(registers).address@[reg.0 as int] == stored
                        }
                    })))
                    &&& (!source.spec_is_memory() && (dest is DataDirect
                        || dest is AddressDirect) ==> r is Ok)
                })
            },
    {
        proof {
            lemma_wrap_arith(old(registers).ssp);
        }
        let opcode = match self.fetch_operand(registers, bus) {
            Ok(w) => w,
            Err(e) => {
                return Err(e);
            },
        };
        self.opcode = opcode;
        let decoded = crate::m68k_instructions::decode(opcode);
        self.instruction = decoded;

        match decoded {
            None => Err(Exception::IllegalInstruction(opcode)),
            Some(Instruction::Nop) => Ok(4),
            Some(Instruction::Trap(n)) => {
                proof {
                    assert((opcode & 0xF) < 16) by (bit_vector);
                }
                Err(Exception::Trap(32 + n))
            },
            Some(Instruction::MoveToSr(source)) => {
                if !registers.supervisor_mode {
                    return Err(Exception::PrivilegeViolation);
                }
                let value = match self.read_word(registers, bus, source) {
                    Ok(v) => v,
                    Err(e) => {
                        return Err(e);
                    },
                };
                registers.set_status_register(value);
                Ok(12 + source.address_calculation_cycles(crate::m68k_registers::OpSize::Word))
            },
            Some(Instruction::MoveFromSr(dest)) => {
                let resolved = match self.resolve_address(
                    registers,
                    bus,
                    dest,
                    crate::m68k_registers::OpSize::Word,
                ) {
                    Ok(res) => res,
                    Err(e) => {
                        return Err(e);
                    },
                };
                let sr = registers.status_register();
                match self.write_word_resolved(registers, bus, resolved, sr) {
                    Ok(()) => (),
                    Err(e) => {
                        return Err(e);
                    },
                }
                resolved.apply_post(registers);
                if dest.is_data_direct() {
                    Ok(6)
                } else {
                    Ok(8 + dest.address_calculation_cycles(crate::m68k_registers::OpSize::Word))
                }
            },
            Some(Instruction::Move { size, source, dest }) => {
                self.execute_move(registers, bus, size, source, dest)
            },
        }
    }

    /// Dispatches an exception to its handler and returns the cycle cost the
    /// engine charges for it.
    pub fn handle_exception<B: BusInterface>(
        &self,
        registers: &mut Registers,
        bus: &mut B,
        exception: Exception,
    ) -> (r: u32)
        requires
            old(registers).ssp % 2 == 0,
            old(registers).ssp >= 0x110,
            vectors_aligned(*old(bus)),
            (exception matches Exception::Trap(v) ==> v < 0x40),
            (exception matches Exception::DivisionByZero { cycles } ==> cycles <= 0xFFFF),
            (exception matches Exception::CheckRegister { cycles } ==> cycles <= 0xFFFF),
        ensures
            r == (match exception {
                Exception::AddressError(..) => 50u32,
                Exception::PrivilegeViolation => 34u32,
                Exception::IllegalInstruction(..) => 34u32,
                Exception::DivisionByZero { cycles } => (38 + cycles) as u32,
                Exception::Trap(..) => 34u32,
                Exception::CheckRegister { cycles } => (30 + cycles) as u32,
            }),
            final(registers).supervisor_mode,
            !final(registers).trace_enabled,
            (exception matches Exception::AddressError(address, op_type) ==> {
                &&& *final(registers) == (Registers {
                    address_error: true,
                    trace_enabled: false,
                    supervisor_mode: true,
                    ssp: old(registers).ssp.wrapping_sub(14),
                    pc: spec_long(final(bus).word_at(12), final(bus).word_at(14)),
                    ..*old(registers)
                })
                &&& final(bus).word_at(old(registers).ssp.wrapping_sub(14))
                    == spec_address_error_status_word(
                    self.instruction,
                    self.opcode,
                    op_type,
                    old(registers).supervisor_mode,
                )
                &&& final(bus).word_at(old(registers).ssp.wrapping_sub(12))
                    == (address >> 16) as u16
                &&& final(bus).word_at(old(registers).ssp.wrapping_sub(10)) == address as u16
                &&& final(bus).word_at(old(registers).ssp.wrapping_sub(8)) == self.opcode
                &&& final(bus).word_at(old(registers).ssp.wrapping_sub(6))
                    == old(registers).spec_sr()
                &&& final(bus).word_at(old(registers).ssp.wrapping_sub(4))
                    == (spec_address_error_pc(self.instruction, op_type, old(registers).pc)
                    >> 16) as u16
                &&& final(bus).word_at(old(registers).ssp.wrapping_sub(2))
                    == spec_address_error_pc(
                    self.instruction,
                    op_type,
                    old(registers).pc,
                ) as u16
            }),
            (exception matches Exception::IllegalInstruction(op) ==> trap_entry_rel(
                *old(registers),
                *old(bus),
                *final(registers),
                *final(bus),
                spec_illegal_vector(op),
                old(registers).pc.wrapping_sub(2),
            )),
            (exception matches Exception::Trap(v) ==> trap_entry_rel(
                *old(registers),
                *old(bus),
                *final(registers),
                *final(bus),
                v,
                old(registers).pc,
            )),
            (exception is PrivilegeViolation ==> trap_entry_rel(
                *old(registers),
                *old(bus),
                *final(registers),
                *final(bus),
                PRIVILEGE_VIOLATION_VECTOR,
                old(registers).pc.wrapping_sub(2),
            )),
            (exception is DivisionByZero ==> trap_entry_rel(
                *old(registers),
                *old(bus),
                *final(registers),
                *final(bus),
                DIVIDE_BY_ZERO_VECTOR,
                old(registers).pc,
            )),
            (exception is CheckRegister ==> trap_entry_rel(
                *old(registers),
                *old(bus),
                *final(registers),
                *final(bus),
                CHECK_REGISTER_VECTOR,
                old(registers).pc,
            )),
    {
        proof {
            lemma_wrap_arith(old(registers).ssp);
        }
        match exception {
            Exception::AddressError(address, op_type) => {
                registers.address_error = true;
                match self.handle_address_error(registers, bus, address, op_type) {
                    Ok(()) => (),
                    Err(_) => {
                        // Unreachable: the supervisor stack is even, so every
                        // frame push succeeds.
                        proof {
                            assert(false);
                        }
                    },
                }

                // Not completely accurate but close enough; this shouldn't
                // occur in real software
                50
            },
            Exception::PrivilegeViolation => {
                let pushed_pc = registers.pc.wrapping_sub(2);
                match self.handle_trap(registers, bus, PRIVILEGE_VIOLATION_VECTOR, pushed_pc) {
                    Ok(()) => (),
                    Err(_) => {
                        proof {
                            lemma_trap_vector_even(
                                *old(bus),
                                *final(bus),
                                old(registers).ssp,
                                PRIVILEGE_VIOLATION_VECTOR,
                            );
                        }
                    },
                }

                34
            },
            Exception::IllegalInstruction(opcode) => {
                // Line-1010 and line-1111 opcodes use their own vectors
                let vector = if (opcode >> 12) == 0b1010 {
                    LINE_1010_VECTOR
                } else if (opcode >> 12) == 0b1111 {
                    LINE_1111_VECTOR
                } else {
                    ILLEGAL_OPCODE_VECTOR
                };

                let pushed_pc = registers.pc.wrapping_sub(2);
                match self.handle_trap(registers, bus, vector, pushed_pc) {
                    Ok(()) => (),
                    Err(_) => {
                        proof {
                            lemma_trap_vector_even(
                                *old(bus),
                                *final(bus),
                                old(registers).ssp,
                                vector,
                            );
                        }
                    },
                }

                34
            },
            Exception::DivisionByZero { cycles } => {
                let pushed_pc = registers.pc;
                match self.handle_trap(registers, bus, DIVIDE_BY_ZERO_VECTOR, pushed_pc) {
                    Ok(()) => (),
                    Err(_) => {
                        proof {
                            lemma_trap_vector_even(
                                *old(bus),
                                *final(bus),
                                old(registers).ssp,
                                DIVIDE_BY_ZERO_VECTOR,
                            );
                        }
                    },
                }

                38 + cycles
            },
            Exception::Trap(vector) => {
                let pushed_pc = registers.pc;
                match self.handle_trap(registers, bus, vector, pushed_pc) {
                    Ok(()) => (),
                    Err(_) => {
                        proof {
                            lemma_trap_vector_even(
                                *old(bus),
                                *final(bus),
                                old(registers).ssp,
                                vector,
                            );
                        }
                    },
                }

                34
            },
            Exception::CheckRegister { cycles } => {
                let pushed_pc = registers.pc;
                match self.handle_trap(registers, bus, CHECK_REGISTER_VECTOR, pushed_pc) {
                    Ok(()) => (),
                    Err(_) => {
                        proof {
                            lemma_trap_vector_even(
                                *old(bus),
                                *final(bus),
                                old(registers).ssp,
                                CHECK_REGISTER_VECTOR,
                            );
                        }
                    },
                }

                30 + cycles
            },
        }
    }

    /// Runs one step of the engine: reacts to a pending or newly sampled
    /// interrupt, idles while stopped, and otherwise executes one
    /// instruction, handling any exception it raises. Returns the cycles
    /// consumed.
    pub fn execute<B: BusInterface>(&mut self, registers: &mut Registers, bus: &mut B) -> (r: u32)
        requires
            old(registers).ssp % 2 == 0,
            0x200 <= old(registers).ssp <= 0xFFFF_0000,
            vectors_aligned(*old(bus)),
            (old(registers).pending_interrupt_level matches Some(l) ==> l < 8),
        ensures
            (old(registers).pending_interrupt_level matches Some(level) ==> {
                &&& r == 44
                &&& *final(registers) == (Registers {
                    address_error: false,
                    last_instruction_was_muldiv: false,
                    pending_interrupt_level: Option::None,
                    stopped: false,
                    trace_enabled: false,
                    supervisor_mode: true,
                    interrupt_priority_mask: level,
                    ssp: old(registers).ssp.wrapping_sub(6),
                    pc: spec_vector_target(*final(bus), (24 + level) as u32),
                    prefetch: final(bus).word_at(
                        spec_vector_target(*final(bus), (24 + level) as u32),
                    ),
                    ..*old(registers)
                })
                &&& final(bus).word_at(old(registers).ssp.wrapping_sub(4))
                    == (old(registers).pc >> 16) as u16
                &&& final(bus).word_at(old(registers).ssp.wrapping_sub(2))
                    == old(registers).pc as u16
                &&& final(bus).word_at(old(registers).ssp.wrapping_sub(6))
                    == old(registers).spec_sr()
            }),
            (old(registers).pending_interrupt_level is None && (old(bus).interrupt() & 7)
                > old(registers).interrupt_priority_mask ==> {
                &&& r == 10
                &&& *final(registers) == (Registers {
                    address_error: false,
                    last_instruction_was_muldiv: false,
                    pending_interrupt_level: Option::Some((old(bus).interrupt() & 7) as u8),
                    ..*old(registers)
                })
                &&& crate::m68k_bus::mem_preserved(*old(bus), *final(bus))
            }),
            (old(registers).pending_interrupt_level is None && (old(bus).interrupt() & 7)
                <= old(registers).interrupt_priority_mask && old(registers).stopped ==> {
                &&& r == 4
                &&& *final(registers) == (Registers {
                    address_error: false,
                    last_instruction_was_muldiv: false,
                    ..*old(registers)
                })
                &&& crate::m68k_bus::mem_preserved(*old(bus), *final(bus))
            }),
            (spec_runs_instruction(*old(registers), *old(bus)) && old(registers).pc % 2 == 0
                && old(registers).prefetch == 0x4E71 ==> {
                &&& r == 4
                &&& *final(registers) == spec_fetched(
                    Registers {
                        address_error: false,
                        last_instruction_was_muldiv: false,
                        ..*old(registers)
                    },
                    *old(bus),
                )
            }),
            (spec_runs_instruction(*old(registers), *old(bus)) && old(registers).pc % 2 == 0
                && crate::m68k_instructions::spec_decode(old(registers).prefetch) is None ==> {
                &&& r == 34
                &&& trap_entry_rel(
                    Registers {
                        address_error: false,
                        last_instruction_was_muldiv: false,
                        ..spec_fetched(*old(registers), *old(bus))
                    },
                    *old(bus),
                    *final(registers),
                    *final(bus),
                    spec_illegal_vector(old(registers).prefetch),
                    old(registers).pc,
                )
                &&& final(registers).supervisor_mode
                &&& !final(registers).trace_enabled
            }),
            (spec_runs_instruction(*old(registers), *old(bus)) && old(registers).pc % 2 == 0
                ==> (crate::m68k_instructions::spec_decode(old(registers).prefetch)
                matches Some(Instruction::Trap(n)) ==> {
                &&& r == 34
                &&& trap_entry_rel(
                    Registers {
                        address_error: false,
                        last_instruction_was_muldiv: false,
                        ..spec_fetched(*old(registers), *old(bus))
                    },
                    *old(bus),
                    *final(registers),
                    *final(bus),
                    (32 + n) as u32,
                    old(registers).pc.wrapping_add(2),
                )
            })),
            (spec_runs_instruction(*old(registers), *old(bus)) && old(registers).pc % 2 == 0
                ==> (crate::m68k_instructions::spec_decode(old(registers).prefetch)
                matches Some(Instruction::Move { size, source, dest }) ==> {
                let fetched = spec_fetched(*old(registers), *old(bus));
                &&& ((r == 4 + source.spec_address_calculation_cycles(size)
                    + dest.spec_address_calculation_cycles(size)
                    && !final(registers).address_error) || (r == 50
                    && final(registers).address_error))
                &&& (!final(registers).address_error ==> spec_move_value(
                    source,
                    size,
                    fetched,
                    *old(bus),
                ) is Ok)
                &&& (!final(registers).address_error ==> (spec_move_value(
                    source,
                    size,
                    fetched,
                    *old(bus),
                ) matches Ok(value) ==> final(registers).ccr == (if dest is AddressDirect {
                    old(registers).ccr
                } else {
                    spec_move_flags(size, value, old(registers).ccr)
                })))
                &&& (!final(registers).address_error ==> (dest
                    matches AddressingMode::DataDirect(reg) ==> (spec_move_value(
                    source,
                    size,
                    fetched,
                    *old(bus),
                ) matches Ok(value) ==> final(registers).data@ == old(registers).data@.update(
                    reg.0 as int,
                    (match size {
                        crate::m68k_registers::OpSize::Byte => (old(registers).data@[reg.0
                            as int] & 0xFFFF_FF00) | value,
                        crate::m68k_registers::OpSize::Word => (old(registers).data@[reg.0
                            as int] & 0xFFFF_0000) | value,
                        crate::m68k_registers::OpSize::LongWord => value,
                    }),
                ))))
                &&& (!final(registers).address_error ==> (dest
                    matches AddressingMode::AddressDirect(reg) ==> (spec_move_value(
                    source,
                    size,
                    fetched,
                    *old(bus),
                ) matches Ok(value) ==> {
                    let stored: u32 = if size is Word {
                        (value as u16) as i16 as u32
                    } else {
                        value
                    };
                    if reg.0 == 7 {
                        final(registers).spec_sp() == stored
                    } else {
                        final(registers).address@[reg.0 as int] == stored
                    }
                })))
                &&& (!source.spec_is_memory() && (dest is DataDirect || dest is AddressDirect)
                    ==> r == 4 + source.spec_address_calculation_cycles(size)
                    + dest.spec_address_calculation_cycles(size))
            })),
            (spec_runs_instruction(*old(registers), *old(bus)) && old(registers).pc % 2 != 0
                ==> {
                &&& r == 50
                &&& final(registers).address_error
            }),
    {
        proof {
            lemma_wrap_arith(old(registers).ssp);
        }
        registers.address_error = false;
        registers.last_instruction_was_muldiv = false;

        if let Some(interrupt_level) = registers.pending_interrupt_level {
            registers.pending_interrupt_level = None;
            bus.acknowledge_interrupt(interrupt_level);
            registers.stopped = false;
            let res = self.handle_auto_vectored_interrupt(registers, bus, interrupt_level);
            match res {
                Ok(cycles) => {
                    return cycles;
                },
                Err(_) => {
                    // Unreachable: the stack is aligned and the vector table
                    // holds even targets, by this function's preconditions.
                    proof {
                        lemma_trap_vector_even(
                            *old(bus),
                            *final(bus),
                            old(registers).ssp,
                            (24 + interrupt_level) as u32,
                        );
                    }
                    return 0;
                },
            }
        }

        let interrupt_level = bus.interrupt_level() & 0x07;
        if interrupt_level > registers.interrupt_priority_mask {
            // The interrupt is latched now; acknowledgment happens at the
            // start of the next step, after this recognition delay.
            registers.pending_interrupt_level = Some(interrupt_level);
            return 10;
        }

        if registers.stopped {
            return 4;
        }

        let result = self.do_execute(registers, bus);
        match result {
            Ok(cycles) => cycles,
            Err(exception) => {
                proof {
                    assert forall|v: u32| v < 0x40 implies #[trigger] spec_vector_target(
                        *bus,
                        v,
                    ) % 2 == 0 by {
                        assert(spec_vector_target(*bus, v) == spec_vector_target(*old(bus), v));
                    }
                }
                self.handle_exception(registers, bus, exception)
            },
        }
    }
}

/// True when the engine reaches actual instruction execution: no pending or
/// newly taken interrupt and the CPU is not stopped.
pub open spec fn spec_runs_instruction<B: BusInterface>(r: Registers, b: B) -> bool {
    &&& r.pending_interrupt_level is None
    &&& (b.interrupt() & 7) <= r.interrupt_priority_mask
    &&& !r.stopped
}

/// After frame pushes above the vector table, every vector target kept its
/// value and parity; so a trap through `vector` cannot itself fault.
proof fn lemma_trap_vector_even<B: BusInterface>(b0: B, b1: B, ssp0: u32, vector: u32)
    requires
        vectors_aligned(b0),
        vector < 0x40,
        ssp0 % 2 == 0,
        ssp0 >= 0x110,
        crate::m68k_bus::words_preserved_except(
            b0,
            b1,
            set![
                ssp0.wrapping_sub(2),
                ssp0.wrapping_sub(4),
                ssp0.wrapping_sub(6),
                ssp0.wrapping_sub(8),
                ssp0.wrapping_sub(10),
                ssp0.wrapping_sub(12),
                ssp0.wrapping_sub(14),
            ],
        ),
    ensures
        spec_vector_target(b1, vector) % 2 == 0,
{
    lemma_wrap_arith(ssp0);
    let a0 = (4 * vector) as u32;
    let a2 = (4 * vector + 2) as u32;
    assert(a0 < 0x100 && a2 < 0x102);
    assert(a0 % 2 == 0 && a2 % 2 == 0);
    assert(b1.word_at(a0) == b0.word_at(a0));
    assert(b1.word_at(a2) == b0.word_at(a2));
    assert(spec_vector_target(b1, vector) == spec_vector_target(b0, vector));
}

} // verus!
