//! The Motorola 68000 engine: construction, register inspection, reset, and
//! the one-instruction step.

use vstd::prelude::*;

use crate::m68k_bus::{spec_long, BusInterface};
use crate::m68k_executor::{
    spec_fetched, spec_illegal_vector, spec_move_flags, spec_move_value, spec_runs_instruction,
    spec_vector_target, trap_entry_rel, vectors_aligned, InstructionExecutor,
};
use crate::m68k_instructions::{AddressingMode, Instruction};
use crate::m68k_registers::{Registers, DEFAULT_INTERRUPT_MASK};

verus! {

/// Cycles a bus-asserted reset consumes.
pub const RESET_CYCLES: u32 = 132;

/// Step-by-step builder for a `M68000`.
#[derive(Debug, Clone)]
pub struct M68000Builder {
    pub allow_tas_writes: bool,
    pub name: Option<String>,
}

impl Default for M68000Builder {
    fn default() -> (r: Self)
        ensures
            r.allow_tas_writes,
            r.name is None,
    {
        Self { allow_tas_writes: true, name: None }
    }
}

impl M68000Builder {
    pub fn new() -> (r: Self)
        ensures
            r.allow_tas_writes,
            r.name is None,
    {
        Self::default()
    }

    /// Whether TAS memory write-back is honored; the Genesis bus blocks it.
    pub fn allow_tas_writes(self, allow_tas_writes: bool) -> (r: Self)
        ensures
            r.allow_tas_writes == allow_tas_writes,
            r.name == self.name,
    {
        let mut this = self;
        this.allow_tas_writes = allow_tas_writes;
        this
    }

    /// A display name for this CPU instance.
    pub fn name(self, name: String) -> (r: Self)
        ensures
            r.allow_tas_writes == self.allow_tas_writes,
            (r.name matches Some(n) && n@ == name@),
    {
        let mut this = self;
        this.name = Some(name);
        this
    }

    pub fn build(self) -> (r: M68000)
        ensures
            crate::m68k_registers::spec_is_power_on(r.registers),
            !r.halted,
            r.allow_tas_writes == self.allow_tas_writes,
            (self.name matches Some(n) ==> r.name@ == n@),
            (self.name is None ==> r.name@.len() == 0),
    {
        M68000 {
            registers: Registers::new(),
            halted: false,
            allow_tas_writes: self.allow_tas_writes,
            name: match self.name {
                Some(name) => name,
                None => String::new(),
            },
        }
    }
}

/// The 68000 CPU: the register file plus engine configuration.
#[derive(Debug, Clone)]
pub struct M68000 {
    pub registers: Registers,
    pub halted: bool,
    pub allow_tas_writes: bool,
    pub name: String,
}

impl Default for M68000 {
    fn default() -> (r: Self)
        ensures
            crate::m68k_registers::spec_is_power_on(r.registers),
            !r.halted,
            r.allow_tas_writes,
    {
        M68000Builder::default().build()
    }
}

impl M68000 {
    pub fn builder() -> (r: M68000Builder)
        ensures
            r.allow_tas_writes,
            r.name is None,
    {
        M68000Builder::default()
    }

    /// Reacts to a bus-asserted reset: reloads the supervisor stack pointer
    /// and PC from the first two vector-table entries, masks interrupts, and
    /// refills the prefetch.
    pub fn reset<B: BusInterface>(&mut self, bus: &mut B)
        requires
            spec_long(old(bus).word_at(0), old(bus).word_at(2)) % 2 == 0,
            spec_long(old(bus).word_at(0), old(bus).word_at(2)) >= 0x110,
            vectors_aligned(*old(bus)),
        ensures
            final(self).halted == old(self).halted,
            final(self).allow_tas_writes == old(self).allow_tas_writes,
            final(self).registers.supervisor_mode,
            final(self).registers.interrupt_priority_mask == DEFAULT_INTERRUPT_MASK,
            ({
                let nssp = spec_long(old(bus).word_at(0), old(bus).word_at(2));
                let npc = spec_long(old(bus).word_at(4), old(bus).word_at(6));
                npc % 2 == 0 ==> final(self).registers == (Registers {
                    supervisor_mode: true,
                    trace_enabled: false,
                    interrupt_priority_mask: DEFAULT_INTERRUPT_MASK,
                    stopped: false,
                    ssp: nssp,
                    pc: npc,
                    prefetch: old(bus).word_at(npc),
                    ..old(self).registers
                })
            }),
            ({
                let npc = spec_long(old(bus).word_at(4), old(bus).word_at(6));
                npc % 2 != 0 ==> final(self).registers.address_error
            }),
    {
        // Reset the upper word of the status register
        self.registers.supervisor_mode = true;
        self.registers.trace_enabled = false;
        self.registers.interrupt_priority_mask = DEFAULT_INTERRUPT_MASK;

        self.registers.stopped = false;

        // Read SSP from $000000 and PC from $000004
        self.registers.ssp = bus.read_long_word(0);
        self.registers.pc = bus.read_long_word(4);

        proof {
            assert forall|v: u32| v < 0x40 implies #[trigger] spec_vector_target(*bus, v) % 2
                == 0 by {
                assert(spec_vector_target(*bus, v) == spec_vector_target(*old(bus), v));
            }
        }
        self.populate_prefetch(bus);
    }

    /// Re-establishes the prefetch invariant after a direct PC change; an
    /// odd PC raises the address-error protocol instead.
    pub fn populate_prefetch<B: BusInterface>(&mut self, bus: &mut B)
        requires
            old(self).registers.pc % 2 != 0 ==> {
                &&& old(self).registers.ssp % 2 == 0
                &&& old(self).registers.ssp >= 0x110
                &&& vectors_aligned(*old(bus))
            },
        ensures
            final(self).halted == old(self).halted,
            final(self).allow_tas_writes == old(self).allow_tas_writes,
            old(self).registers.pc % 2 == 0 ==> {
                &&& final(self).registers == (Registers {
                    prefetch: old(bus).word_at(old(self).registers.pc),
                    ..old(self).registers
                })
                &&& crate::m68k_bus::mem_preserved(*old(bus), *final(bus))
            },
            old(self).registers.pc % 2 != 0 ==> {
                &&& final(self).registers.address_error
                &&& final(self).registers.supervisor_mode
                &&& final(self).registers.interrupt_priority_mask == old(
                    self,
                ).registers.interrupt_priority_mask
            },
    {
        let executor = InstructionExecutor::new(self.allow_tas_writes);
        let pc = self.registers.pc;
        match executor.jump_to_address(&mut self.registers, bus, pc) {
            Ok(()) => (),
            Err(exception) => {
                proof {
                    assert forall|v: u32| v < 0x40 implies #[trigger] spec_vector_target(
                        *bus,
                        v,
                    ) % 2 == 0 by {
                        assert(spec_vector_target(*bus, v) == spec_vector_target(*old(bus), v));
                    }
                }
                let _ = executor.handle_exception(&mut self.registers, bus, exception);
            },
        }
    }

    pub fn data_registers(&self) -> (r: [u32; 8])
        ensures
            r == self.registers.data,
    {
        self.registers.data
    }

    pub fn set_data_registers(&mut self, registers: [u32; 8])
        ensures
            *final(self) == (M68000 {
                registers: Registers { data: registers, ..old(self).registers },
                ..*old(self)
            }),
    {
        self.registers.data = registers;
    }

    pub fn address_registers(&self) -> (r: [u32; 7])
        ensures
            r == self.registers.address,
    {
        self.registers.address
    }

    pub fn user_stack_pointer(&self) -> (r: u32)
        ensures
            r == self.registers.usp,
    {
        self.registers.usp
    }

    pub fn supervisor_stack_pointer(&self) -> (r: u32)
        ensures
            r == self.registers.ssp,
    {
        self.registers.ssp
    }

    pub fn set_supervisor_stack_pointer(&mut self, ssp: u32)
        ensures
            *final(self) == (M68000 {
                registers: Registers { ssp, ..old(self).registers },
                ..*old(self)
            }),
    {
        self.registers.ssp = ssp;
    }

    pub fn set_address_registers(&mut self, registers: [u32; 7], usp: u32, ssp: u32)
        ensures
            *final(self) == (M68000 {
                registers: Registers { address: registers, usp, ssp, ..old(self).registers },
                ..*old(self)
            }),
    {
        self.registers.address = registers;
        self.registers.usp = usp;
        self.registers.ssp = ssp;
    }

    pub fn status_register(&self) -> (r: u16)
        ensures
            r == self.registers.spec_sr(),
    {
        self.registers.status_register()
    }

    pub fn set_status_register(&mut self, status_register: u16)
        ensures
            final(self).registers == old(self).registers.spec_set_sr(status_register),
            *final(self) == (M68000 { registers: final(self).registers, ..*old(self) }),
    {
        self.registers.set_status_register(status_register);
    }

    pub fn pc(&self) -> (r: u32)
        ensures
            r == self.registers.pc,
    {
        self.registers.pc
    }

    /// Moves PC and refills the prefetch from the new location.
    pub fn set_pc<B: BusInterface>(&mut self, pc: u32, bus: &mut B)
        requires
            pc % 2 != 0 ==> {
                &&& old(self).registers.ssp % 2 == 0
                &&& old(self).registers.ssp >= 0x110
                &&& vectors_aligned(*old(bus))
            },
        ensures
            pc % 2 == 0 ==> final(self).registers == (Registers {
                pc,
                prefetch: old(bus).word_at(pc),
                ..old(self).registers
            }),
            pc % 2 != 0 ==> final(self).registers.address_error,
    {
        self.registers.pc = pc;
        self.populate_prefetch(bus);
    }

    /// True when the last instruction ended in an address error.
    pub fn address_error(&self) -> (r: bool)
        ensures
            r == self.registers.address_error,
    {
        self.registers.address_error
    }

    /// True if the most recently executed instruction was MULU, MULS, DIVU,
    /// or DIVS.
    pub fn last_instruction_was_mul_or_div(&self) -> (r: bool)
        ensures
            r == self.registers.last_instruction_was_muldiv,
    {
        self.registers.last_instruction_was_muldiv
    }

    /// The opcode the prefetch holds, which executes next.
    pub fn next_opcode(&self) -> (r: u16)
        ensures
            r == self.registers.prefetch,
    {
        self.registers.prefetch
    }

    /// Runs one step: a bus-asserted reset or halt short-circuits;
    /// otherwise interrupts are sampled and one instruction executes.
    /// Returns the cycles consumed.
    pub fn execute_instruction<B: BusInterface>(&mut self, bus: &mut B) -> (r: u32)
        requires
            old(bus).resetting() ==> {
                &&& spec_long(old(bus).word_at(0), old(bus).word_at(2)) % 2 == 0
                &&& spec_long(old(bus).word_at(0), old(bus).word_at(2)) >= 0x110
                &&& vectors_aligned(*old(bus))
            },
            !old(bus).resetting() && !old(bus).halted() ==> {
                &&& old(self).registers.ssp % 2 == 0
                &&& 0x200 <= old(self).registers.ssp <= 0xFFFF_0000
                &&& vectors_aligned(*old(bus))
                &&& (old(self).registers.pending_interrupt_level matches Some(l) ==> l < 8)
            },
        ensures
            final(self).allow_tas_writes == old(self).allow_tas_writes,
            (old(bus).resetting() ==> {
                &&& r == RESET_CYCLES
                &&& final(self).registers.supervisor_mode
                &&& final(self).registers.interrupt_priority_mask == DEFAULT_INTERRUPT_MASK
                &&& (spec_long(old(bus).word_at(4), old(bus).word_at(6)) % 2 == 0
                    ==> final(self).registers == (Registers {
                    supervisor_mode: true,
                    trace_enabled: false,
                    interrupt_priority_mask: DEFAULT_INTERRUPT_MASK,
                    stopped: false,
                    ssp: spec_long(old(bus).word_at(0), old(bus).word_at(2)),
                    pc: spec_long(old(bus).word_at(4), old(bus).word_at(6)),
                    prefetch: old(bus).word_at(
                        spec_long(old(bus).word_at(4), old(bus).word_at(6)),
                    ),
                    ..old(self).registers
                }))
            }),
            (!old(bus).resetting() && old(bus).halted() ==> r == 1 && *final(self) == *old(
                self,
            )),
            (!old(bus).resetting() && !old(bus).halted() ==> {
                &&& (old(self).registers.pending_interrupt_level matches Some(level) ==> {
                    &&& r == 44
                    &&& final(self).registers == (Registers {
                        address_error: false,
                        last_instruction_was_muldiv: false,
                        pending_interrupt_level: Option::None,
                        stopped: false,
                        trace_enabled: false,
                        supervisor_mode: true,
                        interrupt_priority_mask: level,
                        ssp: old(self).registers.ssp.wrapping_sub(6),
                        pc: spec_vector_target(*final(bus), (24 + level) as u32),
                        prefetch: final(bus).word_at(
                            spec_vector_target(*final(bus), (24 + level) as u32),
                        ),
                        ..old(self).registers
                    })
                    &&& final(bus).word_at(old(self).registers.ssp.wrapping_sub(4))
                        == (old(self).registers.pc >> 16) as u16
                    &&& final(bus).word_at(old(self).registers.ssp.wrapping_sub(2))
                        == old(self).registers.pc as u16
                    &&& final(bus).word_at(old(self).registers.ssp.wrapping_sub(6))
                        == old(self).registers.spec_sr()
                })
                &&& (old(self).registers.pending_interrupt_level is None && (old(
                    bus,
                ).interrupt() & 7) > old(self).registers.interrupt_priority_mask ==> {
                    &&& r == 10
                    &&& final(self).registers == (Registers {
                        address_error: false,
                        last_instruction_was_muldiv: false,
                        pending_interrupt_level: Option::Some(
                            (old(bus).interrupt() & 7) as u8,
                        ),
                        ..old(self).registers
                    })
                })
                &&& (old(self).registers.pending_interrupt_level is None && (old(
                    bus,
                ).interrupt() & 7) <= old(self).registers.interrupt_priority_mask && old(
                    self,
                ).registers.stopped ==> {
                    &&& r == 4
                    &&& final(self).registers == (Registers {
                        address_error: false,
                        last_instruction_was_muldiv: false,
                        ..old(self).registers
                    })
                    &&& crate::m68k_bus::mem_preserved(*old(bus), *final(bus))
                })
                &&& (spec_runs_instruction(old(self).registers, *old(bus)) && old(
                    self,
                ).registers.pc % 2 == 0 && old(self).registers.prefetch == 0x4E71 ==> {
                    &&& r == 4
                    &&& final(self).registers == spec_fetched(
                        Registers {
                            address_error: false,
                            last_instruction_was_muldiv: false,
                            ..old(self).registers
                        },
                        *old(bus),
                    )
                })
                &&& (spec_runs_instruction(old(self).registers, *old(bus)) && old(
                    self,
                ).registers.pc % 2 == 0 && crate::m68k_instructions::spec_decode(
                    old(self).registers.prefetch,
                ) is None ==> {
                    &&& r == 34
                    &&& trap_entry_rel(
                        Registers {
                            address_error: false,
                            last_instruction_was_muldiv: false,
                            ..spec_fetched(old(self).registers, *old(bus))
                        },
                        *old(bus),
                        final(self).registers,
                        *final(bus),
                        spec_illegal_vector(old(self).registers.prefetch),
                        old(self).registers.pc,
                    )
                    &&& final(self).registers.supervisor_mode
                })
                &&& (spec_runs_instruction(old(self).registers, *old(bus)) && old(
                    self,
                ).registers.pc % 2 == 0 ==> (crate::m68k_instructions::spec_decode(
                    old(self).registers.prefetch,
                ) matches Some(Instruction::Trap(n)) ==> {
                    &&& r == 34
                    &&& trap_entry_rel(
                        Registers {
                            address_error: false,
                            last_instruction_was_muldiv: false,
                            ..spec_fetched(old(self).registers, *old(bus))
                        },
                        *old(bus),
                        final(self).registers,
                        *final(bus),
                        (32 + n) as u32,
                        old(self).registers.pc.wrapping_add(2),
                    )
                }))
                &&& (spec_runs_instruction(old(self).registers, *old(bus)) && old(
                    self,
                ).registers.pc % 2 == 0 ==> (crate::m68k_instructions::spec_decode(
                    old(self).registers.prefetch,
                ) matches Some(Instruction::Move { size, source, dest }) ==> {
                    let fetched = spec_fetched(old(self).registers, *old(bus));
                    &&& ((r == 4 + source.spec_address_calculation_cycles(size)
                        + dest.spec_address_calculation_cycles(size)
                        && !final(self).registers.address_error) || (r == 50
                        && final(self).registers.address_error))
                    &&& (!final(self).registers.address_error ==> (spec_move_value(
                        source,
                        size,
                        fetched,
                        *old(bus),
                    ) matches Ok(value) ==> final(self).registers.ccr == (
                    if dest is AddressDirect {
                        old(self).registers.ccr
                    } else {
                        spec_move_flags(size, value, old(self).registers.ccr)
                    })))
                    &&& (!final(self).registers.address_error ==> (dest
                        matches AddressingMode::DataDirect(reg) ==> (spec_move_value(
                        source,
                        size,
                        fetched,
                        *old(bus),
                    ) matches Ok(value) ==> final(self).registers.data@ == old(
                        self,
                    ).registers.data@.update(
                        reg.0 as int,
                        (match size {
                            crate::m68k_registers::OpSize::Byte => (old(
                                self,
                            ).registers.data@[reg.0 as int] & 0xFFFF_FF00) | value,
                            crate::m68k_registers::OpSize::Word => (old(
                                self,
                            ).registers.data@[reg.0 as int] & 0xFFFF_0000) | value,
                            crate::m68k_registers::OpSize::LongWord => value,
                        }),
                    ))))
                    &&& (!final(self).registers.address_error ==> (dest
                        matches AddressingMode::AddressDirect(reg) ==> (spec_move_value(
                        source,
                        size,
                        fetched,
                        *old(bus),
                    ) matches Ok(value) ==> {
                        let stored: u32 = if size is Word {
                            (value as u16) as i16 as u32
                        } else {
                            value
                        };
                        if reg.0 == 7 {
                            final(self).registers.spec_sp() == stored
                        } else {
                            final(self).registers.address@[reg.0 as int] == stored
                        }
                    })))
                    &&& (!source.spec_is_memory() && (dest is DataDirect
                        || dest is AddressDirect) ==> r == 4
                        + source.spec_address_calculation_cycles(size)
                        + dest.spec_address_calculation_cycles(size))
                }))
                &&& (spec_runs_instruction(old(self).registers, *old(bus)) && old(
                    self,
                ).registers.pc % 2 != 0 ==> {
                    &&& r == 50
                    &&& final(self).registers.address_error
                })
            }),
    {
        if bus.reset() {
            self.reset(bus);
            return RESET_CYCLES;
        }

        if bus.halt() {
            return 1;
        }

        let mut executor = InstructionExecutor::new(self.allow_tas_writes);
        executor.execute(&mut self.registers, bus)
    }
}

} // verus!
