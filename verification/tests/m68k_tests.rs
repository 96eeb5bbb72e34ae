use jgenesis_core::m68k_bus::{BusInterface, InMemoryBus};
use jgenesis_core::m68k_cpu::M68000;
use jgenesis_core::m68k_registers::ConditionCodes;

/// A bus with an even supervisor stack, an aligned vector table, and a
/// program counter parked at `pc`.
fn cpu_at(pc: u32) -> (M68000, InMemoryBus) {
    let mut bus = InMemoryBus::new();
    // Every vector-table entry points at an even, harmless address.
    for v in 0..0x40u32 {
        bus.write_long_word(4 * v, 0x0000_2000 + 0x10 * v);
    }
    let mut cpu = M68000::builder().build();
    cpu.set_supervisor_stack_pointer(0x3000);
    cpu.set_pc(pc, &mut bus);
    (cpu, bus)
}

#[test]
fn status_register_masks_to_a71f() {
    let mut cpu = M68000::builder().build();
    cpu.set_status_register(0xFFFF);
    assert_eq!(cpu.status_register(), 0xA71F);
    cpu.set_status_register(0x2301);
    assert_eq!(cpu.status_register(), 0x2301);
    cpu.set_status_register(0x58E0);
    assert_eq!(cpu.status_register(), 0x58E0 & 0xA71F);
}

#[test]
fn condition_codes_round_trip_through_flag_byte() {
    for b in 0u16..=255 {
        let b = b as u8;
        let cc = ConditionCodes::from_u8(b);
        assert_eq!(cc.to_u8(), b & 0x1F);
        assert_eq!(ConditionCodes::from_u8(cc.to_u8()), cc);
    }
}

#[test]
fn nop_takes_four_cycles_and_advances_pc() {
    let (mut cpu, mut bus) = cpu_at(0x400);
    bus.write_word(0x400, 0x4E71);
    cpu.set_pc(0x400, &mut bus);
    let sr_before = cpu.status_register();

    let cycles = cpu.execute_instruction(&mut bus);
    assert_eq!(cycles, 4);
    assert_eq!(cpu.pc(), 0x402);
    assert_eq!(cpu.status_register(), sr_before);
}

#[test]
fn illegal_opcode_traps_through_vector_4() {
    let (mut cpu, mut bus) = cpu_at(0x400);
    bus.write_long_word(4 * 4, 0x0000_0800); // illegal-instruction vector
    bus.write_word(0x400, 0x4AFC);
    cpu.set_pc(0x400, &mut bus);
    let ssp_before = cpu.supervisor_stack_pointer();
    let sr_before = cpu.status_register();

    let cycles = cpu.execute_instruction(&mut bus);
    assert_eq!(cycles, 34);
    assert_eq!(cpu.pc(), 0x0000_0800);

    // The trap frame holds the SR and the PC of the faulting opcode.
    assert_eq!(cpu.supervisor_stack_pointer(), ssp_before - 6);
    assert_eq!(bus.read_word(ssp_before - 6), sr_before);
    assert_eq!(bus.read_long_word(ssp_before - 4), 0x400);
}

#[test]
fn line_1111_opcode_uses_vector_11() {
    let (mut cpu, mut bus) = cpu_at(0x400);
    bus.write_long_word(4 * 11, 0x0000_0900);
    bus.write_word(0x400, 0xFFFF);
    cpu.set_pc(0x400, &mut bus);

    let cycles = cpu.execute_instruction(&mut bus);
    assert_eq!(cycles, 34);
    assert_eq!(cpu.pc(), 0x0000_0900);
}

#[test]
fn trap_instruction_uses_vector_32_plus_n() {
    let (mut cpu, mut bus) = cpu_at(0x400);
    bus.write_long_word(4 * 34, 0x0000_0A00); // TRAP #2
    bus.write_word(0x400, 0x4E42);
    cpu.set_pc(0x400, &mut bus);

    let cycles = cpu.execute_instruction(&mut bus);
    assert_eq!(cycles, 34);
    assert_eq!(cpu.pc(), 0x0000_0A00);
}

#[test]
fn odd_word_read_raises_address_error_with_frame() {
    let (mut cpu, mut bus) = cpu_at(0x400);
    bus.write_long_word(4 * 3, 0x0000_0B00); // address-error vector
    // MOVE.W (A0), D0 with A0 odd.
    bus.write_word(0x400, 0x3010);
    cpu.set_pc(0x400, &mut bus);
    cpu.set_address_registers([0x1001, 0, 0, 0, 0, 0, 0], 0, 0x3000);
    let ssp0 = cpu.supervisor_stack_pointer();
    let sr0 = cpu.status_register();

    let cycles = cpu.execute_instruction(&mut bus);
    assert_eq!(cycles, 50);
    assert!(cpu.address_error());
    assert_eq!(cpu.pc(), 0x0000_0B00);
    assert_eq!(cpu.supervisor_stack_pointer(), ssp0 - 14);

    // The documented 14-byte frame, lowest address first: status word,
    // faulting address, opcode, SR, adjusted PC.
    let status_word = bus.read_word(ssp0 - 14);
    assert_eq!(status_word, (0x3010 & 0xFFE0) | 0x10 | 0x05);
    assert_eq!(bus.read_long_word(ssp0 - 12), 0x1001);
    assert_eq!(bus.read_word(ssp0 - 8), 0x3010);
    assert_eq!(bus.read_word(ssp0 - 6), sr0);
    assert_eq!(bus.read_long_word(ssp0 - 4), 0x402 - 2);
}

#[test]
fn absolute_long_write_fault_pushes_pc_minus_4() {
    let (mut cpu, mut bus) = cpu_at(0x400);
    bus.write_long_word(4 * 3, 0x0000_0B00);
    // MOVE.W (A0), (xxx).L with an odd absolute destination.
    bus.write_word(0x400, 0x33D0);
    bus.write_word(0x402, 0x0000);
    bus.write_word(0x404, 0x1001);
    cpu.set_pc(0x400, &mut bus);
    cpu.set_address_registers([0x1000, 0, 0, 0, 0, 0, 0], 0, 0x3000);
    let ssp0 = cpu.supervisor_stack_pointer();

    let cycles = cpu.execute_instruction(&mut bus);
    assert_eq!(cycles, 50);
    assert!(cpu.address_error());

    // PC was 0x406 after fetching both extension words; the frame records
    // PC - 4 for an absolute-long destination with a memory source.
    assert_eq!(bus.read_long_word(ssp0 - 4), 0x406 - 4);
    // Write faults clear the R/W bit.
    let status_word = bus.read_word(ssp0 - 14);
    assert_eq!(status_word & 0x10, 0);
}

#[test]
fn predecrement_write_fault_pushes_unadjusted_pc() {
    let (mut cpu, mut bus) = cpu_at(0x400);
    bus.write_long_word(4 * 3, 0x0000_0B00);
    // MOVE.W (A0), -(A1) with A1 odd.
    // dest A1 predecrement: reg 001, mode 100; source (A0): mode 010 reg 000.
    bus.write_word(0x400, 0x3000 | (0b001 << 9) | (0b100 << 6) | (0b010 << 3));
    cpu.set_pc(0x400, &mut bus);
    cpu.set_address_registers([0x1000, 0x2001, 0, 0, 0, 0, 0], 0, 0x3000);
    let ssp0 = cpu.supervisor_stack_pointer();

    let cycles = cpu.execute_instruction(&mut bus);
    assert_eq!(cycles, 50);
    // The frame records the unadjusted PC for a predecrement destination.
    assert_eq!(bus.read_long_word(ssp0 - 4), 0x402);
}

#[test]
fn interrupt_at_mask_level_is_not_taken() {
    let (mut cpu, mut bus) = cpu_at(0x400);
    bus.write_word(0x400, 0x4E71);
    bus.write_word(0x402, 0x4E71);
    cpu.set_pc(0x400, &mut bus);
    cpu.set_status_register(0x2300); // supervisor, mask 3

    bus.set_interrupt_level(3);
    let cycles = cpu.execute_instruction(&mut bus);
    assert_eq!(cycles, 4); // NOP ran; the interrupt was not taken
    assert_eq!(cpu.pc(), 0x402);
}

#[test]
fn interrupt_above_mask_is_taken_after_ten_cycle_delay() {
    let (mut cpu, mut bus) = cpu_at(0x400);
    bus.write_long_word(0x60 + 4 * 4, 0x0000_0C00); // auto-vector, level 4
    bus.write_word(0x400, 0x4E71);
    cpu.set_pc(0x400, &mut bus);
    cpu.set_status_register(0x2300); // supervisor, mask 3

    bus.set_interrupt_level(4);
    let cycles = cpu.execute_instruction(&mut bus);
    assert_eq!(cycles, 10); // recognition delay; interrupt latched

    let cycles = cpu.execute_instruction(&mut bus);
    assert_eq!(cycles, 44); // acknowledged and vectored
    assert_eq!(cpu.pc(), 0x0000_0C00);
    // The mask was raised to the taken level.
    assert_eq!(cpu.status_register() & 0x0700, 0x0400);
}

#[test]
fn move_word_between_data_registers() {
    let (mut cpu, mut bus) = cpu_at(0x400);
    // MOVE.W D1, D2
    bus.write_word(0x400, 0x3000 | (0b010 << 9) | (0b000 << 6) | (0b000 << 3) | 0b001);
    cpu.set_pc(0x400, &mut bus);
    cpu.set_data_registers([0, 0xABCD_1234, 0xFFFF_FFFF, 0, 0, 0, 0, 0]);

    let cycles = cpu.execute_instruction(&mut bus);
    assert_eq!(cycles, 4);
    // Word writes into a data register replace only the low 16 bits.
    assert_eq!(cpu.data_registers()[2], 0xFFFF_1234);
}

#[test]
fn move_long_to_memory_lands_big_endian() {
    let (mut cpu, mut bus) = cpu_at(0x400);
    // MOVE.L D0, (A0)
    bus.write_word(0x400, 0x2000 | (0b000 << 9) | (0b010 << 6) | (0b000 << 3));
    cpu.set_pc(0x400, &mut bus);
    cpu.set_data_registers([0x1122_3344, 0, 0, 0, 0, 0, 0, 0]);
    cpu.set_address_registers([0x2000, 0, 0, 0, 0, 0, 0], 0, 0x3000);

    let cycles = cpu.execute_instruction(&mut bus);
    assert_eq!(cycles, 4 + 8); // base + long (An) destination overhead
    assert_eq!(bus.read_long_word(0x2000), 0x1122_3344);
    assert_eq!(bus.read_byte(0x2000), 0x11);
    assert_eq!(bus.read_byte(0x2003), 0x44);
}

#[test]
fn movea_sign_extends_and_keeps_flags() {
    let (mut cpu, mut bus) = cpu_at(0x400);
    // MOVEA.W #0x8000, A1: dest A1 address-direct (mode 001).
    bus.write_word(0x400, 0x3000 | (0b001 << 9) | (0b001 << 6) | (0b111 << 3) | 0b100);
    bus.write_word(0x402, 0x8000);
    cpu.set_pc(0x400, &mut bus);
    cpu.set_status_register(0x2700);
    let flags_before = cpu.status_register() & 0x1F;

    cpu.execute_instruction(&mut bus);
    assert_eq!(cpu.address_registers()[1], 0xFFFF_8000);
    // MOVEA never touches the condition codes.
    assert_eq!(cpu.status_register() & 0x1F, flags_before);
}

#[test]
fn move_sets_n_and_z_and_clears_v_and_c() {
    let (mut cpu, mut bus) = cpu_at(0x400);
    // MOVE.W D1, D2 with a negative source sets N and clears Z/V/C.
    bus.write_word(0x400, 0x3000 | (0b010 << 9) | (0b000 << 6) | (0b000 << 3) | 0b001);
    cpu.set_pc(0x400, &mut bus);
    cpu.set_status_register(0x2700 | 0x1F); // start with X/N/Z/V/C all set
    cpu.set_data_registers([0, 0x8001, 0, 0, 0, 0, 0, 0]);
    cpu.execute_instruction(&mut bus);
    // X kept, N set, Z/V/C cleared.
    assert_eq!(cpu.status_register() & 0x1F, 0x10 | 0x08);

    // A zero source sets Z instead.
    let (mut cpu, mut bus) = cpu_at(0x400);
    bus.write_word(0x400, 0x3000 | (0b010 << 9) | (0b000 << 6) | (0b000 << 3) | 0b001);
    cpu.set_pc(0x400, &mut bus);
    cpu.set_status_register(0x2700);
    cpu.set_data_registers([0, 0, 0xFFFF_FFFF, 0, 0, 0, 0, 0]);
    cpu.execute_instruction(&mut bus);
    assert_eq!(cpu.status_register() & 0x1F, 0x04);
}

#[test]
fn postincrement_applies_once_after_the_access() {
    let (mut cpu, mut bus) = cpu_at(0x400);
    // MOVE.W (A0)+, D0
    bus.write_word(0x400, 0x3000 | (0b000 << 9) | (0b000 << 6) | (0b011 << 3));
    bus.write_word(0x2000, 0xBEEF);
    cpu.set_pc(0x400, &mut bus);
    cpu.set_address_registers([0x2000, 0, 0, 0, 0, 0, 0], 0, 0x3000);

    cpu.execute_instruction(&mut bus);
    assert_eq!(cpu.data_registers()[0] & 0xFFFF, 0xBEEF);
    assert_eq!(cpu.address_registers()[0], 0x2002);
}

#[test]
fn immediate_word_move_loads_the_extension_word() {
    let (mut cpu, mut bus) = cpu_at(0x400);
    // MOVE.W #0x5678, D4: source mode 111 reg 100 (immediate).
    bus.write_word(0x400, 0x3000 | (0b100 << 9) | (0b000 << 6) | (0b111 << 3) | 0b100);
    bus.write_word(0x402, 0x5678);
    cpu.set_pc(0x400, &mut bus);

    let cycles = cpu.execute_instruction(&mut bus);
    assert_eq!(cycles, 4 + 4); // base + word immediate fetch
    assert_eq!(cpu.data_registers()[4] & 0xFFFF, 0x5678);
    assert_eq!(cpu.pc(), 0x404);
}

#[test]
fn absolute_short_sign_extends_the_address() {
    let (mut cpu, mut bus) = cpu_at(0x400);
    // MOVE.W (xxx).W, D0 with a negative short address.
    bus.write_word(0x400, 0x3000 | (0b000 << 9) | (0b000 << 6) | (0b111 << 3) | 0b000);
    bus.write_word(0x402, 0x8000); // sign extends to 0xFFFF_8000
    bus.write_word(0xFFFF_8000, 0x1357);
    cpu.set_pc(0x400, &mut bus);

    let cycles = cpu.execute_instruction(&mut bus);
    assert_eq!(cycles, 4 + 8); // base + short absolute word overhead
    assert_eq!(cpu.data_registers()[0] & 0xFFFF, 0x1357);
}

#[test]
fn reset_loads_ssp_and_pc_from_vector_table() {
    let mut bus = InMemoryBus::new();
    bus.write_long_word(0, 0x0000_4000);
    bus.write_long_word(4, 0x0000_0500);
    bus.write_word(0x500, 0x4E71);
    let mut cpu = M68000::builder().build();

    bus.set_reset(true);
    let cycles = cpu.execute_instruction(&mut bus);
    assert_eq!(cycles, 132);
    assert_eq!(cpu.supervisor_stack_pointer(), 0x4000);
    assert_eq!(cpu.pc(), 0x500);
    assert_eq!(cpu.next_opcode(), 0x4E71);

    bus.set_reset(false);
    let cycles = cpu.execute_instruction(&mut bus);
    assert_eq!(cycles, 4);
}

#[test]
fn halt_line_consumes_one_cycle() {
    let (mut cpu, mut bus) = cpu_at(0x400);
    bus.set_halt(true);
    let pc = cpu.pc();
    assert_eq!(cpu.execute_instruction(&mut bus), 1);
    assert_eq!(cpu.pc(), pc);
}

#[test]
fn privileged_status_write_traps_in_user_mode() {
    let (mut cpu, mut bus) = cpu_at(0x400);
    bus.write_long_word(4 * 8, 0x0000_0D00); // privilege-violation vector
    // MOVE.W D0, SR (0x46C0) attempted from user mode.
    bus.write_word(0x400, 0x46C0);
    cpu.set_pc(0x400, &mut bus);
    cpu.set_status_register(0x0000); // drop supervisor

    let cycles = cpu.execute_instruction(&mut bus);
    assert_eq!(cycles, 34);
    assert_eq!(cpu.pc(), 0x0000_0D00);
}

#[test]
fn move_from_sr_writes_the_status_word() {
    let (mut cpu, mut bus) = cpu_at(0x400);
    // MOVE.W SR, D3 (0x40C0 | D3)
    bus.write_word(0x400, 0x40C0 | 0b011);
    cpu.set_pc(0x400, &mut bus);
    cpu.set_status_register(0x2715);

    let cycles = cpu.execute_instruction(&mut bus);
    assert_eq!(cycles, 6);
    assert_eq!(cpu.data_registers()[3] & 0xFFFF, 0x2715 & 0xA71F);
}

#[test]
fn save_state_round_trips_and_resumes_identically() {
    let (mut cpu, mut bus) = cpu_at(0x400);
    bus.write_word(0x400, 0x4E71);
    cpu.set_pc(0x400, &mut bus);
    cpu.set_data_registers([1, 2, 3, 4, 5, 6, 7, 8]);
    cpu.set_status_register(0x2301);

    let snapshot = cpu.save_state();
    let mut restored = M68000::load_state(&snapshot).expect("valid snapshot");

    assert_eq!(restored.data_registers(), cpu.data_registers());
    assert_eq!(restored.address_registers(), cpu.address_registers());
    assert_eq!(restored.supervisor_stack_pointer(), cpu.supervisor_stack_pointer());
    assert_eq!(restored.pc(), cpu.pc());
    assert_eq!(restored.status_register(), cpu.status_register());
    assert_eq!(restored.next_opcode(), cpu.next_opcode());

    // Stepping the original and the restored CPU gives identical outcomes.
    let mut bus2 = InMemoryBus::new();
    for v in 0..0x40u32 {
        bus2.write_long_word(4 * v, 0x0000_2000 + 0x10 * v);
    }
    bus2.write_word(0x400, 0x4E71);
    let c1 = cpu.execute_instruction(&mut bus);
    let c2 = restored.execute_instruction(&mut bus2);
    assert_eq!(c1, c2);
    assert_eq!(cpu.pc(), restored.pc());
    assert_eq!(cpu.status_register(), restored.status_register());
}

#[test]
fn small_program_runs_instruction_by_instruction() {
    let (mut cpu, mut bus) = cpu_at(0x400);
    // MOVE.W #0x1234, D0; MOVE.W D0, (A0); NOP
    bus.write_word(0x400, 0x3000 | (0b000 << 9) | (0b000 << 6) | (0b111 << 3) | 0b100);
    bus.write_word(0x402, 0x1234);
    bus.write_word(0x404, 0x3000 | (0b000 << 9) | (0b010 << 6) | (0b000 << 3) | 0b000);
    bus.write_word(0x406, 0x4E71);
    cpu.set_pc(0x400, &mut bus);
    cpu.set_address_registers([0x2000, 0, 0, 0, 0, 0, 0], 0, 0x3000);

    assert_eq!(cpu.execute_instruction(&mut bus), 8);
    assert_eq!(cpu.data_registers()[0] & 0xFFFF, 0x1234);
    assert_eq!(cpu.execute_instruction(&mut bus), 8);
    assert_eq!(bus.read_word(0x2000), 0x1234);
    assert_eq!(cpu.execute_instruction(&mut bus), 4);
    assert_eq!(cpu.pc(), 0x408);
}

#[test]
fn load_state_rejects_wrong_size() {
    assert!(M68000::load_state(&[0u8; 10]).is_none());
    assert!(M68000::load_state(&[0u8; 100]).is_none());
}

#[test]
fn in_memory_bus_defaults_to_open_bus() {
    let mut bus = InMemoryBus::new();
    assert_eq!(bus.read_byte(0x1234), 0xFF);
    assert_eq!(bus.read_word(0x1234), 0xFFFF);
    bus.write_byte(0x1234, 0x56);
    assert_eq!(bus.read_byte(0x1234), 0x56);
    bus.write_word(0x2000, 0xA1B2);
    assert_eq!(bus.read_byte(0x2000), 0xA1);
    assert_eq!(bus.read_byte(0x2001), 0xB2);
}
