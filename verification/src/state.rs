//! Save-state snapshots: a fixed binary image of the 68000's architectural
//! state, with the round-trip law that restoring a snapshot reproduces the
//! state it was taken from.

use vstd::prelude::*;

use crate::m68k_cpu::M68000;
use crate::m68k_registers::{ConditionCodes, Registers};

verus! {

/// Size of a CPU snapshot in bytes.
pub const M68000_STATE_SIZE: usize = 84;

/// The big-endian 32-bit word at byte offset `k`.
pub open spec fn spec_u32_at(bytes: Seq<u8>, k: int) -> u32 {
    ((bytes[k] as u32) << 24) | ((bytes[k + 1] as u32) << 16) | ((bytes[k + 2] as u32) << 8) | (
    bytes[k + 3] as u32)
}

/// The big-endian 16-bit word at byte offset `k`.
pub open spec fn spec_u16_at(bytes: Seq<u8>, k: int) -> u16 {
    ((bytes[k] as u16) << 8) | (bytes[k + 1] as u16)
}

/// What it means for a byte image to denote a CPU state: every register and
/// flag is pinned by fixed offsets, so a snapshot denotes exactly one state.
pub open spec fn state_rel(bytes: Seq<u8>, cpu: M68000) -> bool {
    &&& bytes.len() == M68000_STATE_SIZE
    &&& (forall|i: int|
        0 <= i < 8 ==> #[trigger] cpu.registers.data@[i] == spec_u32_at(bytes, 4 * i))
    &&& (forall|i: int|
        0 <= i < 7 ==> #[trigger] cpu.registers.address@[i] == spec_u32_at(bytes, 32 + 4 * i))
    &&& cpu.registers.usp == spec_u32_at(bytes, 60)
    &&& cpu.registers.ssp == spec_u32_at(bytes, 64)
    &&& cpu.registers.pc == spec_u32_at(bytes, 68)
    &&& cpu.registers.prefetch == spec_u16_at(bytes, 72)
    &&& cpu.registers.ccr == ConditionCodes::spec_from_u8(bytes[74])
    &&& cpu.registers.interrupt_priority_mask == bytes[75]
    &&& cpu.registers.pending_interrupt_level == (if bytes[76] == 0 {
        Option::<u8>::None
    } else {
        Option::Some(bytes[77])
    })
    &&& cpu.registers.supervisor_mode == (bytes[78] != 0)
    &&& cpu.registers.trace_enabled == (bytes[79] != 0)
    &&& cpu.registers.address_error == (bytes[80] != 0)
    &&& cpu.registers.last_instruction_was_muldiv == (bytes[81] != 0)
    &&& cpu.registers.stopped == (bytes[82] != 0)
    &&& cpu.halted == (bytes[83] != 0)
}

proof fn lemma_u32_recompose(v: u32)
    by (bit_vector)
    ensures
        ((((v >> 24) as u8) as u32) << 24) | ((((v >> 16) as u8) as u32) << 16) | ((((v
            >> 8) as u8) as u32) << 8) | ((v as u8) as u32) == v,
{
}

proof fn lemma_u16_recompose(v: u16)
    by (bit_vector)
    ensures
        ((((v >> 8) as u8) as u16) << 8) | ((v as u8) as u16) == v,
{
}

/// Appends the four big-endian bytes of `v`.
fn push_u32_be(out: &mut Vec<u8>, v: u32)
    ensures
        final(out)@ == old(out)@ + seq![
            (v >> 24) as u8,
            (v >> 16) as u8,
            (v >> 8) as u8,
            v as u8,
        ],
{
    let ghost pre = out@;
    out.push((v >> 24) as u8);
    out.push((v >> 16) as u8);
    out.push((v >> 8) as u8);
    out.push(v as u8);
    proof {
        assert(out@ =~= pre + seq![
            (v >> 24) as u8,
            (v >> 16) as u8,
            (v >> 8) as u8,
            v as u8,
        ]);
    }
}

/// Reads the big-endian 32-bit word at `k`.
fn read_u32_at(bytes: &[u8], k: usize) -> (r: u32)
    requires
        k + 4 <= bytes@.len(),
    ensures
        r == spec_u32_at(bytes@, k as int),
{
    ((bytes[k] as u32) << 24) | ((bytes[k + 1] as u32) << 16) | ((bytes[k + 2] as u32) << 8) | (
    bytes[k + 3] as u32)
}

/// Once four bytes encoding `v` stand at offset `k`, later appends do not
/// change what the offset decodes to.
proof fn lemma_u32_at_stable(s1: Seq<u8>, s2: Seq<u8>, k: int)
    requires
        0 <= k,
        k + 4 <= s1.len(),
        s1.len() <= s2.len(),
        forall|i: int| 0 <= i < s1.len() ==> s2[i] == s1[i],
    ensures
        spec_u32_at(s2, k) == spec_u32_at(s1, k),
{
}

impl M68000 {
    /// Serializes the architectural state into a fixed-size snapshot. The
    /// display name and the TAS configuration are not part of a snapshot.
    #[verifier::rlimit(100)]
    pub fn save_state(&self) -> (r: Vec<u8>)
        ensures
            state_rel(r@, *self),
    {
        let mut out: Vec<u8> = Vec::new();

        let mut i: usize = 0;
        while i < 8
            invariant
                i <= 8,
                out@.len() == 4 * i,
                forall|j: int|
                    0 <= j < i ==> #[trigger] self.registers.data@[j] == spec_u32_at(
                        out@,
                        4 * j,
                    ),
            decreases 8 - i,
        {
            let ghost pre = out@;
            let v = self.registers.data[i];
            push_u32_be(&mut out, v);
            proof {
                lemma_u32_recompose(v);
                assert(spec_u32_at(out@, 4 * i as int) == v);
                assert forall|j: int| 0 <= j < i + 1 implies #[trigger] self.registers.data@[j]
                    == spec_u32_at(out@, 4 * j) by {
                    if j < i {
                        lemma_u32_at_stable(pre, out@, 4 * j);
                    }
                }
            }
            i += 1;
        }

        let mut i: usize = 0;
        while i < 7
            invariant
                i <= 7,
                out@.len() == 32 + 4 * i,
                forall|j: int|
                    0 <= j < 8 ==> #[trigger] self.registers.data@[j] == spec_u32_at(
                        out@,
                        4 * j,
                    ),
                forall|j: int|
                    0 <= j < i ==> #[trigger] self.registers.address@[j] == spec_u32_at(
                        out@,
                        32 + 4 * j,
                    ),
            decreases 7 - i,
        {
            let ghost pre = out@;
            let v = self.registers.address[i];
            push_u32_be(&mut out, v);
            proof {
                lemma_u32_recompose(v);
                assert(spec_u32_at(out@, 32 + 4 * i as int) == v);
                assert forall|j: int| 0 <= j < 8 implies #[trigger] self.registers.data@[j]
                    == spec_u32_at(out@, 4 * j) by {
                    lemma_u32_at_stable(pre, out@, 4 * j);
                }
                assert forall|j: int| 0 <= j < i + 1 implies #[trigger] self.registers.address@[j]
                    == spec_u32_at(out@, 32 + 4 * j) by {
                    if j < i {
                        lemma_u32_at_stable(pre, out@, 32 + 4 * j);
                    }
                }
            }
            i += 1;
        }

        let ghost arrays = out@;
        push_u32_be(&mut out, self.registers.usp);
        push_u32_be(&mut out, self.registers.ssp);
        push_u32_be(&mut out, self.registers.pc);
        out.push((self.registers.prefetch >> 8) as u8);
        out.push(self.registers.prefetch as u8);
        out.push(self.registers.ccr.to_u8());
        out.push(self.registers.interrupt_priority_mask);
        match self.registers.pending_interrupt_level {
            Some(level) => {
                out.push(1);
                out.push(level);
            },
            None => {
                out.push(0);
                out.push(0);
            },
        }
        out.push(if self.registers.supervisor_mode {
            1
        } else {
            0
        });
        out.push(if self.registers.trace_enabled {
            1
        } else {
            0
        });
        out.push(if self.registers.address_error {
            1
        } else {
            0
        });
        out.push(if self.registers.last_instruction_was_muldiv {
            1
        } else {
            0
        });
        out.push(if self.registers.stopped {
            1
        } else {
            0
        });
        out.push(if self.halted {
            1
        } else {
            0
        });

        proof {
            lemma_u32_recompose(self.registers.usp);
            lemma_u32_recompose(self.registers.ssp);
            lemma_u32_recompose(self.registers.pc);
            lemma_u16_recompose(self.registers.prefetch);
            crate::m68k_registers::lemma_ccr_round_trip(self.registers.ccr);
            assert forall|j: int| 0 <= j < 8 implies #[trigger] self.registers.data@[j]
                == spec_u32_at(out@, 4 * j) by {
                lemma_u32_at_stable(arrays, out@, 4 * j);
            }
            assert forall|j: int| 0 <= j < 7 implies #[trigger] self.registers.address@[j]
                == spec_u32_at(out@, 32 + 4 * j) by {
                lemma_u32_at_stable(arrays, out@, 32 + 4 * j);
            }
        }
        out
    }

    /// Restores a CPU from a snapshot; a byte image of the wrong size is
    /// rejected. The display name and TAS configuration come back at their
    /// defaults, as they are not part of a snapshot.
    pub fn load_state(bytes: &[u8]) -> (r: Option<M68000>)
        ensures
            bytes@.len() == M68000_STATE_SIZE ==> (r matches Some(cpu) && state_rel(
                bytes@,
                cpu,
            )),
            bytes@.len() != M68000_STATE_SIZE ==> r is None,
    {
        if bytes.len() != M68000_STATE_SIZE {
            return None;
        }

        let mut data: [u32; 8] = [0, 0, 0, 0, 0, 0, 0, 0];
        let mut i: usize = 0;
        while i < 8
            invariant
                i <= 8,
                bytes@.len() == M68000_STATE_SIZE,
                forall|j: int| 0 <= j < i ==> #[trigger] data@[j] == spec_u32_at(bytes@, 4 * j),
            decreases 8 - i,
        {
            data[i] = read_u32_at(bytes, 4 * i);
            i += 1;
        }

        let mut address: [u32; 7] = [0, 0, 0, 0, 0, 0, 0];
        let mut i: usize = 0;
        while i < 7
            invariant
                i <= 7,
                bytes@.len() == M68000_STATE_SIZE,
                forall|j: int|
                    0 <= j < i ==> #[trigger] address@[j] == spec_u32_at(bytes@, 32 + 4 * j),
            decreases 7 - i,
        {
            address[i] = read_u32_at(bytes, 32 + 4 * i);
            i += 1;
        }

        let registers = Registers {
            data,
            address,
            usp: read_u32_at(bytes, 60),
            ssp: read_u32_at(bytes, 64),
            pc: read_u32_at(bytes, 68),
            prefetch: ((bytes[72] as u16) << 8) | (bytes[73] as u16),
            ccr: ConditionCodes::from_u8(bytes[74]),
            interrupt_priority_mask: bytes[75],
            pending_interrupt_level: if bytes[76] == 0 {
                None
            } else {
                Some(bytes[77])
            },
            supervisor_mode: bytes[78] != 0,
            trace_enabled: bytes[79] != 0,
            address_error: bytes[80] != 0,
            last_instruction_was_muldiv: bytes[81] != 0,
            stopped: bytes[82] != 0,
        };

        Some(
            M68000 {
                registers,
                halted: bytes[83] != 0,
                allow_tas_writes: true,
                name: String::new(),
            },
        )
    }
}

/// Law: a snapshot denotes exactly one architectural state, so
/// `load_state(save_state(cpu))` agrees with `cpu` on every register and
/// flag, and the restored CPU steps exactly as the saved one would have.
pub proof fn lemma_save_state_round_trip(bytes: Seq<u8>, a: M68000, b: M68000)
    requires
        state_rel(bytes, a),
        state_rel(bytes, b),
    ensures
        a.registers.data@ == b.registers.data@,
        a.registers.address@ == b.registers.address@,
        a.registers.usp == b.registers.usp,
        a.registers.ssp == b.registers.ssp,
        a.registers.pc == b.registers.pc,
        a.registers.prefetch == b.registers.prefetch,
        a.registers.ccr == b.registers.ccr,
        a.registers.interrupt_priority_mask == b.registers.interrupt_priority_mask,
        a.registers.pending_interrupt_level == b.registers.pending_interrupt_level,
        a.registers.supervisor_mode == b.registers.supervisor_mode,
        a.registers.trace_enabled == b.registers.trace_enabled,
        a.registers.address_error == b.registers.address_error,
        a.registers.last_instruction_was_muldiv == b.registers.last_instruction_was_muldiv,
        a.registers.stopped == b.registers.stopped,
        a.halted == b.halted,
{
    assert(a.registers.data@ =~= b.registers.data@);
    assert(a.registers.address@ =~= b.registers.address@);
}

} // verus!
