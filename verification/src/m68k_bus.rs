//! The 68000's view of the outside world: a bus of byte-addressed memory,
//! an interrupt level, and the reset and halt lines. The CPU core is generic
//! over this trait; `InMemoryBus` is a plain map-backed implementation.

use vstd::prelude::*;

use std::collections::HashMap;

verus! {

broadcast use vstd::std_specs::hash::group_hash_axioms;

/// The two bus words composed into a big-endian long word.
pub open spec fn spec_long(hi: u16, lo: u16) -> u32 {
    ((hi as u32) << 16) | (lo as u32)
}

/// What a 68000 bus provides: byte and big-endian word memory, long-word
/// access, the sampled interrupt level, and the reset and halt lines.
///
/// Reads leave the memory contents as they are; writes change exactly the
/// addressed bytes and words. The interrupt, reset and halt lines may move
/// underneath any call.
pub trait BusInterface: Sized {
    /// The byte the bus memory holds at `address`.
    spec fn byte_at(&self, address: u32) -> u8;

    /// The big-endian word the bus memory holds at `address`.
    spec fn word_at(&self, address: u32) -> u16;

    /// The interrupt level the bus presents.
    spec fn interrupt(&self) -> u8;

    /// Whether the reset line is asserted.
    spec fn resetting(&self) -> bool;

    /// Whether the halt line is asserted.
    spec fn halted(&self) -> bool;

    fn read_byte(&mut self, address: u32) -> (r: u8)
        ensures
            r == old(self).byte_at(address),
            forall|a: u32| #[trigger] final(self).byte_at(a) == old(self).byte_at(a),
            forall|a: u32| #[trigger] final(self).word_at(a) == old(self).word_at(a),
    ;

    fn read_word(&mut self, address: u32) -> (r: u16)
        requires
            address % 2 == 0,
        ensures
            r == old(self).word_at(address),
            forall|a: u32| #[trigger] final(self).byte_at(a) == old(self).byte_at(a),
            forall|a: u32| #[trigger] final(self).word_at(a) == old(self).word_at(a),
    ;

    fn read_long_word(&mut self, address: u32) -> (r: u32)
        requires
            address % 2 == 0,
        ensures
            r == spec_long(
                old(self).word_at(address),
                old(self).word_at(address.wrapping_add(2)),
            ),
            forall|a: u32| #[trigger] final(self).byte_at(a) == old(self).byte_at(a),
            forall|a: u32| #[trigger] final(self).word_at(a) == old(self).word_at(a),
    ;

    fn write_byte(&mut self, address: u32, value: u8)
        ensures
            final(self).byte_at(address) == value,
            forall|a: u32|
                a != address ==> #[trigger] final(self).byte_at(a) == old(self).byte_at(a),
            forall|a: u32|
                a % 2 == 0 && a != address & 0xFFFF_FFFE
                    ==> #[trigger] final(self).word_at(a) == old(self).word_at(a),
    ;

    fn write_word(&mut self, address: u32, value: u16)
        requires
            address % 2 == 0,
        ensures
            final(self).word_at(address) == value,
            forall|a: u32|
                a != address && a != address.wrapping_add(1)
                    ==> #[trigger] final(self).byte_at(a) == old(self).byte_at(a),
            forall|a: u32|
                a % 2 == 0 && a != address
                    ==> #[trigger] final(self).word_at(a) == old(self).word_at(a),
    ;

    fn write_long_word(&mut self, address: u32, value: u32)
        requires
            address % 2 == 0,
        ensures
            final(self).word_at(address) == (value >> 16) as u16,
            final(self).word_at(address.wrapping_add(2)) == value as u16,
            forall|a: u32|
                a != address && a != address.wrapping_add(1) && a != address.wrapping_add(2)
                    && a != address.wrapping_add(3)
                    ==> #[trigger] final(self).byte_at(a) == old(self).byte_at(a),
            forall|a: u32|
                a % 2 == 0 && a != address && a != address.wrapping_add(2)
                    ==> #[trigger] final(self).word_at(a) == old(self).word_at(a),
    ;

    fn interrupt_level(&self) -> (r: u8)
        ensures
            r == self.interrupt(),
    ;

    fn acknowledge_interrupt(&mut self, interrupt_level: u8)
        ensures
            forall|a: u32| #[trigger] final(self).byte_at(a) == old(self).byte_at(a),
            forall|a: u32| #[trigger] final(self).word_at(a) == old(self).word_at(a),
    ;

    fn reset(&self) -> (r: bool)
        ensures
            r == self.resetting(),
    ;

    fn halt(&self) -> (r: bool)
        ensures
            r == self.halted(),
    ;
}

/// Memory contents of `b2` agree with `b1` everywhere.
pub open spec fn mem_preserved<B: BusInterface>(b1: B, b2: B) -> bool {
    &&& forall|a: u32| #[trigger] b2.byte_at(a) == b1.byte_at(a)
    &&& forall|a: u32| #[trigger] b2.word_at(a) == b1.word_at(a)
}

/// Bytes of `b2` agree with `b1` outside the set `s`.
pub open spec fn bytes_preserved_except<B: BusInterface>(b1: B, b2: B, s: Set<u32>) -> bool {
    forall|a: u32| !s.contains(a) ==> #[trigger] b2.byte_at(a) == b1.byte_at(a)
}

/// Even-address words of `b2` agree with `b1` outside the set `s`.
pub open spec fn words_preserved_except<B: BusInterface>(b1: B, b2: B, s: Set<u32>) -> bool {
    forall|a: u32| a % 2 == 0 && !s.contains(a) ==> #[trigger] b2.word_at(a) == b1.word_at(a)
}

/// A flat bus: sparse byte memory with open-bus `0xFF` for unmapped
/// addresses, plus directly settable interrupt, reset and halt lines.
#[derive(Debug)]
pub struct InMemoryBus {
    pub mem: HashMap<u32, u8>,
    pub interrupt_line: u8,
    pub reset_line: bool,
    pub halt_line: bool,
}

impl InMemoryBus {
    /// An empty bus: all memory reads as `0xFF`, no interrupt pending, the
    /// reset and halt lines released.
    pub fn new() -> (r: InMemoryBus)
        ensures
            forall|a: u32| r.byte_at(a) == 0xFFu8,
            forall|a: u32| r.word_at(a) == 0xFFFFu16,
            r.interrupt() == 0,
            !r.resetting(),
            !r.halted(),
    {
        let r = InMemoryBus {
            mem: HashMap::new(),
            interrupt_line: 0,
            reset_line: false,
            halt_line: false,
        };
        proof {
            assert(forall|a: u32| !r.mem@.contains_key(a));
            assert(forall|a: u32| r.word_at(a) == 0xFFFFu16) by {
                assert(((0xFFu8 as u16) << 8) | (0xFFu8 as u16) == 0xFFFFu16) by (bit_vector);
            }
        }
        r
    }

    /// Drives the interrupt line.
    pub fn set_interrupt_level(&mut self, level: u8)
        ensures
            *final(self) == (InMemoryBus { interrupt_line: level, ..*old(self) }),
    {
        self.interrupt_line = level;
    }

    /// Asserts or releases the reset line.
    pub fn set_reset(&mut self, asserted: bool)
        ensures
            *final(self) == (InMemoryBus { reset_line: asserted, ..*old(self) }),
    {
        self.reset_line = asserted;
    }

    /// Asserts or releases the halt line.
    pub fn set_halt(&mut self, asserted: bool)
        ensures
            *final(self) == (InMemoryBus { halt_line: asserted, ..*old(self) }),
    {
        self.halt_line = asserted;
    }
}

proof fn lemma_word_split(value: u16)
    by (bit_vector)
    ensures
        ((((value >> 8) as u8) as u16) << 8) | (((value as u8)) as u16) == value,
{
}

impl BusInterface for InMemoryBus {
    open spec fn byte_at(&self, address: u32) -> u8 {
        if self.mem@.contains_key(address) {
            self.mem@[address]
        } else {
            0xFFu8
        }
    }

    open spec fn word_at(&self, address: u32) -> u16 {
        ((self.byte_at(address) as u16) << 8) | (self.byte_at(address.wrapping_add(1)) as u16)
    }

    open spec fn interrupt(&self) -> u8 {
        self.interrupt_line
    }

    open spec fn resetting(&self) -> bool {
        self.reset_line
    }

    open spec fn halted(&self) -> bool {
        self.halt_line
    }

    fn read_byte(&mut self, address: u32) -> (r: u8) {
        match self.mem.get(&address) {
            Some(b) => *b,
            None => 0xFF,
        }
    }

    fn read_word(&mut self, address: u32) -> (r: u16) {
        let hi = self.read_byte(address);
        let lo = self.read_byte(address.wrapping_add(1));
        ((hi as u16) << 8) | (lo as u16)
    }

    fn read_long_word(&mut self, address: u32) -> (r: u32) {
        let hi = self.read_word(address);
        let lo = self.read_word(address.wrapping_add(2));
        ((hi as u32) << 16) | (lo as u32)
    }

    fn write_byte(&mut self, address: u32, value: u8) {
        let ghost pre = *self;
        self.mem.insert(address, value);
        proof {
            assert forall|a: u32| a % 2 == 0 && a != address & 0xFFFF_FFFE
                implies #[trigger] self.word_at(a) == pre.word_at(a) by {
                assert(a != address && a + 1 != address) by (bit_vector)
                    requires
                        a % 2 == 0,
                        a != address & 0xFFFF_FFFE,
                ;
            }
        }
    }

    fn write_word(&mut self, address: u32, value: u16) {
        let ghost pre = *self;
        self.write_byte(address, (value >> 8) as u8);
        let ghost mid = *self;
        self.write_byte(address.wrapping_add(1), value as u8);
        proof {
            lemma_word_split(value);
            assert(address < 0xFFFF_FFFF) by (bit_vector)
                requires
                    address % 2 == 0,
            ;
            assert(address.wrapping_add(1) == address + 1);
            assert forall|a: u32| a % 2 == 0 && a != address
                implies #[trigger] self.word_at(a) == pre.word_at(a) by {
                assert(a != address && a + 1 != address && a != address + 1
                    && a + 1 != address + 1) by (bit_vector)
                    requires
                        a % 2 == 0,
                        address % 2 == 0,
                        a < 0xFFFF_FFFF,
                        a != address,
                ;
                assert(a.wrapping_add(1) == a + 1);
                assert(self.byte_at(a) == mid.byte_at(a) && mid.byte_at(a) == pre.byte_at(a));
            }
        }
    }

    fn write_long_word(&mut self, address: u32, value: u32) {
        let ghost pre = *self;
        proof {
            assert(address.wrapping_add(2) % 2 == 0 && address.wrapping_add(2) != address);
        }
        self.write_word(address, (value >> 16) as u16);
        self.write_word(address.wrapping_add(2), value as u16);
        proof {
            assert(address.wrapping_add(2).wrapping_add(1) == address.wrapping_add(3));
        }
    }

    fn interrupt_level(&self) -> (r: u8) {
        self.interrupt_line
    }

    fn acknowledge_interrupt(&mut self, _interrupt_level: u8) {
    }

    fn reset(&self) -> (r: bool) {
        self.reset_line
    }

    fn halt(&self) -> (r: bool) {
        self.halt_line
    }
}

} // verus!
