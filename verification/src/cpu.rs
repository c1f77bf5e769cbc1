//! Processor state and the operand resolver: where each addressing mode finds
//! its operand, and how reading or writing through a mode moves the program
//! counter.

use crate::addressing_modes::{AddressingMode, OperandKind};
use crate::memory::{Memory, MEMORY_SIZE};
use vstd::pervasive::unreached;
use vstd::prelude::*;

verus! {

/// The register file.
#[derive(Clone, Copy, Debug, PartialEq, Eq, Structural)]
pub struct Registers {
    /// Accumulator.
    pub a: u8,
    /// Index register `X`.
    pub x: u8,
    /// Index register `Y`.
    pub y: u8,
    /// Program counter.
    pub pc: u16,
    /// Stack pointer.
    pub s: u8,
    /// Status flags.
    pub p: u8,
}

impl Registers {
    /// The registers as they stand after reset.
    pub open spec fn reset() -> Registers {
        Registers { a: 0, x: 0, y: 0, pc: 0xC000, s: 0xFD, p: 0x24 }
    }
}

impl Default for Registers {
    fn default() -> (regs: Registers)
        ensures
            regs == Registers::reset(),
    {
        Registers { a: 0, x: 0, y: 0, pc: 0xc000, s: 0xfd, p: 0x24 }
    }
}

/// The 16-bit value whose low byte is `lo` and whose high byte is `hi`.
pub open spec fn make_word(lo: u8, hi: u8) -> u16 {
    (hi * 256 + lo) as u16
}

/// The high byte of a word stands above its low byte: the word is the high
/// byte shifted left by eight bits, combined with the low byte, and gives
/// both bytes back.
pub proof fn word_is_high_byte_over_low_byte(lo: u8, hi: u8)
    ensures
        make_word(lo, hi) == ((hi as u16) << 8) | (lo as u16),
        make_word(lo, hi) & 0xFF == lo,
        make_word(lo, hi) >> 8 == hi,
{
    let word = make_word(lo, hi);
    assert(word == (hi as u16) * 256 + (lo as u16));
    assert(word == ((hi as u16) << 8) | (lo as u16) && word & 0xFF == lo && word >> 8 == hi)
        by (bit_vector)
        requires
            word == (hi as u16) * 256 + (lo as u16),
    ;
}

/// `base + index`, wrapped within the zero page.
pub open spec fn zero_page_index(base: u8, index: u8) -> u8 {
    ((base + index) % 0x100) as u8
}

/// `base + index`, wrapped within the 16-bit address space.
pub open spec fn offset(base: u16, index: int) -> u16 {
    ((base + index) % 0x10000) as u16
}

/// The processor state as a mathematical value: the contents of memory, one
/// byte for each 16-bit address, and the registers.
#[verifier::ext_equal]
pub struct ProcessorState {
    pub mem: Seq<u8>,
    pub regs: Registers,
}

impl ProcessorState {
    /// The byte at an address.
    pub open spec fn byte(self, addr: u16) -> u8 {
        self.mem[addr as int]
    }

    /// The little-endian word whose low byte is at `addr`; the high byte is
    /// at the next address of the 16-bit address space.
    pub open spec fn word(self, addr: u16) -> u16 {
        make_word(self.byte(addr), self.byte(offset(addr, 1)))
    }

    /// The little-endian word whose low byte is at `ptr` in the zero page; the
    /// high byte is at the next address of the zero page.
    pub open spec fn zero_page_word(self, ptr: u8) -> u16 {
        make_word(self.byte(ptr as u16), self.byte(zero_page_index(ptr, 1) as u16))
    }

    /// The address of the byte that the mode designates, for the modes that
    /// designate a byte of memory. The operand bytes are those at the program
    /// counter.
    pub open spec fn effective_address(self, am: AddressingMode) -> Option<u16> {
        let pc = self.regs.pc;
        let operand = self.byte(pc);
        match am {
            AddressingMode::Immediate => Some(pc),
            AddressingMode::ZeroPage => Some(operand as u16),
            AddressingMode::ZeroPageX => Some(zero_page_index(operand, self.regs.x) as u16),
            AddressingMode::ZeroPageY => Some(zero_page_index(operand, self.regs.y) as u16),
            AddressingMode::Absolute => Some(self.word(pc)),
            AddressingMode::AbsoluteX => Some(offset(self.word(pc), self.regs.x as int)),
            AddressingMode::AbsoluteY => Some(offset(self.word(pc), self.regs.y as int)),
            AddressingMode::IndirectX => Some(
                self.zero_page_word(zero_page_index(operand, self.regs.x)),
            ),
            AddressingMode::IndirectY => Some(
                offset(self.zero_page_word(operand), self.regs.y as int),
            ),
            AddressingMode::Implicit
            | AddressingMode::Accumulator
            | AddressingMode::Relative
            | AddressingMode::Indirect => None,
        }
    }

    /// The value that a read through the mode yields: the designated byte of
    /// memory, the accumulator, or 0 where the mode designates nothing.
    pub open spec fn operand(self, am: AddressingMode) -> u8 {
        match self.effective_address(am) {
            Some(addr) => self.byte(addr),
            None => if am == AddressingMode::Accumulator {
                self.regs.a
            } else {
                0
            },
        }
    }

    /// The state with the program counter moved past the operand bytes of
    /// the mode.
    pub open spec fn advance(self, am: AddressingMode) -> ProcessorState {
        ProcessorState {
            regs: Registers { pc: offset(self.regs.pc, am.operand_len() as int), ..self.regs },
            ..self
        }
    }

    /// The state with one byte of memory replaced.
    pub open spec fn with_byte(self, addr: u16, value: u8) -> ProcessorState {
        ProcessorState { mem: self.mem.update(addr as int, value), ..self }
    }

    /// The state with `data` put where the mode designates: in the accumulator,
    /// or in memory at the effective address. Nothing changes where the mode
    /// designates nothing or an immediate operand.
    pub open spec fn with_operand(self, am: AddressingMode, data: u8) -> ProcessorState {
        if am == AddressingMode::Accumulator {
            ProcessorState { regs: Registers { a: data, ..self.regs }, ..self }
        } else if am.is_store_target() {
            self.with_byte(self.effective_address(am).unwrap(), data)
        } else {
            self
        }
    }

    /// The state after a read through the mode.
    pub open spec fn after_load(self, am: AddressingMode) -> ProcessorState {
        self.advance(am)
    }

    /// The state after `data` was written through the mode.
    pub open spec fn after_store(self, am: AddressingMode, data: u8) -> ProcessorState {
        self.with_operand(am, data).advance(am)
    }
}

/// A mode has an effective address exactly where it designates a byte of
/// memory.
pub proof fn effective_address_exists(state: ProcessorState, am: AddressingMode)
    ensures
        state.effective_address(am) is Some <==> am.operand_kind() == OperandKind::Memory,
{
}

/// A read and a write through one mode move the program counter alike: past
/// the operand bytes of the mode, with 16-bit wraparound, whatever the
/// registers and the memory hold.
pub proof fn resolution_consumes_operand_bytes(
    reading: ProcessorState,
    writing: ProcessorState,
    am: AddressingMode,
    data: u8,
)
    requires
        reading.regs.pc == writing.regs.pc,
    ensures
        reading.after_load(am).regs.pc == writing.after_store(am, data).regs.pc,
        reading.after_load(am).regs.pc == (reading.regs.pc + am.operand_len()) % 0x10000,
        am.operand_len() <= 2,
{
}

/// A read changes nothing but the program counter.
pub proof fn load_preserves_state(state: ProcessorState, am: AddressingMode)
    ensures
        state.after_load(am).mem == state.mem,
        state.after_load(am).regs == (Registers {
            pc: state.after_load(am).regs.pc,
            ..state.regs
        }),
{
}

/// A write changes at most the program counter and the place that the mode
/// designates: the accumulator, or the byte at the effective address.
pub proof fn store_changes_operand_only(state: ProcessorState, am: AddressingMode, data: u8)
    requires
        state.mem.len() == MEMORY_SIZE,
    ensures
        state.after_store(am, data).mem.len() == MEMORY_SIZE,
        forall|addr: u16|
            #![trigger state.after_store(am, data).byte(addr)]
            state.after_store(am, data).byte(addr) == if am.is_store_target()
                && state.effective_address(am) == Some(addr) {
                data
            } else {
                state.byte(addr)
            },
        state.after_store(am, data).regs == (Registers {
            a: if am == AddressingMode::Accumulator {
                data
            } else {
                state.regs.a
            },
            pc: state.after_load(am).regs.pc,
            ..state.regs
        }),
{
}

/// The zero-page modes never leave the zero page: indexing wraps within the
/// first 256 bytes.
pub proof fn zero_page_modes_stay_in_page(state: ProcessorState, am: AddressingMode)
    requires
        am.is_zero_page(),
    ensures
        state.effective_address(am) matches Some(addr) && addr < 0x100,
{
}

/// The processor: its registers and the memory it addresses.
pub struct Cpu {
    /// The memory.
    pub mem: Memory,
    /// The register file.
    pub regs: Registers,
}

impl View for Cpu {
    type V = ProcessorState;

    open spec fn view(&self) -> ProcessorState {
        ProcessorState { mem: self.mem@, regs: self.regs }
    }
}

impl Cpu {
    /// A processor in its reset state, with memory cleared.
    pub fn new() -> (cpu: Cpu)
        ensures
            cpu@.regs == Registers::reset(),
            cpu@.mem == Seq::new(MEMORY_SIZE as nat, |addr: int| 0u8),
    {
        Cpu { mem: Memory::new(), regs: Registers::default() }
    }

    /// Assembles the word whose low byte is at `addr` and whose high byte is
    /// at the next address of the 16-bit address space.
    fn word_at(&self, addr: u16) -> (word: u16)
        ensures
            word == self@.word(addr),
    {
        let lo = self.mem.read(addr);
        let hi = self.mem.read(index_address(addr, 1));
        join(lo, hi)
    }

    /// Assembles the word whose low byte is at `ptr` in the zero page and
    /// whose high byte is at the next address of the zero page.
    fn zero_page_word_at(&self, ptr: u8) -> (word: u16)
        ensures
            word == self@.zero_page_word(ptr),
    {
        let lo = self.mem.read(ptr as u16);
        let hi = self.mem.read(index_zero_page(ptr, 1) as u16);
        join(lo, hi)
    }

    /// Computes the address of the byte of memory that the mode designates,
    /// from the operand bytes at the program counter. The state is left as it
    /// is. The mode must designate a byte of memory.
    pub fn effective_address(&self, am: AddressingMode) -> (addr: u16)
        requires
            am.operand_kind() == OperandKind::Memory,
        ensures
            self@.effective_address(am) == Some(addr),
    {
        let pc = self.regs.pc;
        match am {
            AddressingMode::Immediate => pc,
            AddressingMode::ZeroPage => self.mem.read(pc) as u16,
            AddressingMode::ZeroPageX => index_zero_page(self.mem.read(pc), self.regs.x) as u16,
            AddressingMode::ZeroPageY => index_zero_page(self.mem.read(pc), self.regs.y) as u16,
            AddressingMode::Absolute => self.word_at(pc),
            AddressingMode::AbsoluteX => index_address(self.word_at(pc), self.regs.x),
            AddressingMode::AbsoluteY => index_address(self.word_at(pc), self.regs.y),
            AddressingMode::IndirectX => {
                let ptr = index_zero_page(self.mem.read(pc), self.regs.x);
                self.zero_page_word_at(ptr)
            },
            AddressingMode::IndirectY => {
                let ptr = self.mem.read(pc);
                index_address(self.zero_page_word_at(ptr), self.regs.y)
            },
            AddressingMode::Implicit
            | AddressingMode::Accumulator
            | AddressingMode::Relative
            | AddressingMode::Indirect => unreached(),
        }
    }

    /// Reads the operand that the mode designates and moves the program
    /// counter past the operand bytes of the mode.
    pub fn load(&mut self, am: AddressingMode) -> (value: u8)
        ensures
            value == old(self)@.operand(am),
            final(self)@ == old(self)@.after_load(am),
    {
        let value = match am.operand_kind() {
            OperandKind::Absent => 0,
            OperandKind::Accumulator => self.regs.a,
            OperandKind::Memory => {
                let addr = self.effective_address(am);
                self.mem.read(addr)
            },
        };
        self.regs.pc = index_address(self.regs.pc, am.operand_len());
        value
    }

    /// Writes `data` where the mode designates and moves the program counter
    /// past the operand bytes of the mode, as a read through the mode does.
    pub fn store(&mut self, am: AddressingMode, data: u8)
        ensures
            final(self)@ == old(self)@.after_store(am, data),
    {
        match am {
            AddressingMode::Implicit
            | AddressingMode::Immediate
            | AddressingMode::Relative
            | AddressingMode::Indirect => {},
            AddressingMode::Accumulator => {
                self.regs.a = data;
            },
            _ => {
                let addr = self.effective_address(am);
                self.mem.write(addr, data);
            },
        }
        self.regs.pc = index_address(self.regs.pc, am.operand_len());
    }
}

/// Adds an index to a zero-page address; a carry out of the page is dropped.
fn index_zero_page(base: u8, index: u8) -> (addr: u8)
    ensures
        addr == zero_page_index(base, index),
{
    base.wrapping_add(index)
}

/// Adds an index to an address; a carry out of the 16 bits is dropped.
fn index_address(base: u16, index: u8) -> (addr: u16)
    ensures
        addr == offset(base, index as int),
{
    base.wrapping_add(index as u16)
}

/// Combines two bytes into a word.
fn join(lo: u8, hi: u8) -> (word: u16)
    ensures
        word == make_word(lo, hi),
{
    proof {
        word_is_high_byte_over_low_byte(lo, hi);
    }
    ((hi as u16) << 8) | (lo as u16)
}

} // verus!
