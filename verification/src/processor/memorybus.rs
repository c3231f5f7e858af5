//! The memory bus: 64 KiB of byte-addressed memory and the cursor from which
//! opcodes and their immediate operands are fetched in order.
//!
//! A read or write at a given address never moves the cursor. A "next"
//! fetch reads at the cursor and then moves it on by the width of what was
//! read. The cursor and every address computed from it wrap at 65536.

use vstd::prelude::*;
use crate::processor::instructions::END_OPCODE;
use crate::processor::registers::{combine, get_high_and_low, high_of, low_of, pair_of};

verus! {

/// Number of cells on the bus.
pub const MEMORY_SIZE: usize = 0x10000;

/// The byte that every cell of a new bus holds. It is the opcode that ends
/// a program, so that running off the end of a loaded image stops the
/// engine.
pub const FILL_BYTE: u8 = END_OPCODE;

/// What a memory bus holds: the cells by address, and the cursor.
pub struct BusView {
    pub cells: Seq<u8>,
    pub cursor: u16,
}

/// The address that follows `address`, wrapping from the last cell to the
/// first.
pub open spec fn next_address(address: int) -> int {
    (address + 1) % 0x10000
}

impl BusView {
    /// There is one cell for each 16-bit address.
    pub open spec fn wf(self) -> bool {
        self.cells.len() == 0x10000
    }

    /// The byte at `address`.
    pub open spec fn read(self, address: int) -> u8
        recommends
            0 <= address < 0x10000,
    {
        self.cells[address]
    }

    /// The little-endian word at `address`: the low byte comes first, the
    /// high byte at the address that follows.
    pub open spec fn read_word(self, address: int) -> u16
        recommends
            0 <= address < 0x10000,
    {
        pair_of(self.cells[next_address(address)], self.cells[address])
    }

    /// This bus after `value` is stored at `address`.
    pub open spec fn write(self, address: int, value: u8) -> BusView
        recommends
            0 <= address < 0x10000,
    {
        BusView { cells: self.cells.update(address, value), ..self }
    }

    /// This bus after the cursor has moved on by `width`.
    pub open spec fn advance(self, width: int) -> BusView {
        BusView { cursor: ((self.cursor + width) % 0x10000) as u16, ..self }
    }

    /// The byte under the cursor.
    pub open spec fn next_byte(self) -> u8 {
        self.read(self.cursor as int)
    }

    /// The little-endian word under the cursor.
    pub open spec fn next_word(self) -> u16 {
        self.read_word(self.cursor as int)
    }

    /// This bus after `value` is stored under the cursor with its high byte
    /// first. The cursor stays.
    pub open spec fn write_word(self, value: u16) -> BusView {
        self.write(self.cursor as int, high_of(value)).write(
            next_address(self.cursor as int),
            low_of(value),
        )
    }
}

/// The memory bus.
#[derive(Debug)]
pub struct MemoryBus {
    pub memory: [u8; MEMORY_SIZE],
    pub pc: u16,
}

impl View for MemoryBus {
    type V = BusView;

    open spec fn view(&self) -> BusView {
        BusView { cells: self.memory@, cursor: self.pc }
    }
}

impl MemoryBus {
    /// What a new bus holds: `FILL_BYTE` in every cell, and the cursor at
    /// address 0.
    pub open spec fn new_view() -> BusView {
        BusView { cells: Seq::new(0x10000, |address: int| FILL_BYTE), cursor: 0 }
    }

    /// A bus with the cursor at address 0 and `FILL_BYTE` in every cell.
    pub fn new() -> (bus: MemoryBus)
        ensures
            bus@ == MemoryBus::new_view(),
    {
        let bus = MemoryBus { memory: [FILL_BYTE; MEMORY_SIZE], pc: 0 };
        assert(bus@.cells =~= MemoryBus::new_view().cells);
        bus
    }

    /// Fetches the opcode under the cursor and moves the cursor past it.
    pub fn fetch_next_instruction(&mut self) -> (opcode: u8)
        ensures
            opcode == old(self)@.next_byte(),
            final(self)@ == old(self)@.advance(1),
    {
        self.fetch_next_byte()
    }

    fn move_pc_by(&mut self, to_add: u16)
        ensures
            final(self)@ == old(self)@.advance(to_add as int),
    {
        let value = self.pc;
        self.pc = value.wrapping_add(to_add);
    }

    /// Fetches the little-endian word under the cursor and moves the cursor
    /// past its two bytes.
    pub fn fetch_next_word(&mut self) -> (word: u16)
        ensures
            word == old(self)@.next_word(),
            final(self)@ == old(self)@.advance(2),
    {
        let word = self.fetch_word_at(self.pc as usize);
        self.move_pc_by(2);
        word
    }

    /// Reads the little-endian word at `position`. The cursor stays.
    pub fn fetch_word_at(&mut self, position: usize) -> (word: u16)
        requires
            position < MEMORY_SIZE,
        ensures
            word == old(self)@.read_word(position as int),
            *final(self) == *old(self),
    {
        let following = if position == MEMORY_SIZE - 1 {
            0
        } else {
            position + 1
        };
        let low = self.memory[position] as u16;
        let high = self.memory[following] as u16;
        combine(high, low)
    }

    /// Stores `value` under the cursor, high byte first. The cursor stays.
    pub fn set_word(&mut self, value: u16)
        ensures
            final(self)@ == old(self)@.write_word(value),
    {
        let (value_1, value_2) = get_high_and_low(value);
        let first = self.pc as usize;
        let second = self.pc.wrapping_add(1) as usize;
        self.memory[first] = value_1;
        self.memory[second] = value_2;
    }

    /// Reads the byte at `position`. The cursor stays.
    pub fn fetch_byte_at(&mut self, position: usize) -> (byte: u8)
        requires
            position < MEMORY_SIZE,
        ensures
            byte == old(self)@.read(position as int),
            *final(self) == *old(self),
    {
        self.memory[position]
    }

    /// Fetches the byte under the cursor and moves the cursor past it.
    pub fn fetch_next_byte(&mut self) -> (byte: u8)
        ensures
            byte == old(self)@.next_byte(),
            final(self)@ == old(self)@.advance(1),
    {
        let position = self.pc as usize;
        self.move_pc_by(1);
        self.memory[position]
    }

    /// Stores `value` at `position`. The cursor stays.
    pub fn set_byte(&mut self, value: u8, position: usize)
        requires
            position < MEMORY_SIZE,
        ensures
            final(self)@ == old(self)@.write(position as int, value),
    {
        self.memory[position] = value;
    }
}

/// A byte stored at an address is the byte read back from it. The store
/// moves the cursor nowhere and changes no other cell.
pub proof fn lemma_set_byte_then_fetch(bus: BusView, address: int, value: u8)
    requires
        bus.wf(),
        0 <= address < 0x10000,
    ensures
        bus.write(address, value).read(address) == value,
        bus.write(address, value).cursor == bus.cursor,
        bus.write(address, value).wf(),
        forall|other: int|
            0 <= other < 0x10000 && other != address ==> bus.write(address, value).read(other)
                == bus.read(other),
{
}

/// Moving the cursor changes no cell, and moving it by one and then by one
/// again is moving it by two.
pub proof fn lemma_advance(bus: BusView)
    ensures
        bus.advance(1).cells == bus.cells,
        bus.advance(2).cells == bus.cells,
        bus.advance(1).advance(1) == bus.advance(2),
        bus.advance(0) == bus,
{
}

/// A word fetched under the cursor is made of the two bytes that two byte
/// fetches would give, the low one first.
pub proof fn lemma_next_word_is_two_bytes(bus: BusView)
    ensures
        bus.next_word() == pair_of(bus.advance(1).next_byte(), bus.next_byte()),
{
}

/// The view of a memory bus loses nothing.
pub proof fn lemma_view_injective(x: MemoryBus, y: MemoryBus)
    requires
        x@ == y@,
    ensures
        x == y,
{
    assert(x.memory =~= y.memory);
}

} // verus!
