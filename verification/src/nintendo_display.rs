use vstd::prelude::*;

use crate::constants::{TILE_DATA_START, TILE_MAP_AREA_0_START};
use crate::cpu::Cpu;
use crate::cpu_components::MemoryBus;
use crate::registers_constants::{BGP, LCDC};

verus! {

broadcast use MemoryBus::lemma_view_len, MemoryBus::lemma_spec_write;

/// `memory` with `bytes` stored from address `start` on.
pub open spec fn with_bytes(memory: Seq<u8>, start: int, bytes: Seq<u8>) -> Seq<u8> {
    Seq::new(
        memory.len(),
        |i: int|
            if start <= i < start + bytes.len() {
                bytes[i - start]
            } else {
                memory[i]
            },
    )
}

/// The 8x8 letter N, 2 bytes per row (the high-bit plane is empty).
pub open spec fn tile_n() -> Seq<u8> {
    seq![0xFFu8, 0, 0xC3, 0, 0xC7, 0, 0xCF, 0, 0xDB, 0, 0xF3, 0, 0xE3, 0, 0xC3, 0]
}

/// The 8x8 letter I.
pub open spec fn tile_i() -> Seq<u8> {
    seq![0xFFu8, 0, 0x18, 0, 0x18, 0, 0x18, 0, 0x18, 0, 0x18, 0, 0x18, 0, 0xFF, 0]
}

/// The 8x8 letter T.
pub open spec fn tile_t() -> Seq<u8> {
    seq![0xFFu8, 0, 0x18, 0, 0x18, 0, 0x18, 0, 0x18, 0, 0x18, 0, 0x18, 0, 0x18, 0]
}

/// The 8x8 letter E.
pub open spec fn tile_e() -> Seq<u8> {
    seq![0xFFu8, 0, 0xC0, 0, 0xC0, 0, 0xFE, 0, 0xC0, 0, 0xC0, 0, 0xC0, 0, 0xFF, 0]
}

/// The 8x8 letter D.
pub open spec fn tile_d() -> Seq<u8> {
    seq![0xFCu8, 0, 0xC6, 0, 0xC3, 0, 0xC3, 0, 0xC3, 0, 0xC3, 0, 0xC6, 0, 0xFC, 0]
}

/// The 8x8 letter O.
pub open spec fn tile_o() -> Seq<u8> {
    seq![0x7Eu8, 0, 0xC3, 0, 0xC3, 0, 0xC3, 0, 0xC3, 0, 0xC3, 0, 0xC3, 0, 0x7E, 0]
}

/// The tile numbers that spell NINTENDO: N is tile 0, I 1, T 3, E 4, D 6, O 7.
pub open spec fn nintendo_tile_numbers() -> Seq<u8> {
    seq![0u8, 1, 0, 3, 4, 0, 6, 7]
}

/// Where the word starts in the background map at $9800: row 8, column 6.
pub open spec fn nintendo_map_start() -> int {
    TILE_MAP_AREA_0_START + 8 * 32 + 6
}

/// The memory after `setup_nintendo_display`: LCDC = 0x91, BGP = 0xE4, the letters N, I, T,
/// E, D, O as tiles 0, 1, 3, 4, 6, 7 and the word NINTENDO in row 8 of the background map.
pub open spec fn spec_nintendo_display(memory: Seq<u8>) -> Seq<u8> {
    let m = memory.update(LCDC as int, 0x91u8).update(BGP as int, 0xE4u8);
    let m = with_bytes(m, TILE_DATA_START as int, tile_n());
    let m = with_bytes(m, TILE_DATA_START + 16, tile_i());
    let m = with_bytes(m, TILE_DATA_START + 48, tile_t());
    let m = with_bytes(m, TILE_DATA_START + 64, tile_e());
    let m = with_bytes(m, TILE_DATA_START + 96, tile_d());
    let m = with_bytes(m, TILE_DATA_START + 112, tile_o());
    with_bytes(m, nintendo_map_start(), nintendo_tile_numbers())
}

/// Stores `bytes` from address `start` on.
fn write_bytes(memory_bus: &mut MemoryBus, start: u16, bytes: &[u8])
    requires
        start + bytes.len() <= 0x10000,
    ensures
        final(memory_bus)@ == with_bytes(old(memory_bus)@, start as int, bytes@),
{
    let mut i: usize = 0;
    while i < bytes.len()
        invariant
            i <= bytes.len(),
            start + bytes.len() <= 0x10000,
            memory_bus@ == with_bytes(old(memory_bus)@, start as int, bytes@.subrange(0, i as int)),
        decreases bytes.len() - i,
    {
        memory_bus.write_byte(start + i as u16, bytes[i]);
        i = i + 1;
        assert(memory_bus@ =~= with_bytes(
            old(memory_bus)@,
            start as int,
            bytes@.subrange(0, i as int),
        ));
    }
    assert(bytes@.subrange(0, i as int) =~= bytes@);
}

/// Writes to memory a background that shows the word NINTENDO: enables the LCD and the
/// background (LCDC = 0x91), sets the palette BGP = 0xE4, loads the letter tiles and writes
/// their numbers into row 8 of the background map from column 6 on.
pub fn setup_nintendo_display(cpu: &mut Cpu)
    ensures
        *final(cpu) == (Cpu { memory_bus: final(cpu).memory_bus, ..*old(cpu) }),
        final(cpu).memory_bus@ == spec_nintendo_display(old(cpu).memory_bus@),
{
    cpu.memory_bus.write_byte(LCDC, 0x91);
    cpu.memory_bus.write_byte(BGP, 0xE4);

    let letter_n: [u8; 16] = [0xFF, 0, 0xC3, 0, 0xC7, 0, 0xCF, 0, 0xDB, 0, 0xF3, 0, 0xE3, 0, 0xC3, 0];
    let letter_i: [u8; 16] = [0xFF, 0, 0x18, 0, 0x18, 0, 0x18, 0, 0x18, 0, 0x18, 0, 0x18, 0, 0xFF, 0];
    let letter_t: [u8; 16] = [0xFF, 0, 0x18, 0, 0x18, 0, 0x18, 0, 0x18, 0, 0x18, 0, 0x18, 0, 0x18, 0];
    let letter_e: [u8; 16] = [0xFF, 0, 0xC0, 0, 0xC0, 0, 0xFE, 0, 0xC0, 0, 0xC0, 0, 0xC0, 0, 0xFF, 0];
    let letter_d: [u8; 16] = [0xFC, 0, 0xC6, 0, 0xC3, 0, 0xC3, 0, 0xC3, 0, 0xC3, 0, 0xC6, 0, 0xFC, 0];
    let letter_o: [u8; 16] = [0x7E, 0, 0xC3, 0, 0xC3, 0, 0xC3, 0, 0xC3, 0, 0xC3, 0, 0xC3, 0, 0x7E, 0];

    // Tile 0: N, tile 1: I, tile 3: T, tile 4: E, tile 6: D, tile 7: O.
    write_bytes(&mut cpu.memory_bus, TILE_DATA_START, &letter_n);
    write_bytes(&mut cpu.memory_bus, TILE_DATA_START + 16, &letter_i);
    write_bytes(&mut cpu.memory_bus, TILE_DATA_START + 48, &letter_t);
    write_bytes(&mut cpu.memory_bus, TILE_DATA_START + 64, &letter_e);
    write_bytes(&mut cpu.memory_bus, TILE_DATA_START + 96, &letter_d);
    write_bytes(&mut cpu.memory_bus, TILE_DATA_START + 112, &letter_o);

    // NINTENDO in row 8 of the background map, from column 6 on.
    let start_pos = TILE_MAP_AREA_0_START + (8 * 32) + 6;
    let word: [u8; 8] = [0, 1, 0, 3, 4, 0, 6, 7];
    write_bytes(&mut cpu.memory_bus, start_pos, &word);
    proof {
        assert(letter_n@ =~= tile_n());
        assert(letter_i@ =~= tile_i());
        assert(letter_t@ =~= tile_t());
        assert(letter_e@ =~= tile_e());
        assert(letter_d@ =~= tile_d());
        assert(letter_o@ =~= tile_o());
        assert(word@ =~= nintendo_tile_numbers());
    }
}

} // verus!
