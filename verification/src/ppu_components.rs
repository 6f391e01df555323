use vstd::prelude::*;

use crate::bits::{lemma_bit_tests, lemma_low_bit_tests};
use crate::constants::{
    BG_WINDOW_DATA_AREA_0_END, BG_WINDOW_DATA_AREA_0_START, BG_WINDOW_DATA_AREA_1_END,
    BG_WINDOW_DATA_AREA_1_START, TILE_MAP_AREA_0_END, TILE_MAP_AREA_0_START, TILE_MAP_AREA_1_END,
    TILE_MAP_AREA_1_START,
};
use crate::cpu_components::MemoryBus;
use crate::registers_constants::LCDC;

verus! {

/// The colour index (0-3) of one pixel of a tile.
#[derive(Clone, Copy, Debug, PartialEq, Eq, Structural)]
pub enum TilePixelValue {
    Zero,
    One,
    Two,
    Three,
}

/// An 8x8 tile; each pixel holds a colour index.
#[derive(Clone, Copy, Debug)]
pub struct Tile {
    pub pixels: [[TilePixelValue; 8]; 8],
}

impl TilePixelValue {
    /// The colour index as a number 0-3.
    pub open spec fn spec_index(self) -> u8 {
        match self {
            TilePixelValue::Zero => 0,
            TilePixelValue::One => 1,
            TilePixelValue::Two => 2,
            TilePixelValue::Three => 3,
        }
    }

    /// The pixel value of a colour index; indices above 3 give `Three`.
    pub open spec fn spec_from_index(index: u8) -> TilePixelValue {
        if index == 0 {
            TilePixelValue::Zero
        } else if index == 1 {
            TilePixelValue::One
        } else if index == 2 {
            TilePixelValue::Two
        } else {
            TilePixelValue::Three
        }
    }

    /// The colour index as a number 0-3.
    pub fn to_index(&self) -> (i: u8)
        ensures
            i == self.spec_index(),
            i < 4,
    {
        match self {
            TilePixelValue::Zero => 0,
            TilePixelValue::One => 1,
            TilePixelValue::Two => 2,
            TilePixelValue::Three => 3,
        }
    }

    /// The pixel value of a colour index; indices above 3 give `Three`.
    pub fn from_index(index: u8) -> (p: TilePixelValue)
        ensures
            p == Self::spec_from_index(index),
    {
        if index == 0 {
            TilePixelValue::Zero
        } else if index == 1 {
            TilePixelValue::One
        } else if index == 2 {
            TilePixelValue::Two
        } else {
            TilePixelValue::Three
        }
    }
}

impl Tile {
    /// A tile whose 64 pixels all have colour index 0.
    pub fn new() -> (t: Self)
        ensures
            forall|r: int, c: int|
                0 <= r < 8 && 0 <= c < 8 ==> t.pixels@[r]@[c] == TilePixelValue::Zero,
    {
        broadcast use vstd::array::group_array_axioms;

        Self { pixels: [[TilePixelValue::Zero;8];8] }
    }
}

/// The LCD Control register, one field per bit.
pub struct LcdcRegister {
    /// Bit 7: whether the LCD is on and the PPU is active.
    pub lcd_ppu_enabled: bool,
    /// Bit 6: which tile map the Window uses: $9800 (false) or $9C00 (true).
    pub window_tile_map_area: bool,
    /// Bit 5: whether the window is displayed.
    pub window_enable: bool,
    /// Bit 4: which addressing mode the BG and Window use to pick tiles.
    pub bg_window_tiles: bool,
    /// Bit 3: which tile map the BG uses: $9800-$9BFF (false) or $9C00-$9FFF (true).
    pub bg_tile_map_area: bool,
    /// Bit 2: the size of all objects (1 tile or 2 stacked vertically).
    pub obj_size: bool,
    /// Bit 1: whether objects are displayed.
    pub obj_enable: bool,
    /// Bit 0: when cleared, both background and window become blank (white).
    pub bg_window_enable: bool,
}

impl LcdcRegister {
    /// The LCDC fields encoded by a byte, bit 7 first.
    pub open spec fn spec_from_byte(v: u8) -> LcdcRegister {
        LcdcRegister {
            lcd_ppu_enabled: v >= 128,
            window_tile_map_area: (v / 64) % 2 == 1,
            window_enable: (v / 32) % 2 == 1,
            bg_window_tiles: (v / 16) % 2 == 1,
            bg_tile_map_area: (v / 8) % 2 == 1,
            obj_size: (v / 4) % 2 == 1,
            obj_enable: (v / 2) % 2 == 1,
            bg_window_enable: v % 2 == 1,
        }
    }

    /// First address of the BG tile map selected by bit 3.
    pub open spec fn spec_bg_tile_map_start(self) -> u16 {
        if self.bg_tile_map_area {
            TILE_MAP_AREA_1_START
        } else {
            TILE_MAP_AREA_0_START
        }
    }

    /// Reads the LCDC register from memory and splits it into its flags.
    pub fn get_lcdc_register(memory_bus: &MemoryBus) -> (r: Self)
        ensures
            r == Self::spec_from_byte(memory_bus.spec_read(LCDC)),
    {
        let lcdc_value = memory_bus.get_lcdc_register();
        proof {
            lemma_bit_tests(lcdc_value);
            lemma_low_bit_tests(lcdc_value);
        }
        Self {
            lcd_ppu_enabled: (lcdc_value & 0b1000_0000) != 0,
            window_tile_map_area: (lcdc_value & 0b0100_0000) != 0,
            window_enable: (lcdc_value & 0b0010_0000) != 0,
            bg_window_tiles: (lcdc_value & 0b0001_0000) != 0,
            bg_tile_map_area: (lcdc_value & 0b0000_1000) != 0,
            obj_size: (lcdc_value & 0b0000_0100) != 0,
            obj_enable: (lcdc_value & 0b0000_0010) != 0,
            bg_window_enable: (lcdc_value & 0b0000_0001) != 0,
        }
    }

    /// The address range the BG and Window use to pick up tiles:
    /// $8000-$8FFF when `bg_window_tiles` is set, otherwise $8800-$97FF.
    pub fn get_bg_window_tiles_area_address_range(&self) -> (r: (u16, u16))
        ensures
            r == (if self.bg_window_tiles {
                (BG_WINDOW_DATA_AREA_0_START, BG_WINDOW_DATA_AREA_0_END)
            } else {
                (BG_WINDOW_DATA_AREA_1_START, BG_WINDOW_DATA_AREA_1_END)
            }),
    {
        if self.bg_window_tiles {
            return (BG_WINDOW_DATA_AREA_0_START, BG_WINDOW_DATA_AREA_0_END);
        }
        (BG_WINDOW_DATA_AREA_1_START, BG_WINDOW_DATA_AREA_1_END)
    }

    /// The address range of the Window tile map: $9C00-$9FFF when `window_tile_map_area` is set,
    /// otherwise $9800-$9BFF.
    pub fn get_window_tile_map_area_address_range(&self) -> (r: (u16, u16))
        ensures
            r == (if self.window_tile_map_area {
                (TILE_MAP_AREA_1_START, TILE_MAP_AREA_1_END)
            } else {
                (TILE_MAP_AREA_0_START, TILE_MAP_AREA_0_END)
            }),
    {
        if self.window_tile_map_area {
            return (TILE_MAP_AREA_1_START, TILE_MAP_AREA_1_END);
        }
        (TILE_MAP_AREA_0_START, TILE_MAP_AREA_0_END)
    }

    /// The address range of the BG tile map: $9C00-$9FFF when `bg_tile_map_area` is set,
    /// otherwise $9800-$9BFF.
    pub fn get_bg_tiles_map_area_address_range(&self) -> (r: (u16, u16))
        ensures
            r == (if self.bg_tile_map_area {
                (TILE_MAP_AREA_1_START, TILE_MAP_AREA_1_END)
            } else {
                (TILE_MAP_AREA_0_START, TILE_MAP_AREA_0_END)
            }),
            r.0 == self.spec_bg_tile_map_start(),
            r.1 == r.0 + 0x3FF,
    {
        if self.bg_tile_map_area {
            return (TILE_MAP_AREA_1_START, TILE_MAP_AREA_1_END);
        }
        (TILE_MAP_AREA_0_START, TILE_MAP_AREA_0_END)
    }
}

} // verus!
