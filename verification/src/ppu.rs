use vstd::prelude::*;

use crate::bits::lemma_pixel_bits;
use crate::constants::{
    color, spec_color, BG_AND_WINDOW_MAP_SCREEN_SIZE, BG_AND_WINDOW_TILE_COUNT_PER_ROW_COL,
    COLOR_WHITE, GAME_SECTION_HEIGHT, GAME_SECTION_WIDTH, TILE_COUNT,
};
use crate::cpu::Cpu;
use crate::cpu_components::MemoryBus;
use crate::interrupts::InterruptType;
use crate::ppu_components::{LcdcRegister, Tile, TilePixelValue};
use crate::registers_constants::{IF, LCDC, LY, LYC, SCX, SCY, STAT};

verus! {

broadcast use MemoryBus::lemma_view_len, MemoryBus::lemma_spec_write, vstd::array::group_array_axioms;

/// Number of T-cycles per scanline; LY increments every 456 T-cycles.
pub const T_CYCLES_PER_SCANLINE: u16 = 456;

/// The line where V-Blank starts.
pub const VBLANK_START_LINE: u8 = 144;

/// LY holds values from 0 to 153, so there are 154 lines.
pub const LY_MAX_LINES: u8 = 154;

/// The PPU modes, as reported in bits 1-0 of STAT.
pub enum PpuMode {
    HBlank,
    VBlank,
    OamSearch,
    PixelTransfer,
}

impl PpuMode {
    /// The value of the mode in bits 1-0 of STAT: H-Blank 0, V-Blank 1, OAM search 2, pixel
    /// transfer 3.
    pub open spec fn spec_bits(self) -> u8 {
        match self {
            PpuMode::HBlank => 0,
            PpuMode::VBlank => 1,
            PpuMode::OamSearch => 2,
            PpuMode::PixelTransfer => 3,
        }
    }

    /// The value of the mode in bits 1-0 of STAT.
    pub fn bits(&self) -> (b: u8)
        ensures
            b == self.spec_bits(),
    {
        match self {
            PpuMode::HBlank => 0,
            PpuMode::VBlank => 1,
            PpuMode::OamSearch => 2,
            PpuMode::PixelTransfer => 3,
        }
    }

    /// The mode during the first 456 dots of a scanline: OAM search for dots 0-79, pixel
    /// transfer for 80-251, H-Blank for the rest.
    pub open spec fn spec_for_dots(dots: u16) -> PpuMode {
        if dots <= 79 {
            PpuMode::OamSearch
        } else if dots <= 251 {
            PpuMode::PixelTransfer
        } else {
            PpuMode::HBlank
        }
    }
}

/// Memory with the mode written to bits 1-0 of STAT.
pub open spec fn spec_with_mode(mem: MemoryBus, mode: PpuMode) -> MemoryBus {
    mem.spec_write(STAT, (mem.spec_read(STAT) & 0b11111100) | mode.spec_bits())
}

/// Memory after comparing LY with LYC: when equal, the LCD interrupt is requested in IF and
/// the LYC=LY flag (bit 2) of STAT is set; otherwise the flag is cleared.
pub open spec fn spec_after_lyc_compare(mem: MemoryBus) -> MemoryBus {
    let stat = mem.spec_read(STAT);
    if mem.spec_read(LY) == mem.spec_read(LYC) {
        mem.spec_write(IF, mem.spec_read(IF) | InterruptType::LCD.spec_mask()).spec_write(
            STAT,
            stat | 0b00000100,
        )
    } else {
        mem.spec_write(STAT, stat & 0b11111011)
    }
}

/// The LY after the scanline that ends: the next line, wrapping from 153 to 0.
pub open spec fn spec_next_line(mem: MemoryBus) -> u8 {
    ((mem.spec_read(LY) + 1) % (LY_MAX_LINES as int)) as u8
}

/// Whether the 4 dots that `update_state` adds end the scanline.
pub open spec fn spec_ends_line(dots: u16) -> bool {
    dots + 4 >= T_CYCLES_PER_SCANLINE
}

/// Memory after `update_state` with the PPU at `dots`: at the end of a scanline LY moves to
/// the next line, with the V-Blank interrupt requested and mode V-Blank at line 144 and mode
/// OAM search otherwise; within a scanline the mode follows the dot count. LY is then
/// compared with LYC.
pub open spec fn spec_state_memory(mem: MemoryBus, dots: u16) -> MemoryBus {
    let after_mode = if spec_ends_line(dots) {
        let ly = spec_next_line(mem);
        let m = mem.spec_write(LY, ly);
        if ly == VBLANK_START_LINE {
            spec_with_mode(
                m.spec_write(IF, m.spec_read(IF) | InterruptType::VBlank.spec_mask()),
                PpuMode::VBlank,
            )
        } else {
            spec_with_mode(m, PpuMode::OamSearch)
        }
    } else {
        spec_with_mode(mem, PpuMode::spec_for_dots((dots + 4) as u16))
    };
    spec_after_lyc_compare(after_mode)
}

/// The palette an object uses.
#[derive(Copy, Clone, Debug)]
pub enum ObjectPallete {
    OBP0,
    OBP1,
}

/// The attribute flags of an object.
#[derive(Copy, Clone, Debug)]
pub struct ObjectAttributes {
    pub priority: bool,
    pub y_flip: bool,
    pub x_flip: bool,
    pub pallete: ObjectPallete,
}

/// An object (sprite) as stored in the Object Attribute Memory.
#[derive(Copy, Clone, Debug)]
pub struct Object {
    pub y: u8,
    pub x: u8,
    pub tile_index: u8,
    pub attributes: ObjectAttributes,
}

/// The Picture Processing Unit.
pub struct Ppu {
    /// The visible screen: 144 rows of 160 RGB colours.
    pub screen: [[u32; GAME_SECTION_WIDTH]; GAME_SECTION_HEIGHT],
    /// T-cycles elapsed in the current scanline.
    pub dots: u16,
    /// The objects selected for the current scanline.
    pub objects_to_be_rendered: [Object; 10],
}

/// The colour index of pixel `col` (0 = leftmost) of a tile row given by its two bytes:
/// bit 7 - col of `hi` is the high bit and bit 7 - col of `lo` the low bit.
pub open spec fn spec_pixel_index(lo: u8, hi: u8, col: int) -> u8 {
    let k = (7 - col) as u8;
    (((hi >> k) & 1u8) * 2 + ((lo >> k) & 1u8)) as u8
}

/// The colour index of pixel (`row`, `col`) of tile number `tile` of the VRAM tile data area
/// ($8000-$97FF, 16 bytes per tile, 2 bytes per row).
pub open spec fn spec_tile_pixel(mem: Seq<u8>, tile: int, row: int, col: int) -> u8 {
    spec_pixel_index(mem[0x8000 + 16 * tile + 2 * row], mem[0x8000 + 16 * tile + 2 * row + 1], col)
}

/// Which of the 384 tiles the BG and Window use for tile number `k` (0-255): with the
/// "$8000 method" tile k itself; with the "$8800 method" tiles 0-127 come from $9000-$97FF
/// and tiles 128-255 from $8800-$8FFF.
pub open spec fn spec_bg_window_tile_index(unsigned_addressing: bool, k: int) -> int {
    if unsigned_addressing || k >= 128 {
        k
    } else {
        k + 256
    }
}

/// The colour index of pixel (`y`, `x`) of the 256x256 background selected by LCDC.
pub open spec fn spec_bg_pixel(mem: Seq<u8>, y: int, x: int) -> u8 {
    let lcdc = LcdcRegister::spec_from_byte(mem[LCDC as int]);
    let tile_number = mem[lcdc.spec_bg_tile_map_start() + 32 * (y / 8) + x / 8];
    spec_tile_pixel(
        mem,
        spec_bg_window_tile_index(lcdc.bg_window_tiles, tile_number as int),
        y % 8,
        x % 8,
    )
}

/// The colour index of pixel (`row`, `col`) of the visible 160x144 screen: the background
/// scrolled by SCY and SCX, wrapping around at 256.
pub open spec fn spec_screen_pixel(mem: Seq<u8>, row: int, col: int) -> u8 {
    spec_bg_pixel(mem, (mem[SCY as int] + row) % 256, (mem[SCX as int] + col) % 256)
}

/// A tile pixel colour index is 0, 1, 2 or 3.
pub proof fn lemma_tile_pixel_range(mem: Seq<u8>, tile: int, row: int, col: int)
    requires
        0 <= col < 8,
    ensures
        spec_tile_pixel(mem, tile, row, col) <= 3,
{
    lemma_pixel_bits(
        mem[0x8000 + 16 * tile + 2 * row],
        mem[0x8000 + 16 * tile + 2 * row + 1],
        (7 - col) as u8,
    );
}

/// The objects of OAM depend only on the bytes at $FE00-$FE9F.
pub proof fn lemma_oam_objects_unchanged(m1: Seq<u8>, m2: Seq<u8>)
    requires
        forall|k: int| 0xFE00 <= k < 0xFEA0 ==> m1[k] == m2[k],
    ensures
        forall|i: int| 0 <= i < 40 ==> Object::spec_oam_object(m1, i) == Object::spec_oam_object(m2, i),
{
    assert forall|i: int| 0 <= i < 40 implies Object::spec_oam_object(m1, i) == Object::spec_oam_object(
        m2,
        i,
    ) by {
        assert(m1[0xFE00 + 4 * i] == m2[0xFE00 + 4 * i]);
        assert(m1[0xFE00 + 4 * i + 1] == m2[0xFE00 + 4 * i + 1]);
        assert(m1[0xFE00 + 4 * i + 2] == m2[0xFE00 + 4 * i + 2]);
        assert(m1[0xFE00 + 4 * i + 3] == m2[0xFE00 + 4 * i + 3]);
    }
}

impl Object {
    /// The object stored at `attributes` offset `i` of the Object Attribute Memory bytes.
    pub open spec fn spec_from_bytes(y: u8, x: u8, tile_index: u8, flags: u8) -> Object {
        Object {
            y,
            x,
            tile_index,
            attributes: ObjectAttributes {
                priority: flags >= 128,
                y_flip: (flags / 64) % 2 == 1,
                x_flip: (flags / 32) % 2 == 1,
                pallete: if (flags / 64) % 2 == 1 {
                    ObjectPallete::OBP1
                } else {
                    ObjectPallete::OBP0
                },
            },
        }
    }

    /// The object at index `i` (0-39) of the Object Attribute Memory ($FE00-$FE9F).
    pub open spec fn spec_oam_object(mem: Seq<u8>, i: int) -> Object {
        Self::spec_from_bytes(
            mem[0xFE00 + 4 * i],
            mem[0xFE00 + 4 * i + 1],
            mem[0xFE00 + 4 * i + 2],
            mem[0xFE00 + 4 * i + 3],
        )
    }

    /// An object with all fields zero and palette OBP0.
    pub fn empty() -> (o: Object)
        ensures
            o == Self::spec_from_bytes(0, 0, 0, 0),
    {
        Object {
            y: 0,
            x: 0,
            tile_index: 0,
            attributes: ObjectAttributes {
                priority: false,
                y_flip: false,
                x_flip: false,
                pallete: ObjectPallete::OBP0,
            },
        }
    }
}

impl Ppu {
    /// A PPU at the start of a scanline, with a blank screen and empty objects.
    pub fn new() -> (p: Self)
        ensures
            p.dots == 0,
            forall|r: int, c: int|
                0 <= r < GAME_SECTION_HEIGHT && 0 <= c < GAME_SECTION_WIDTH ==> p.screen@[r]@[c]
                    == 0,
            forall|i: int| 0 <= i < 10 ==> p.objects_to_be_rendered@[i] == Object::spec_from_bytes(0, 0, 0, 0),
    {
        Self {
            screen: [[0;GAME_SECTION_WIDTH];GAME_SECTION_HEIGHT],
            dots: 0,
            objects_to_be_rendered: [Object::empty();10],
        }
    }

    /// Generates the screen buffer of the visible 160x144 screen as colours.
    pub fn update_screen_buffer(&mut self, memory_bus: &MemoryBus)
        ensures
            final(self).dots == old(self).dots,
            final(self).objects_to_be_rendered == old(self).objects_to_be_rendered,
            forall|r: int, c: int|
                0 <= r < GAME_SECTION_HEIGHT && 0 <= c < GAME_SECTION_WIDTH ==> final(self).screen@[r]@[c]
                    == Self::spec_screen_color(memory_bus@, r, c),
    {
        self.screen = self.get_bg_screen_buffer_as_colors(memory_bus);
    }

    /// The colour of pixel (`row`, `col`) of the visible screen: white when bit 0 of LCDC
    /// (BG and Window display) is clear, otherwise the palette colour of the background pixel.
    pub open spec fn spec_screen_color(mem: Seq<u8>, row: int, col: int) -> u32 {
        if !LcdcRegister::spec_from_byte(mem[LCDC as int]).bg_window_enable {
            COLOR_WHITE
        } else {
            spec_color(spec_screen_pixel(mem, row, col))
        }
    }

    /// The background of the visible 160x144 screen as colours; all white when bit 0 of LCDC
    /// (BG and Window display) is clear.
    pub fn get_bg_screen_buffer_as_colors(&self, memory_bus: &MemoryBus) -> (buffer: [[u32;
        GAME_SECTION_WIDTH]; GAME_SECTION_HEIGHT])
        ensures
            forall|r: int, c: int|
                0 <= r < GAME_SECTION_HEIGHT && 0 <= c < GAME_SECTION_WIDTH ==> buffer@[r]@[c]
                    == Self::spec_screen_color(memory_bus@, r, c),
    {
        let lcdc_register = LcdcRegister::get_lcdc_register(memory_bus);
        if lcdc_register.bg_window_enable == false {
            return [[0xFFFFFF;GAME_SECTION_WIDTH];GAME_SECTION_HEIGHT];
        }
        let bg_screen_buffer = self.get_bg_screen_buffer(memory_bus);
        let mut color_screen_buffer = [[0u32;GAME_SECTION_WIDTH];GAME_SECTION_HEIGHT];

        let mut row: usize = 0;
        while row < GAME_SECTION_HEIGHT
            invariant
                row <= GAME_SECTION_HEIGHT,
                lcdc_register.bg_window_enable,
                lcdc_register == LcdcRegister::spec_from_byte(memory_bus@[LCDC as int]),
                forall|r: int, c: int|
                    0 <= r < GAME_SECTION_HEIGHT && 0 <= c < GAME_SECTION_WIDTH ==> bg_screen_buffer@[r]@[c]
                        == spec_screen_pixel(memory_bus@, r, c),
                forall|r: int, c: int|
                    0 <= r < row && 0 <= c < GAME_SECTION_WIDTH ==> color_screen_buffer@[r]@[c]
                        == Self::spec_screen_color(memory_bus@, r, c),
            decreases GAME_SECTION_HEIGHT - row,
        {
            let mut color_row = [0u32;GAME_SECTION_WIDTH];
            let mut col: usize = 0;
            while col < GAME_SECTION_WIDTH
                invariant
                    col <= GAME_SECTION_WIDTH,
                    row < GAME_SECTION_HEIGHT,
                    lcdc_register.bg_window_enable,
                    lcdc_register == LcdcRegister::spec_from_byte(memory_bus@[LCDC as int]),
                    forall|r: int, c: int|
                        0 <= r < GAME_SECTION_HEIGHT && 0 <= c < GAME_SECTION_WIDTH ==> bg_screen_buffer@[r]@[c]
                            == spec_screen_pixel(memory_bus@, r, c),
                    forall|c: int|
                        0 <= c < col ==> color_row@[c] == Self::spec_screen_color(
                            memory_bus@,
                            row as int,
                            c,
                        ),
                decreases GAME_SECTION_WIDTH - col,
            {
                let pixel_value = bg_screen_buffer[row][col];
                color_row[col] = color(pixel_value);
                col = col + 1;
            }
            color_screen_buffer[row] = color_row;
            row = row + 1;
        }
        color_screen_buffer
    }

    /// The background of the visible 160x144 screen as colour indices.
    pub fn get_bg_screen_buffer(&self, memory_bus: &MemoryBus) -> (buffer: [[u8;
        GAME_SECTION_WIDTH]; GAME_SECTION_HEIGHT])
        ensures
            forall|r: int, c: int|
                0 <= r < GAME_SECTION_HEIGHT && 0 <= c < GAME_SECTION_WIDTH ==> buffer@[r]@[c]
                    == spec_screen_pixel(memory_bus@, r, c),
    {
        let lcdc_register = LcdcRegister::get_lcdc_register(memory_bus);
        let tiles = self.get_tiles(memory_bus);
        let bg_buffer = self.get_bg_buffer(memory_bus, &tiles, &lcdc_register);
        let screen_buffer = self.get_visible_bg_buffer(&bg_buffer, memory_bus);
        assert forall|r: int, c: int|
            0 <= r < GAME_SECTION_HEIGHT && 0 <= c < GAME_SECTION_WIDTH implies screen_buffer@[r]@[c]
                == spec_screen_pixel(memory_bus@, r, c) by {
            let y = (memory_bus@[SCY as int] + r) % 256;
            let x = (memory_bus@[SCX as int] + c) % 256;
            let tile_number = memory_bus@[lcdc_register.spec_bg_tile_map_start() + 32 * (y / 8) + x / 8];
            let t = spec_bg_window_tile_index(lcdc_register.bg_window_tiles, tile_number as int);
            lemma_tile_pixel_range(memory_bus@, t, y % 8, x % 8);
        }
        screen_buffer
    }

    /// All 384 tiles of VRAM.
    pub fn get_tiles_data(&self, memory_bus: &MemoryBus) -> (tiles: [Tile; TILE_COUNT])
        ensures
            forall|t: int, r: int, c: int|
                0 <= t < TILE_COUNT && 0 <= r < 8 && 0 <= c < 8 ==> tiles@[t].pixels@[r]@[c]
                    == TilePixelValue::spec_from_index(spec_tile_pixel(memory_bus@, t, r, c)),
    {
        self.get_tiles(memory_bus)
    }

    /// The part of the 256x256 background visible on the 160x144 screen: the viewport starts at
    /// (SCY, SCX) and wraps around at 256.
    fn get_visible_bg_buffer(
        &self,
        bg_buffer: &[[u8; BG_AND_WINDOW_MAP_SCREEN_SIZE]; BG_AND_WINDOW_MAP_SCREEN_SIZE],
        memory_bus: &MemoryBus,
    ) -> (visible: [[u8; GAME_SECTION_WIDTH]; GAME_SECTION_HEIGHT])
        ensures
            forall|r: int, c: int|
                0 <= r < GAME_SECTION_HEIGHT && 0 <= c < GAME_SECTION_WIDTH ==> visible@[r]@[c]
                    == bg_buffer@[(memory_bus@[SCY as int] + r) % 256]@[(memory_bus@[SCX as int] + c)
                    % 256],
    {
        let scy = memory_bus.get_scy_register() as usize;
        let scx = memory_bus.get_scx_register() as usize;
        let mut visible_bg_buffer = [[0u8;GAME_SECTION_WIDTH];GAME_SECTION_HEIGHT];

        let mut screen_row: usize = 0;
        while screen_row < GAME_SECTION_HEIGHT
            invariant
                screen_row <= GAME_SECTION_HEIGHT,
                scy == memory_bus@[SCY as int],
                scx == memory_bus@[SCX as int],
                forall|r: int, c: int|
                    0 <= r < screen_row && 0 <= c < GAME_SECTION_WIDTH ==> visible_bg_buffer@[r]@[c]
                        == bg_buffer@[(scy + r) % 256]@[(scx + c) % 256],
            decreases GAME_SECTION_HEIGHT - screen_row,
        {
            let mut visible_row = [0u8;GAME_SECTION_WIDTH];
            let bg_row = (scy + screen_row) % BG_AND_WINDOW_MAP_SCREEN_SIZE;
            let mut screen_col: usize = 0;
            while screen_col < GAME_SECTION_WIDTH
                invariant
                    screen_col <= GAME_SECTION_WIDTH,
                    screen_row < GAME_SECTION_HEIGHT,
                    scx < 256,
                    bg_row == (scy + screen_row) % 256,
                    forall|c: int|
                        0 <= c < screen_col ==> visible_row@[c] == bg_buffer@[bg_row as int]@[(scx + c)
                            % 256],
                decreases GAME_SECTION_WIDTH - screen_col,
            {
                let bg_col = (scx + screen_col) % BG_AND_WINDOW_MAP_SCREEN_SIZE;
                visible_row[screen_col] = bg_buffer[bg_row][bg_col];
                screen_col = screen_col + 1;
            }
            visible_bg_buffer[screen_row] = visible_row;
            screen_row = screen_row + 1;
        }
        visible_bg_buffer
    }

    /// The whole 256x256 background: each pixel comes from the tile that the BG tile map
    /// selected by LCDC holds for its 8x8 block.
    pub fn get_bg_buffer(
        &self,
        memory_bus: &MemoryBus,
        tiles: &[Tile; TILE_COUNT],
        lcdc_register: &LcdcRegister,
    ) -> (bg_buffer: [[u8; BG_AND_WINDOW_MAP_SCREEN_SIZE]; BG_AND_WINDOW_MAP_SCREEN_SIZE])
        ensures
            forall|y: int, x: int|
                0 <= y < 256 && 0 <= x < 256 ==> bg_buffer@[y]@[x] == tiles@[spec_bg_window_tile_index(
                    lcdc_register.bg_window_tiles,
                    memory_bus@[lcdc_register.spec_bg_tile_map_start() + 32 * (y / 8) + x
                        / 8] as int,
                )].pixels@[y % 8]@[x % 8].spec_index(),
    {
        let bg_tile_map = self.get_bg_tile_map_as_grid_32x32(memory_bus, lcdc_register);
        let bg_tiles = self.get_bg_and_window_tiles(tiles, lcdc_register);
        let mut bg_buffer = [[0u8;BG_AND_WINDOW_MAP_SCREEN_SIZE];BG_AND_WINDOW_MAP_SCREEN_SIZE];

        let mut y: usize = 0;
        while y < BG_AND_WINDOW_MAP_SCREEN_SIZE
            invariant
                y <= 256,
                forall|i: int, j: int|
                    0 <= i < 32 && 0 <= j < 32 ==> bg_tile_map@[i]@[j] == memory_bus@[lcdc_register.spec_bg_tile_map_start()
                        + 32 * i + j],
                forall|k: int|
                    0 <= k < 256 ==> bg_tiles@[k] == tiles@[spec_bg_window_tile_index(
                        lcdc_register.bg_window_tiles,
                        k,
                    )],
                forall|i: int, x: int|
                    0 <= i < y && 0 <= x < 256 ==> bg_buffer@[i]@[x] == tiles@[spec_bg_window_tile_index(
                        lcdc_register.bg_window_tiles,
                        memory_bus@[lcdc_register.spec_bg_tile_map_start() + 32 * (i / 8) + x
                            / 8] as int,
                    )].pixels@[i % 8]@[x % 8].spec_index(),
            decreases 256 - y,
        {
            let mut row = [0u8;BG_AND_WINDOW_MAP_SCREEN_SIZE];
            let mut x: usize = 0;
            while x < BG_AND_WINDOW_MAP_SCREEN_SIZE
                invariant
                    x <= 256,
                    y < 256,
                    forall|i: int, j: int|
                        0 <= i < 32 && 0 <= j < 32 ==> bg_tile_map@[i]@[j] == memory_bus@[lcdc_register.spec_bg_tile_map_start()
                            + 32 * i + j],
                    forall|k: int|
                        0 <= k < 256 ==> bg_tiles@[k] == tiles@[spec_bg_window_tile_index(
                            lcdc_register.bg_window_tiles,
                            k,
                        )],
                    forall|j: int|
                        0 <= j < x ==> row@[j] == tiles@[spec_bg_window_tile_index(
                            lcdc_register.bg_window_tiles,
                            memory_bus@[lcdc_register.spec_bg_tile_map_start() + 32 * (y as int / 8) + j
                                / 8] as int,
                        )].pixels@[y as int % 8]@[j % 8].spec_index(),
                decreases 256 - x,
            {
                let tile_index = bg_tile_map[y / 8][x / 8] as usize;
                let tile = &bg_tiles[tile_index];
                row[x] = tile.pixels[y % 8][x % 8].to_index();
                x = x + 1;
            }
            bg_buffer[y] = row;
            y = y + 1;
        }
        bg_buffer
    }

    /// Decodes the 384 tiles of the VRAM tile data area ($8000-$97FF). A tile is 8x8 pixels of
    /// 2 bits; each of its 8 rows takes 2 bytes: the first gives the low bit of each pixel and
    /// the second the high bit, bit 7 being the leftmost pixel.
    pub fn get_tiles(&self, memory_bus: &MemoryBus) -> (tiles: [Tile; TILE_COUNT])
        ensures
            forall|t: int, r: int, c: int|
                0 <= t < TILE_COUNT && 0 <= r < 8 && 0 <= c < 8 ==> tiles@[t].pixels@[r]@[c]
                    == TilePixelValue::spec_from_index(spec_tile_pixel(memory_bus@, t, r, c)),
    {
        let mut tiles: [Tile; TILE_COUNT] = [Tile::new();TILE_COUNT];
        let tile_slice = memory_bus.get_vram_tile_data();

        let mut tile_index: usize = 0;
        while tile_index < TILE_COUNT
            invariant
                tile_index <= TILE_COUNT,
                tile_slice@ == memory_bus@.subrange(0x8000, 0x9800),
                forall|t: int, r: int, c: int|
                    0 <= t < tile_index && 0 <= r < 8 && 0 <= c < 8 ==> tiles@[t].pixels@[r]@[c]
                        == TilePixelValue::spec_from_index(spec_tile_pixel(memory_bus@, t, r, c)),
            decreases TILE_COUNT - tile_index,
        {
            let mut tile = Tile::new();
            let mut row_index: usize = 0;
            while row_index < 8
                invariant
                    row_index <= 8,
                    tile_index < TILE_COUNT,
                    tile_slice@ == memory_bus@.subrange(0x8000, 0x9800),
                    forall|r: int, c: int|
                        0 <= r < row_index && 0 <= c < 8 ==> tile.pixels@[r]@[c]
                            == TilePixelValue::spec_from_index(
                            spec_tile_pixel(memory_bus@, tile_index as int, r, c),
                        ),
                decreases 8 - row_index,
            {
                let low_byte = tile_slice[tile_index * 16 + row_index * 2];
                let high_byte = tile_slice[tile_index * 16 + row_index * 2 + 1];
                let mut pixel: usize = 0;
                while pixel < 8
                    invariant
                        pixel <= 8,
                        row_index < 8,
                        tile_index < TILE_COUNT,
                        low_byte == memory_bus@[0x8000 + 16 * tile_index + 2 * row_index],
                        high_byte == memory_bus@[0x8000 + 16 * tile_index + 2 * row_index + 1],
                        forall|r: int, c: int|
                            0 <= r < row_index && 0 <= c < 8 ==> tile.pixels@[r]@[c]
                                == TilePixelValue::spec_from_index(
                                spec_tile_pixel(memory_bus@, tile_index as int, r, c),
                            ),
                        forall|c: int|
                            0 <= c < pixel ==> tile.pixels@[row_index as int]@[c]
                                == TilePixelValue::spec_from_index(
                                spec_tile_pixel(memory_bus@, tile_index as int, row_index as int, c),
                            ),
                    decreases 8 - pixel,
                {
                    let bit_pos = (7 - pixel) as u8;
                    let lsb = (low_byte >> bit_pos) & 0x01;
                    let msb = (high_byte >> bit_pos) & 0x01;
                    proof {
                        lemma_pixel_bits(low_byte, high_byte, bit_pos);
                    }
                    let pixel_value = TilePixelValue::from_index((msb << 1) | lsb);
                    tile.pixels[row_index][pixel] = pixel_value;
                    pixel = pixel + 1;
                }
                row_index = row_index + 1;
            }
            tiles[tile_index] = tile;
            tile_index = tile_index + 1;
        }
        tiles
    }

    /// The 256 tiles the BG and Window pick from, in tile-number order: tiles 0-255 with the
    /// "$8000 method" (bit 4 of LCDC set), otherwise tiles 256-383 followed by tiles 128-255.
    fn get_bg_and_window_tiles(&self, tiles: &[Tile; TILE_COUNT], lcdc: &LcdcRegister) -> (bg_tiles: [Tile; 256])
        ensures
            forall|k: int|
                0 <= k < 256 ==> bg_tiles@[k] == tiles@[spec_bg_window_tile_index(
                    lcdc.bg_window_tiles,
                    k,
                )],
    {
        let mut bg_tiles: [Tile; 256] = [Tile::new();256];
        let mut k: usize = 0;
        while k < 256
            invariant
                k <= 256,
                forall|j: int|
                    0 <= j < k ==> bg_tiles@[j] == tiles@[spec_bg_window_tile_index(
                        lcdc.bg_window_tiles,
                        j,
                    )],
            decreases 256 - k,
        {
            if lcdc.bg_window_tiles || k >= 128 {
                bg_tiles[k] = tiles[k];
            } else {
                bg_tiles[k] = tiles[k + 256];
            }
            k = k + 1;
        }
        bg_tiles
    }

    /// The BG tile map selected by LCDC as a 32x32 grid of tile numbers.
    fn get_bg_tile_map_as_grid_32x32(&self, memory_bus: &MemoryBus, lcdc: &LcdcRegister) -> (grid: [[u8;
        32]; 32])
        ensures
            forall|i: int, j: int|
                0 <= i < 32 && 0 <= j < 32 ==> grid@[i]@[j] == memory_bus@[lcdc.spec_bg_tile_map_start()
                    + 32 * i + j],
    {
        let tile_map = memory_bus.get_bg_tile_map(lcdc);
        let mut tile_map_grid = [[0u8;32];32];
        let mut row: usize = 0;
        while row < BG_AND_WINDOW_TILE_COUNT_PER_ROW_COL
            invariant
                row <= 32,
                tile_map@ == memory_bus@.subrange(
                    lcdc.spec_bg_tile_map_start() as int,
                    lcdc.spec_bg_tile_map_start() + 0x400,
                ),
                forall|i: int, j: int|
                    0 <= i < row && 0 <= j < 32 ==> tile_map_grid@[i]@[j] == memory_bus@[lcdc.spec_bg_tile_map_start()
                        + 32 * i + j],
            decreases 32 - row,
        {
            let mut grid_row = [0u8;32];
            let mut col: usize = 0;
            while col < BG_AND_WINDOW_TILE_COUNT_PER_ROW_COL
                invariant
                    col <= 32,
                    row < 32,
                    tile_map@ == memory_bus@.subrange(
                        lcdc.spec_bg_tile_map_start() as int,
                        lcdc.spec_bg_tile_map_start() + 0x400,
                    ),
                    forall|j: int|
                        0 <= j < col ==> grid_row@[j] == memory_bus@[lcdc.spec_bg_tile_map_start()
                            + 32 * row + j],
                decreases 32 - col,
            {
                grid_row[col] = tile_map[row * 32 + col];
                col = col + 1;
            }
            tile_map_grid[row] = grid_row;
            row = row + 1;
        }
        tile_map_grid
    }

    /// The 40 objects of the Object Attribute Memory ($FE00-$FE9F), 4 bytes each: Y, X,
    /// tile index and flags (bit 7 priority, bit 6 Y flip, bit 5 X flip; the palette is taken
    /// from bit 6).
    pub fn get_objects(memory_bus: &MemoryBus) -> (objects: [Object; 40])
        ensures
            forall|i: int| 0 <= i < 40 ==> objects@[i] == Object::spec_oam_object(memory_bus@, i),
    {
        let oam_memory = memory_bus.get_object_attribute_memory();
        let mut objects = [Object::empty();40];
        let mut i: usize = 0;
        while i < 40
            invariant
                i <= 40,
                oam_memory@ == memory_bus@.subrange(0xFE00, 0xFEA0),
                forall|j: int| 0 <= j < i ==> objects@[j] == Object::spec_oam_object(memory_bus@, j),
            decreases 40 - i,
        {
            let flags = oam_memory[4 * i + 3];
            proof {
                crate::bits::lemma_bit_tests(flags);
            }
            objects[i] = Object {
                y: oam_memory[4 * i],
                x: oam_memory[4 * i + 1],
                tile_index: oam_memory[4 * i + 2],
                attributes: ObjectAttributes {
                    priority: (flags & 0b1000_0000) != 0,
                    y_flip: (flags & 0b0100_0000) != 0,
                    x_flip: (flags & 0b0010_0000) != 0,
                    pallete: if (flags & 0b0100_0000) != 0 {
                        ObjectPallete::OBP1
                    } else {
                        ObjectPallete::OBP0
                    },
                },
            };
            i = i + 1;
        }
        objects
    }
    /// Adds 4 dots and updates LY, the PPU mode in STAT, the interrupt requests and the LYC=LY
    /// flag (see `spec_state_memory`). At the start of a line other than 144, the first 10
    /// objects of OAM become the objects to be rendered. To be called after every instruction.
    pub fn update_state(cpu: &mut Cpu)
        requires
            old(cpu).ppu.dots <= 65531,
            spec_ends_line(old(cpu).ppu.dots) ==> old(cpu).memory_bus.spec_read(LY) != 255,
        ensures
            final(cpu).ppu.dots == if spec_ends_line(old(cpu).ppu.dots) {
                old(cpu).ppu.dots + 4 - T_CYCLES_PER_SCANLINE
            } else {
                old(cpu).ppu.dots + 4
            },
            final(cpu).memory_bus == spec_state_memory(old(cpu).memory_bus, old(cpu).ppu.dots),
            if spec_ends_line(old(cpu).ppu.dots) && spec_next_line(old(cpu).memory_bus)
                != VBLANK_START_LINE {
                forall|i: int|
                    0 <= i < 10 ==> final(cpu).ppu.objects_to_be_rendered@[i]
                        == Object::spec_oam_object(old(cpu).memory_bus@, i)
            } else {
                final(cpu).ppu.objects_to_be_rendered == old(cpu).ppu.objects_to_be_rendered
            },
            *final(cpu) == (Cpu {
                memory_bus: final(cpu).memory_bus,
                ppu: Ppu {
                    dots: final(cpu).ppu.dots,
                    objects_to_be_rendered: final(cpu).ppu.objects_to_be_rendered,
                    ..old(cpu).ppu
                },
                ..*old(cpu)
            }),
    {
        cpu.ppu.dots = cpu.ppu.dots + 4;

        if cpu.ppu.dots >= T_CYCLES_PER_SCANLINE {
            cpu.ppu.dots = cpu.ppu.dots - T_CYCLES_PER_SCANLINE;

            // LY goes from 0 to 153 and then back to 0.
            let ly: u8 = (cpu.memory_bus.read_byte(LY) + 1) % LY_MAX_LINES;
            cpu.memory_bus.write_byte(LY, ly);

            if ly == VBLANK_START_LINE {
                cpu.memory_bus.update_flag_in_if_register(InterruptType::VBlank, true);
                Ppu::set_ppu_mode_flag_in_stat(cpu, PpuMode::VBlank);
            } else {
                // Leaving V-Blank, or a new visible line: OAM search.
                Ppu::set_ppu_mode_flag_in_stat(cpu, PpuMode::OamSearch);
                proof {
                    lemma_oam_objects_unchanged(old(cpu).memory_bus@, cpu.memory_bus@);
                }
                Ppu::set_objects_to_be_rendered(cpu, ly);
            }
        } else {
            Ppu::update_ppu_mode_based_on_dots_count(cpu);
        }
        Self::compare_lyc(cpu);
    }

    /// Compares LY and LYC: when equal, sets the LYC=LY flag (bit 2) of STAT and requests the
    /// LCD interrupt; otherwise clears the flag.
    pub fn compare_lyc(cpu: &mut Cpu)
        ensures
            *final(cpu) == (Cpu {
                memory_bus: spec_after_lyc_compare(old(cpu).memory_bus),
                ..*old(cpu)
            }),
    {
        let ly = cpu.memory_bus.read_byte(LY);
        let lyc: u8 = cpu.memory_bus.read_byte(LYC);
        let mut stat = cpu.memory_bus.read_byte(STAT);
        if ly == lyc {
            stat = stat | 0b00000100;
            cpu.memory_bus.update_flag_in_if_register(InterruptType::LCD, true);
        } else {
            stat = stat & 0b11111011;
        }
        cpu.memory_bus.write_byte(STAT, stat);
    }

    /// Sets the PPU mode from the dot count of the current scanline: OAM search for dots 0-79,
    /// pixel transfer for 80-251 and H-Blank afterwards.
    pub fn update_ppu_mode_based_on_dots_count(cpu: &mut Cpu)
        ensures
            *final(cpu) == (Cpu {
                memory_bus: spec_with_mode(old(cpu).memory_bus, PpuMode::spec_for_dots(old(cpu).ppu.dots)),
                ..*old(cpu)
            }),
    {
        if cpu.ppu.dots <= 79 {
            Ppu::set_ppu_mode_flag_in_stat(cpu, PpuMode::OamSearch);
        } else if cpu.ppu.dots <= 251 {
            Ppu::set_ppu_mode_flag_in_stat(cpu, PpuMode::PixelTransfer);
        } else {
            Ppu::set_ppu_mode_flag_in_stat(cpu, PpuMode::HBlank);
        }
    }

    /// Writes the PPU mode to bits 1-0 of STAT.
    pub fn set_ppu_mode_flag_in_stat(cpu: &mut Cpu, mode: PpuMode)
        ensures
            *final(cpu) == (Cpu { memory_bus: spec_with_mode(old(cpu).memory_bus, mode), ..*old(cpu) }),
    {
        let mut stat = cpu.memory_bus.read_byte(STAT);
        stat = (stat & 0b11111100) | mode.bits();
        cpu.memory_bus.write_byte(STAT, stat);
    }

    /// Selects the objects to be rendered on line `ly`: the first 10 objects of OAM.
    pub fn set_objects_to_be_rendered(cpu: &mut Cpu, ly: u8)
        ensures
            forall|i: int|
                0 <= i < 10 ==> final(cpu).ppu.objects_to_be_rendered@[i] == Object::spec_oam_object(
                    old(cpu).memory_bus@,
                    i,
                ),
            *final(cpu) == (Cpu {
                ppu: Ppu { objects_to_be_rendered: final(cpu).ppu.objects_to_be_rendered, ..old(cpu).ppu },
                ..*old(cpu)
            }),
    {
        let objects = Ppu::get_objects(&cpu.memory_bus);
        let mut selected = [Object::empty();10];
        let mut i: usize = 0;
        while i < 10
            invariant
                i <= 10,
                forall|j: int| 0 <= j < 40 ==> objects@[j] == Object::spec_oam_object(cpu.memory_bus@, j),
                forall|j: int| 0 <= j < i ==> selected@[j] == Object::spec_oam_object(cpu.memory_bus@, j),
            decreases 10 - i,
        {
            selected[i] = objects[i];
            i = i + 1;
        }
        cpu.ppu.objects_to_be_rendered = selected;
    }
}

} // verus!
