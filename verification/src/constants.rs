use vstd::prelude::*;

verus! {

/// The memory can address 65,536 locations, which equals 64 KB.
pub const MEMORY_SIZE: usize = 0x10000;

/// The initial value of the Program Counter (PC) at CPU start-up.
pub const INITIAL_PC: u16 = 0x0100;

/// Screen width in pixels.
pub const SCREEN_WIDTH: usize = 160;

/// Screen height in pixels.
pub const SCREEN_HEIGHT: usize = 144;

/// Width in pixels of the game section of the window (the visible screen).
pub const GAME_SECTION_WIDTH: usize = 160;

/// Height in pixels of the game section of the window (the visible screen).
pub const GAME_SECTION_HEIGHT: usize = 144;

/// Each displayed pixel is drawn as a square of this many window pixels per side.
pub const SCREEN_SCALE: usize = 3;

/// A tile is 8x8 pixels.
pub const TILE_SIZE: usize = 8;

/// Number of tiles held in the VRAM tile data area ($8000-$97FF).
pub const TILE_COUNT: usize = 384;

/// The size of the map used for background and window rendering in pixels (256x256).
pub const BG_AND_WINDOW_MAP_SCREEN_SIZE: usize = 256;

/// Number of tiles per row and column in the background and window tile map (32x32).
pub const BG_AND_WINDOW_TILE_COUNT_PER_ROW_COL: usize = 32;

/// Start address for load instructions involving I/O ports.
pub const START_ADDRESS_FOR_LOAD_INSTRUCTIONS: u16 = 0xFF00;

/// Start of the Video RAM (VRAM) region in the Gameboy memory map.
pub const VRAM_START: u16 = 0x8000;

/// End of the Video RAM (VRAM) region in the Gameboy memory map.
pub const VRAM_END: u16 = 0x9FFF;

/// Start of the Object Attribute Memory (OAM) region in the Gameboy memory map.
pub const OAM_START: u16 = 0xFE00;

/// End of the Object Attribute Memory (OAM) region in the Gameboy memory map.
pub const OAM_END: u16 = 0xFE9F;

/// Tile data is stored in VRAM in the memory area at $8000-$97FF.
pub const TILE_DATA_START: u16 = 0x8000;

/// Last address of the VRAM tile data area.
pub const TILE_DATA_END: u16 = 0x97FF;

/// First tile data area for BG and Window, "$8000 method" (unsigned indices 0 to 255).
pub const BG_WINDOW_DATA_AREA_0_START: u16 = 0x8000;

/// Last address of the first BG and Window tile data area.
pub const BG_WINDOW_DATA_AREA_0_END: u16 = 0x8FFF;

/// Second tile data area for BG and Window, "$8800 method" (signed indices -128 to 127).
pub const BG_WINDOW_DATA_AREA_1_START: u16 = 0x8800;

/// Last address of the second BG and Window tile data area.
pub const BG_WINDOW_DATA_AREA_1_END: u16 = 0x97FF;

/// The first of the two 32x32 tile maps in VRAM ($9800-$9BFF).
pub const TILE_MAP_AREA_0_START: u16 = 0x9800;

/// Last address of the first tile map.
pub const TILE_MAP_AREA_0_END: u16 = 0x9BFF;

/// The second of the two 32x32 tile maps in VRAM ($9C00-$9FFF).
pub const TILE_MAP_AREA_1_START: u16 = 0x9C00;

/// Last address of the second tile map.
pub const TILE_MAP_AREA_1_END: u16 = 0x9FFF;

/// Address of the V-Blank interrupt handler.
pub const VBLANK_INTERRUT_HANDLER_ADDRESS: u16 = 0x0040;

/// Address of the LCD STAT interrupt handler.
pub const LCD_STAT_INTERRUPT_HANDLER_ADDRESS: u16 = 0x0048;

/// Address of the Timer interrupt handler.
pub const TIMER_INTERRUPT_HANDLER_ADDRESS: u16 = 0x0050;

/// Address of the Serial interrupt handler.
pub const SERIAL_INTERRUPT_HANDLER_ADDRESS: u16 = 0x0058;

/// Address of the Joypad interrupt handler.
pub const JOYPAD_INTERRUPT_HANDLER_ADDRESS: u16 = 0x0060;

/// RGB colour of palette index 0 (white).
pub const COLOR_WHITE: u32 = 0xFFFFFF;

/// RGB colour of palette index 1 (light gray).
pub const COLOR_LIGHT_GRAY: u32 = 0xAAAAAA;

/// RGB colour of palette index 2 (dark gray).
pub const COLOR_DARK_GRAY: u32 = 0x555555;

/// RGB colour of palette index 3 (black).
pub const COLOR_BLACK: u32 = 0x000000;

/// The colour that the palette assigns to a pixel value (0 = white ... 3 = black).
pub open spec fn spec_color(pixel_value: u8) -> u32 {
    if pixel_value == 0 {
        COLOR_WHITE
    } else if pixel_value == 1 {
        COLOR_LIGHT_GRAY
    } else if pixel_value == 2 {
        COLOR_DARK_GRAY
    } else {
        COLOR_BLACK
    }
}

/// The colour palette: returns the RGB colour of a pixel value 0-3; values above 3 are black.
pub fn color(pixel_value: u8) -> (c: u32)
    ensures
        c == spec_color(pixel_value),
{
    if pixel_value == 0 {
        COLOR_WHITE
    } else if pixel_value == 1 {
        COLOR_LIGHT_GRAY
    } else if pixel_value == 2 {
        COLOR_DARK_GRAY
    } else {
        COLOR_BLACK
    }
}

} // verus!
