use vstd::prelude::*;

use crate::constants::{
    color, spec_color, GAME_SECTION_HEIGHT, GAME_SECTION_WIDTH, SCREEN_SCALE, TILE_COUNT,
    TILE_SIZE,
};
use crate::cpu::Cpu;
use crate::ppu::{lemma_tile_pixel_range, spec_tile_pixel};
use crate::ppu_components::{Tile, TilePixelValue};

verus! {

/// Number of tiles per row of the tile data view.
pub const TILES_PER_ROW: usize = 16;

/// Number of tile rows of the tile data view.
pub const TILES_PER_COL: usize = 24;

/// Margin between the game screen and the tile data view.
pub const MARGIN: usize = 20;

/// Margin between two tiles of the tile data view, before scaling.
pub const TILE_MARGIN: usize = 2;

/// Width of the tile data view.
pub const TILE_DATA_WIDTH: usize = TILES_PER_ROW * TILE_SIZE * SCREEN_SCALE + (TILES_PER_ROW - 1)
    * TILE_MARGIN * SCREEN_SCALE;

/// Height of the tile data view.
pub const TILE_DATA_HEIGHT: usize = TILES_PER_COL * TILE_SIZE * SCREEN_SCALE + (TILES_PER_COL - 1)
    * TILE_MARGIN * SCREEN_SCALE;

/// Width of the window: the scaled game screen, the margin and the tile data view.
pub const TOTAL_WINDOW_WIDTH: usize = GAME_SECTION_WIDTH * SCREEN_SCALE + MARGIN + TILE_DATA_WIDTH;

/// Height of the window.
pub const TOTAL_WINDOW_HEIGHT: usize = TILE_DATA_HEIGHT;

/// The colour with which the game area is filled.
pub const GAME_AREA_COLOR: u32 = 0x006400;

/// The number of buffer entries of the scaled game area (rows of 160 * 3 pixels).
pub open spec fn game_area_len() -> int {
    (GAME_SECTION_HEIGHT * SCREEN_SCALE * GAME_SECTION_WIDTH * SCREEN_SCALE) as int
}

/// The first column of the tile data view in the window.
pub open spec fn tile_view_start_col() -> int {
    (GAME_SECTION_WIDTH * SCREEN_SCALE + MARGIN) as int
}

/// The width and height of one tile slot of the tile data view, margin included.
pub open spec fn tile_slot() -> int {
    ((TILE_SIZE + TILE_MARGIN) * SCREEN_SCALE) as int
}

/// Whether window position (`row`, `col`) shows a pixel of a tile of the tile data view.
pub open spec fn in_tile_view(row: int, col: int) -> bool {
    let x = col - tile_view_start_col();
    &&& 0 <= x
    &&& x / tile_slot() < TILES_PER_ROW
    &&& x % tile_slot() < TILE_SIZE * SCREEN_SCALE
    &&& row / tile_slot() < TILES_PER_COL
    &&& row % tile_slot() < TILE_SIZE * SCREEN_SCALE
}

/// The colour of window position (`row`, `col`) of the tile data view: tile
/// `16 * (row / 30) + x / 30` (x counted from the view's first column), pixel
/// ((row % 30) / 3, (x % 30) / 3), each tile pixel being scaled to 3x3.
pub open spec fn tile_view_color(memory: Seq<u8>, row: int, col: int) -> u32 {
    let x = col - tile_view_start_col();
    let tile = (row / tile_slot()) * TILES_PER_ROW + x / tile_slot();
    spec_color(
        spec_tile_pixel(
            memory,
            tile,
            (row % tile_slot()) / (SCREEN_SCALE as int),
            (x % tile_slot()) / (SCREEN_SCALE as int),
        ),
    )
}

/// The 8x8 colours of a tile: the palette colour of each pixel.
pub fn parse_tile_to_8x8_pixels_block_color(tile: &Tile) -> (block: [[u32; 8]; 8])
    ensures
        forall|r: int, c: int|
            0 <= r < 8 && 0 <= c < 8 ==> block@[r]@[c] == spec_color(
                tile.pixels@[r]@[c].spec_index(),
            ),
{
    let mut pixels_block = [[0u32;8];8];
    let mut row: usize = 0;
    while row < TILE_SIZE
        invariant
            row <= TILE_SIZE,
            forall|r: int, c: int|
                0 <= r < row && 0 <= c < 8 ==> pixels_block@[r]@[c] == spec_color(
                    tile.pixels@[r]@[c].spec_index(),
                ),
        decreases TILE_SIZE - row,
    {
        let mut block_row = [0u32;8];
        let mut col: usize = 0;
        while col < TILE_SIZE
            invariant
                row < TILE_SIZE,
                col <= TILE_SIZE,
                forall|c: int|
                    0 <= c < col ==> block_row@[c] == spec_color(tile.pixels@[row as int]@[c].spec_index()),
            decreases TILE_SIZE - col,
        {
            let pixel_value = tile.pixels[row][col].to_index();
            block_row[col] = color(pixel_value);
            col = col + 1;
        }
        pixels_block[row] = block_row;
        row = row + 1;
    }
    pixels_block
}

/// Fills the scaled game area of the window buffer (the first 432 rows of 480 entries) with
/// the game area colour; entries past the end of the buffer are skipped.
pub fn render_game_to_screen_buffer(cpu: &Cpu, buffer: &mut [u32])
    ensures
        final(buffer)@.len() == old(buffer)@.len(),
        forall|i: int|
            0 <= i < old(buffer)@.len() ==> final(buffer)@[i] == if i < game_area_len() {
                GAME_AREA_COLOR
            } else {
                old(buffer)@[i]
            },
{
    let buffer_width: usize = GAME_SECTION_WIDTH * SCREEN_SCALE;
    let buffer_height: usize = GAME_SECTION_HEIGHT * SCREEN_SCALE;
    let mut buffer_row: usize = 0;
    while buffer_row < buffer_height
        invariant
            buffer_width == 480,
            buffer_height == 432,
            buffer_row <= buffer_height,
            buffer@.len() == old(buffer)@.len(),
            forall|i: int|
                0 <= i < buffer@.len() ==> buffer@[i] == if i < buffer_row * 480 {
                    GAME_AREA_COLOR
                } else {
                    old(buffer)@[i]
                },
        decreases buffer_height - buffer_row,
    {
        let mut buffer_col: usize = 0;
        while buffer_col < buffer_width
            invariant
                buffer_width == 480,
                buffer_height == 432,
                buffer_row < buffer_height,
                buffer_col <= buffer_width,
                buffer@.len() == old(buffer)@.len(),
                forall|i: int|
                    0 <= i < buffer@.len() ==> buffer@[i] == if i < buffer_row * 480 + buffer_col {
                        GAME_AREA_COLOR
                    } else {
                        old(buffer)@[i]
                    },
            decreases buffer_width - buffer_col,
        {
            let buffer_idx = buffer_row * buffer_width + buffer_col;
            if buffer_idx < buffer.len() {
                buffer[buffer_idx] = GAME_AREA_COLOR;
            }
            buffer_col = buffer_col + 1;
        }
        buffer_row = buffer_row + 1;
    }
}

/// Draws the 384 tiles of VRAM into the tile data view of the window buffer: a grid of 16
/// tiles per row and 24 rows, right of the game screen and the margin, each tile pixel scaled
/// to 3x3 and 2 (scaled) pixels of margin between tiles. Other entries, and entries past the
/// end of the buffer, are left as they are.
#[verifier::spinoff_prover]
#[verifier::rlimit(50)]
pub fn render_tile_data_to_screen_buffer(cpu: &Cpu, buffer: &mut [u32])
    ensures
        final(buffer)@.len() == old(buffer)@.len(),
        forall|i: int|
            0 <= i < old(buffer)@.len() ==> final(buffer)@[i] == if in_tile_view(
                i / (TOTAL_WINDOW_WIDTH as int),
                i % (TOTAL_WINDOW_WIDTH as int),
            ) {
                tile_view_color(
                    cpu.memory_bus@,
                    i / (TOTAL_WINDOW_WIDTH as int),
                    i % (TOTAL_WINDOW_WIDTH as int),
                )
            } else {
                old(buffer)@[i]
            },
{
    let tiles: [Tile; TILE_COUNT] = cpu.ppu.get_tiles_data(&cpu.memory_bus);
    let start_col_offset: usize = GAME_SECTION_WIDTH * SCREEN_SCALE + MARGIN;
    let slot: usize = (TILE_SIZE + TILE_MARGIN) * SCREEN_SCALE;
    let mut buffer_row: usize = 0;
    while buffer_row < TOTAL_WINDOW_HEIGHT
        invariant
            start_col_offset == 500,
            slot == 30,
            buffer_row <= TOTAL_WINDOW_HEIGHT,
            buffer@.len() == old(buffer)@.len(),
            forall|t: int, r: int, c: int|
                0 <= t < TILE_COUNT && 0 <= r < 8 && 0 <= c < 8 ==> tiles@[t].pixels@[r]@[c]
                    == TilePixelValue::spec_from_index(spec_tile_pixel(cpu.memory_bus@, t, r, c)),
            forall|i: int|
                0 <= i < buffer@.len() ==> buffer@[i] == if i < buffer_row * 974 && in_tile_view(
                    i / 974,
                    i % 974,
                ) {
                    tile_view_color(cpu.memory_bus@, i / 974, i % 974)
                } else {
                    old(buffer)@[i]
                },
        decreases TOTAL_WINDOW_HEIGHT - buffer_row,
    {
        let mut buffer_col: usize = 0;
        while buffer_col < TOTAL_WINDOW_WIDTH
            invariant
                start_col_offset == 500,
                slot == 30,
                buffer_row < TOTAL_WINDOW_HEIGHT,
                buffer_col <= TOTAL_WINDOW_WIDTH,
                buffer@.len() == old(buffer)@.len(),
                forall|t: int, r: int, c: int|
                    0 <= t < TILE_COUNT && 0 <= r < 8 && 0 <= c < 8 ==> tiles@[t].pixels@[r]@[c]
                        == TilePixelValue::spec_from_index(
                        spec_tile_pixel(cpu.memory_bus@, t, r, c),
                    ),
                forall|i: int|
                    0 <= i < buffer@.len() ==> buffer@[i] == if i < buffer_row * 974 + buffer_col
                        && in_tile_view(i / 974, i % 974) {
                        tile_view_color(cpu.memory_bus@, i / 974, i % 974)
                    } else {
                        old(buffer)@[i]
                    },
            decreases TOTAL_WINDOW_WIDTH - buffer_col,
        {
            let buffer_idx = buffer_row * TOTAL_WINDOW_WIDTH + buffer_col;
            if buffer_col >= start_col_offset && buffer_idx < buffer.len() {
                let x = buffer_col - start_col_offset;
                let grid_row = buffer_row / slot;
                let grid_col = x / slot;
                if grid_col < TILES_PER_ROW && x % slot < TILE_SIZE * SCREEN_SCALE && buffer_row
                    % slot < TILE_SIZE * SCREEN_SCALE {
                    let tile_index = grid_row * TILES_PER_ROW + grid_col;
                    let tile_row = (buffer_row % slot) / SCREEN_SCALE;
                    let tile_col = (x % slot) / SCREEN_SCALE;
                    proof {
                        assert(buffer_idx / 974 == buffer_row && buffer_idx % 974 == buffer_col)
                            by (nonlinear_arith)
                            requires
                                buffer_idx == buffer_row * 974 + buffer_col,
                                buffer_col < 974,
                        ;
                        lemma_tile_pixel_range(
                            cpu.memory_bus@,
                            tile_index as int,
                            tile_row as int,
                            tile_col as int,
                        );
                    }
                    let pixel_value = tiles[tile_index].pixels[tile_row][tile_col].to_index();
                    buffer[buffer_idx] = color(pixel_value);
                }
            }
            buffer_col = buffer_col + 1;
        }
        buffer_row = buffer_row + 1;
    }
    assert forall|i: int| i >= 714 * 974 implies !#[trigger] in_tile_view(i / 974, i % 974) by {
        let row = i / 974;
        assert(row >= 714) by (nonlinear_arith)
            requires
                i >= 714 * 974,
                row == i / 974,
        ;
        assert(row / 30 >= 24 || row % 30 >= 24) by (nonlinear_arith)
            requires
                row >= 714,
        ;
    }
}

/// A tile showing a square: a black border, a dark gray frame inside it and a light gray
/// centre.
pub fn create_tile_of_colored_square() -> (tile: Tile)
    ensures
        forall|r: int, c: int|
            0 <= r < 8 && 0 <= c < 8 ==> tile.pixels@[r]@[c] == if r == 0 || r == 7 || c == 0
                || c == 7 {
                TilePixelValue::Three
            } else if r == 1 || r == 6 || c == 1 || c == 6 {
                TilePixelValue::Two
            } else {
                TilePixelValue::One
            },
{
    let mut tile = Tile::new();
    let mut row: usize = 0;
    while row < 8
        invariant
            row <= 8,
            forall|r: int, c: int|
                0 <= r < row && 0 <= c < 8 ==> tile.pixels@[r]@[c] == if r == 0 || r == 7 || c
                    == 0 || c == 7 {
                    TilePixelValue::Three
                } else if r == 1 || r == 6 || c == 1 || c == 6 {
                    TilePixelValue::Two
                } else {
                    TilePixelValue::One
                },
        decreases 8 - row,
    {
        let mut pixels_row = [TilePixelValue::Zero;8];
        let mut col: usize = 0;
        while col < 8
            invariant
                row < 8,
                col <= 8,
                forall|c: int|
                    0 <= c < col ==> pixels_row@[c] == if row == 0 || row == 7 || c == 0 || c
                        == 7 {
                        TilePixelValue::Three
                    } else if row == 1 || row == 6 || c == 1 || c == 6 {
                        TilePixelValue::Two
                    } else {
                        TilePixelValue::One
                    },
            decreases 8 - col,
        {
            let pixel = if row == 0 || row == 7 || col == 0 || col == 7 {
                TilePixelValue::Three
            } else if row == 1 || row == 6 || col == 1 || col == 6 {
                TilePixelValue::Two
            } else {
                TilePixelValue::One
            };
            pixels_row[col] = pixel;
            col = col + 1;
        }
        tile.pixels[row] = pixels_row;
        row = row + 1;
    }
    tile
}

/// The buffer index that step `k` (0-575) of `render_tile_to_buffer` writes: tile pixel
/// (k / 72, (k / 9) % 8), scaled to 3x3 with offsets ((k / 3) % 3, k % 3), in a buffer of rows
/// of 480 entries.
pub open spec fn render_step_index(start_row: int, start_col: int, k: int) -> int {
    ((start_row + k / 72) * 3 + (k / 3) % 3) * 480 + (start_col + (k / 9) % 8) * 3 + k % 3
}

/// The buffer after the first `k` steps of `render_tile_to_buffer`: each step stores the
/// colour of its tile pixel at its index, when that index is inside the buffer.
pub open spec fn rendered_tile(
    buffer: Seq<u32>,
    tile: Tile,
    start_row: int,
    start_col: int,
    k: nat,
) -> Seq<u32>
    decreases k,
{
    if k == 0 {
        buffer
    } else {
        let previous = rendered_tile(buffer, tile, start_row, start_col, (k - 1) as nat);
        let step = k - 1;
        let index = render_step_index(start_row, start_col, step);
        if index < previous.len() {
            previous.update(
                index,
                spec_color(tile.pixels@[step / 72]@[(step / 9) % 8].spec_index()),
            )
        } else {
            previous
        }
    }
}

/// Draws a tile into a buffer of rows of 160 * 3 entries, its top-left pixel at tile-pixel
/// position (`start_row`, `start_col`), each pixel scaled to 3x3; entries past the end of the
/// buffer are skipped. Pixels whose scaled column passes the end of a row continue on the next
/// row, where later writes win.
pub fn render_tile_to_buffer(tile: &Tile, buffer: &mut [u32], start_row: usize, start_col: usize)
    requires
        (start_row + 7) * 1440 + 960 + (start_col + 7) * 3 + 2 <= usize::MAX,
    ensures
        final(buffer)@ == rendered_tile(
            old(buffer)@,
            *tile,
            start_row as int,
            start_col as int,
            576,
        ),
{
    let mut row: usize = 0;
    while row < TILE_SIZE
        invariant
            row <= TILE_SIZE,
            (start_row + 7) * 1440 + 960 + (start_col + 7) * 3 + 2 <= usize::MAX,
            buffer@ == rendered_tile(
                old(buffer)@,
                *tile,
                start_row as int,
                start_col as int,
                (row * 72) as nat,
            ),
        decreases TILE_SIZE - row,
    {
        let mut col: usize = 0;
        while col < TILE_SIZE
            invariant
                row < TILE_SIZE,
                col <= TILE_SIZE,
                (start_row + 7) * 1440 + 960 + (start_col + 7) * 3 + 2 <= usize::MAX,
                buffer@ == rendered_tile(
                    old(buffer)@,
                    *tile,
                    start_row as int,
                    start_col as int,
                    (row * 72 + col * 9) as nat,
                ),
            decreases TILE_SIZE - col,
        {
            let pixel_value = tile.pixels[row][col].to_index();
            let color_value = color(pixel_value);
            let screen_row = start_row + row;
            let screen_col = start_col + col;
            let mut scale_row: usize = 0;
            while scale_row < SCREEN_SCALE
                invariant
                    row < TILE_SIZE,
                    col < TILE_SIZE,
                    scale_row <= SCREEN_SCALE,
                    screen_row == start_row + row,
                    screen_col == start_col + col,
                    color_value == spec_color(tile.pixels@[row as int]@[col as int].spec_index()),
                    (start_row + 7) * 1440 + 960 + (start_col + 7) * 3 + 2 <= usize::MAX,
                    buffer@ == rendered_tile(
                        old(buffer)@,
                        *tile,
                        start_row as int,
                        start_col as int,
                        (row * 72 + col * 9 + scale_row * 3) as nat,
                    ),
                decreases SCREEN_SCALE - scale_row,
            {
                let mut scale_col: usize = 0;
                while scale_col < SCREEN_SCALE
                    invariant
                        row < TILE_SIZE,
                        col < TILE_SIZE,
                        scale_row < SCREEN_SCALE,
                        scale_col <= SCREEN_SCALE,
                        screen_row == start_row + row,
                        screen_col == start_col + col,
                        color_value == spec_color(
                            tile.pixels@[row as int]@[col as int].spec_index(),
                        ),
                        (start_row + 7) * 1440 + 960 + (start_col + 7) * 3 + 2 <= usize::MAX,
                        buffer@ == rendered_tile(
                            old(buffer)@,
                            *tile,
                            start_row as int,
                            start_col as int,
                            (row * 72 + col * 9 + scale_row * 3 + scale_col) as nat,
                        ),
                    decreases SCREEN_SCALE - scale_col,
                {
                    let ghost step: int = row * 72 + col * 9 + scale_row * 3 + scale_col;
                    proof {
                        assert(step / 72 == row && (step / 9) % 8 == col && (step / 3) % 3
                            == scale_row && step % 3 == scale_col) by (nonlinear_arith)
                            requires
                                step == row * 72 + col * 9 + scale_row * 3 + scale_col,
                                row < 8,
                                col < 8,
                                scale_row < 3,
                                scale_col < 3,
                        ;
                        assert(screen_row * 3 + scale_row <= (start_row + 7) * 3 + 2);
                        assert((screen_row * 3 + scale_row) * 480 <= (start_row + 7) * 1440 + 960)
                            by (nonlinear_arith)
                            requires
                                screen_row * 3 + scale_row <= (start_row + 7) * 3 + 2,
                        ;
                    }
                    let buffer_row = screen_row * SCREEN_SCALE + scale_row;
                    let buffer_col = screen_col * SCREEN_SCALE + scale_col;
                    let buffer_idx = buffer_row * (GAME_SECTION_WIDTH * SCREEN_SCALE) + buffer_col;
                    if buffer_idx < buffer.len() {
                        buffer[buffer_idx] = color_value;
                    }
                    scale_col = scale_col + 1;
                }
                scale_row = scale_row + 1;
            }
            col = col + 1;
        }
        row = row + 1;
    }
}

} // verus!
