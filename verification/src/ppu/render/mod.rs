//! The frame-at-a-time rasteriser: walks the latched nametable, decodes
//! attribute bytes into palette quadrants, and paints background then
//! sprites, honouring scroll split and sprite flips.

use vstd::prelude::*;

pub mod frame;
pub mod palette;

verus! {

use crate::cartridge::{Cartridge, Mirroring};
use crate::ppu::Ppu;
use frame::Frame;
use palette::system_palette_colour;

/// The four background palette entries for a tile: the 2-bit quadrant index
/// from the attribute byte picks which group of palette RAM supplies them.
pub fn background_palette(ppu: &Ppu, nametable_base: usize, tile_column: usize, tile_row: usize) -> (r: [u8; 4])
    requires
        ppu.wf(),
        nametable_base <= 0x400,
        tile_column < 32,
        tile_row < 30,
    ensures
        r@.len() == 4,
        r@[0] == ppu.palette_table@[0],
{
    let attr_table_idx: usize = tile_row / 4 * 8 + tile_column / 4;
    let attr_byte = ppu.vram[nametable_base + 0x3C0 + attr_table_idx];

    let quadrant_col = tile_column % 4 / 2;
    let quadrant_row = tile_row % 4 / 2;
    let palette_idx: usize = if quadrant_col == 0 && quadrant_row == 0 {
        (attr_byte & 0x03) as usize
    } else if quadrant_col == 1 && quadrant_row == 0 {
        ((attr_byte >> 2) & 0x03) as usize
    } else if quadrant_col == 0 && quadrant_row == 1 {
        ((attr_byte >> 4) & 0x03) as usize
    } else {
        ((attr_byte >> 6) & 0x03) as usize
    };
    proof {
        let b = attr_byte;
        assert((b & 0x03) < 4 && ((b >> 2) & 0x03) < 4 && ((b >> 4) & 0x03) < 4 && ((b >> 6)
            & 0x03) < 4) by (bit_vector);
    }

    let palette_start: usize = 1 + palette_idx * 4;
    [
        ppu.palette_table[0],
        ppu.palette_table[palette_start],
        ppu.palette_table[palette_start + 1],
        ppu.palette_table[palette_start + 2],
    ]
}

/// The three colour entries of one sprite palette; entry 0 is transparent.
pub fn sprite_palette(ppu: &Ppu, palette_idx: u8) -> (r: [u8; 4])
    requires
        ppu.wf(),
        palette_idx < 4,
    ensures
        r@.len() == 4,
        r@[0] == 0u8,
{
    let start: usize = 0x11 + (palette_idx as usize) * 4;
    [0, ppu.palette_table[start], ppu.palette_table[start + 1], ppu.palette_table[start + 2]]
}

/// The part of the frame a nametable may paint.
struct Viewport {
    x1: usize,
    y1: usize,
    x2: usize,
    y2: usize,
}

/// Paints one nametable through a viewport, shifted by the scroll split.
fn render_background_nametable(
    ppu: &Ppu,
    cart: &mut Cartridge,
    out: &mut Frame,
    nametable_base: usize,
    viewport: Viewport,
    shift_x: i32,
    shift_y: i32,
)
    requires
        ppu.wf(),
        old(out).wf(),
        nametable_base <= 0x400,
        -256 <= shift_x <= 256,
        -256 <= shift_y <= 256,
    ensures
        final(out).wf(),
        *final(cart) == *old(cart),
{
    let background_bank: u16 = ppu.ctrl.background_pattern_addr();

    let mut i: usize = 0;
    while i < 0x3C0
        invariant
            ppu.wf(),
            out.wf(),
            *cart == *old(cart),
            nametable_base <= 0x400,
            background_bank == 0 || background_bank == 0x1000,
            -256 <= shift_x <= 256,
            -256 <= shift_y <= 256,
            i <= 0x3C0,
        decreases 0x3C0 - i,
    {
        let tile_idx = ppu.vram[nametable_base + i] as u16;
        let tile_column: usize = i % 32;
        let tile_row: usize = i / 32;
        let tile_palette = background_palette(ppu, nametable_base, tile_column, tile_row);

        let mut y: usize = 0;
        while y < 8
            invariant
                ppu.wf(),
                out.wf(),
                *cart == *old(cart),
                tile_idx < 256,
                tile_column < 32,
                tile_row < 30,
                background_bank == 0 || background_bank == 0x1000,
                -256 <= shift_x <= 256,
                -256 <= shift_y <= 256,
                y <= 8,
            decreases 8 - y,
        {
            let mut lower = cart.ppu_read(background_bank + tile_idx * 16 + y as u16);
            let mut upper = cart.ppu_read(background_bank + tile_idx * 16 + y as u16 + 8);

            let mut xi: usize = 0;
            while xi < 8
                invariant
                    ppu.wf(),
                    out.wf(),
                    *cart == *old(cart),
                    tile_column < 32,
                    tile_row < 30,
                    y < 8,
                    -256 <= shift_x <= 256,
                    -256 <= shift_y <= 256,
                    xi <= 8,
                decreases 8 - xi,
            {
                let x: usize = 7 - xi;
                let value: u8 = ((upper & 1) << 1) | (lower & 1);
                lower = lower >> 1;
                upper = upper >> 1;

                let entry: u8 = if value == 0 {
                    tile_palette[0]
                } else if value == 1 {
                    tile_palette[1]
                } else if value == 2 {
                    tile_palette[2]
                } else {
                    tile_palette[3]
                };
                let colour = system_palette_colour(entry);

                let pixel_x: usize = tile_column * 8 + x;
                let pixel_y: usize = tile_row * 8 + y;
                if pixel_x >= viewport.x1 && pixel_x < viewport.x2 && pixel_y >= viewport.y1
                    && pixel_y < viewport.y2 {
                    let sx: i32 = shift_x + pixel_x as i32;
                    let sy: i32 = shift_y + pixel_y as i32;
                    if sx >= 0 && sy >= 0 {
                        out.set_pixel(sx as usize, sy as usize, colour);
                    }
                }
                xi = xi + 1;
            }
            y = y + 1;
        }
        i = i + 1;
    }
}

/// Paints the latched background: the main nametable under the render
/// scroll and, when scrolled, the adjacent nametable filling the gap.
pub fn render_background(ppu: &Ppu, cart: &mut Cartridge, out: &mut Frame)
    requires
        ppu.wf(),
        old(out).wf(),
    ensures
        final(out).wf(),
        *final(cart) == *old(cart),
{
    let scroll_x: usize = ppu.render_scroll_x as usize;
    let scroll_y: usize = ppu.render_scroll_y as usize;

    let nt = ppu.render_nametable_addr;
    let (main_base, secondary_base): (usize, usize) = match cart.mirroring {
        Mirroring::Vertical => {
            if nt == 0x2000 || nt == 0x2800 {
                (0, 0x400)
            } else {
                (0x400, 0)
            }
        },
        Mirroring::Horizontal => {
            if nt == 0x2000 || nt == 0x2400 {
                (0, 0x400)
            } else {
                (0x400, 0)
            }
        },
        Mirroring::SingleScreenLower => (0, 0),
        Mirroring::SingleScreenUpper => (0x400, 0x400),
        Mirroring::FourScreen => (0, 0x400),
    };

    render_background_nametable(
        ppu,
        cart,
        out,
        main_base,
        Viewport { x1: scroll_x, y1: scroll_y, x2: 256, y2: 240 },
        -(scroll_x as i32),
        -(scroll_y as i32),
    );

    if scroll_x > 0 {
        render_background_nametable(
            ppu,
            cart,
            out,
            secondary_base,
            Viewport { x1: 0, y1: 0, x2: scroll_x, y2: 240 },
            (256 - scroll_x) as i32,
            0,
        );
    } else if scroll_y > 0 && scroll_y < 240 {
        render_background_nametable(
            ppu,
            cart,
            out,
            secondary_base,
            Viewport { x1: 0, y1: 0, x2: 256, y2: scroll_y },
            0,
            (240 - scroll_y) as i32,
        );
    }
}

/// Paints the 64 OAM sprites, entry 63 first so lower-numbered sprites
/// occlude higher ones, honouring the flip bits; colour 0 is transparent.
pub fn render_sprites(ppu: &Ppu, cart: &mut Cartridge, out: &mut Frame)
    requires
        ppu.wf(),
        old(out).wf(),
    ensures
        final(out).wf(),
        *final(cart) == *old(cart),
{
    let sprite_bank: u16 = ppu.ctrl.sprite_pattern_addr();

    let mut sprite: usize = 64;
    while sprite > 0
        invariant
            ppu.wf(),
            out.wf(),
            *cart == *old(cart),
            sprite_bank == 0 || sprite_bank == 0x1000,
            sprite <= 64,
        decreases sprite,
    {
        sprite = sprite - 1;
        let i: usize = sprite * 4;

        let tile_idx = ppu.oam_data[i + 1] as u16;
        let tile_x: usize = ppu.oam_data[i + 3] as usize;
        let tile_y: usize = ppu.oam_data[i] as usize;

        let attributes = ppu.oam_data[i + 2];
        let flip_vertical = (attributes >> 7) & 1 == 1;
        let flip_horizontal = (attributes >> 6) & 1 == 1;
        let palette_idx: u8 = attributes & 0x03;
        proof {
            let a = attributes;
            assert((a & 0x03) < 4) by (bit_vector);
        }
        let pal = sprite_palette(ppu, palette_idx);

        let mut y: usize = 0;
        while y < 8
            invariant
                ppu.wf(),
                out.wf(),
                *cart == *old(cart),
                tile_idx < 256,
                tile_x < 256,
                tile_y < 256,
                sprite_bank == 0 || sprite_bank == 0x1000,
                y <= 8,
            decreases 8 - y,
        {
            let mut lower = cart.ppu_read(sprite_bank + tile_idx * 16 + y as u16);
            let mut upper = cart.ppu_read(sprite_bank + tile_idx * 16 + y as u16 + 8);

            let mut xi: usize = 0;
            while xi < 8
                invariant
                    ppu.wf(),
                    out.wf(),
                    *cart == *old(cart),
                    tile_x < 256,
                    tile_y < 256,
                    y < 8,
                    xi <= 8,
                decreases 8 - xi,
            {
                let x: usize = 7 - xi;
                let value: u8 = ((upper & 1) << 1) | (lower & 1);
                lower = lower >> 1;
                upper = upper >> 1;

                if value != 0 {
                    let entry: u8 = if value == 1 {
                        pal[1]
                    } else if value == 2 {
                        pal[2]
                    } else {
                        pal[3]
                    };
                    let colour = system_palette_colour(entry);

                    if !flip_horizontal && !flip_vertical {
                        out.set_pixel(tile_x + x, tile_y + y, colour);
                    } else if flip_horizontal && !flip_vertical {
                        out.set_pixel(tile_x + 7 - x, tile_y + y, colour);
                    } else if !flip_horizontal && flip_vertical {
                        out.set_pixel(tile_x + x, tile_y + 7 - y, colour);
                    } else {
                        out.set_pixel(tile_x + 7 - x, tile_y + 7 - y, colour);
                    }
                }
                xi = xi + 1;
            }
            y = y + 1;
        }
    }
}

/// Paints one whole frame: background first, sprites over it.
pub fn render(ppu: &Ppu, cart: &mut Cartridge, out: &mut Frame)
    requires
        ppu.wf(),
        old(out).wf(),
    ensures
        final(out).wf(),
        *final(cart) == *old(cart),
{
    render_background(ppu, cart, out);
    render_sprites(ppu, cart, out);
}

} // verus!
