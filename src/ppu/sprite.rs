use vstd::prelude::*;

use crate::ppu::palette::{Palettes, Rgb};
use crate::ppu::pattern::{PatternTable, tile_pixel};

verus! {

/// Sprites are 8 by 8 pixels.
pub const SPRITE_WIDTH: u8 = 8;
/// Sprites are 8 by 8 pixels.
pub const SPRITE_HEIGHT: u8 = 8;

/// Attribute byte of an OAM entry.
#[derive(Debug, Clone, Copy, PartialEq, Eq, Structural)]
pub struct SpriteAttribute(pub u8);

impl SpriteAttribute {
    fn palette_index(&self) -> (r: u8)
        ensures
            r == self.0 & 0x3,
            r < 4,
    {
        let v = self.0;
        assert(v & 0x3 < 4) by (bit_vector);
        v & 0x3
    }

    fn filp_horizontally(&self) -> (r: bool)
        ensures
            r == (self.0 & 0x40 != 0),
    {
        (self.0 & 0x40) != 0
    }

    fn filp_vertically(&self) -> (r: bool)
        ensures
            r == (self.0 & 0x80 != 0),
    {
        (self.0 & 0x80) != 0
    }
}

/// One decoded OAM entry.
#[derive(Debug, Clone, Copy, PartialEq, Eq, Structural)]
pub struct Sprite {
    /// first scanline covered (the stored byte plus one)
    pub base_y: u16,
    pub base_x: u8,
    pub tile_index: u8,
    pub attribute: SpriteAttribute,
}

impl Sprite {
    /// Whether scanline `y` crosses the sprite.
    pub open spec fn on_line(&self, y: u8) -> bool {
        self.base_y <= y < self.base_y + SPRITE_HEIGHT
    }

    /// The colour index (0 for transparent or outside) of screen pixel (x, y).
    pub open spec fn pixel(&self, x: u8, y: u8, pattern: Seq<u8>) -> u8 {
        if self.base_x <= x < self.base_x + SPRITE_WIDTH && self.on_line(y) {
            let ix = (x - self.base_x) as u8;
            let iy = (y - self.base_y) as u8;
            let fx = if self.attribute.0 & 0x40 != 0 {
                (7 - ix) as u8
            } else {
                ix
            };
            let fy = if self.attribute.0 & 0x80 != 0 {
                (7 - iy) as u8
            } else {
                iy
            };
            tile_pixel(pattern, self.tile_index, fx, fy)
        } else {
            0
        }
    }

    /// The colour of screen pixel (x, y), `None` where transparent or outside.
    pub open spec fn color_spec(&self, x: u8, y: u8, pattern: Seq<u8>, palette: Palettes) -> Option<
        Rgb,
    > {
        let c = self.pixel(x, y, pattern);
        if c == 0 {
            None
        } else {
            Some(palette.color_spec(0x10, self.attribute.0 & 0x3, c))
        }
    }

    /// Decodes the four OAM bytes `y - 1, tile, attribute, x`.
    pub fn new(d: &[u8]) -> (r: Sprite)
        requires
            d@.len() == 4,
        ensures
            r.base_y == d@[0] + 1,
            r.tile_index == d@[1],
            r.attribute.0 == d@[2],
            r.base_x == d@[3],
    {
        Sprite { base_y: d[0] as u16 + 1, base_x: d[3], tile_index: d[1], attribute: SpriteAttribute(d[2]) }
    }

    /// Whether scanline `y` crosses the sprite.
    pub fn is_render_line(&self, y: u8) -> (r: bool)
        ensures
            r == self.on_line(y),
    {
        self.base_y <= y as u16 && (y as u16) < self.base_y + SPRITE_HEIGHT as u16
    }

    /// The colour of screen pixel (x, y), `None` where transparent or outside.
    pub fn get_color(&self, x: u8, y: u8, pattern: &PatternTable, palette: &Palettes) -> (r: Option<Rgb>)
        requires
            pattern.wf(),
            palette.wf(),
        ensures
            r == self.color_spec(x, y, pattern.memory@, *palette),
    {
        if !(self.base_x <= x && (x as u16) < self.base_x as u16 + SPRITE_WIDTH as u16 && self.is_render_line(y)) {
            return None;
        }
        let ix = x - self.base_x;
        let iy = (y as u16 - self.base_y) as u8;
        let fx = if self.attribute.filp_horizontally() {
            7 - ix
        } else {
            ix
        };
        let fy = if self.attribute.filp_vertically() {
            7 - iy
        } else {
            iy
        };
        let color_index = pattern.get_value(self.tile_index, fx, fy);
        if color_index == 0 {
            return None;
        }
        Some(palette.get_sprite_color(self.attribute.palette_index(), color_index))
    }
}

} // verus!
