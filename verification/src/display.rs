//! The monochrome frame buffer: eight vertically stacked pixels per byte,
//! one row of bytes per page.

use vstd::prelude::*;
use crate::driver;

verus! {

/// Geometry of a display.
#[derive(Copy, Clone, Debug, PartialEq, Eq, Structural)]
pub struct Config {
    /// Pixels per row.
    pub width: usize,
    /// Pixels per column.
    pub height: usize,
    /// Pages, of eight pixel rows each.
    pub pages: usize,
}

/// Colour of a pixel: `1` is lit, anything else is dark.
#[derive(Copy, Clone, Debug, PartialEq, Eq, Structural)]
pub struct CustomPixelColor {
    /// The colour value.
    pub value: u8,
}

impl CustomPixelColor {
    /// The colour with value `color`.
    pub fn new(color: u8) -> (pixel_color: CustomPixelColor)
        ensures
            pixel_color.value == color,
    {
        CustomPixelColor { value: color }
    }
}

impl From<u8> for CustomPixelColor {
    fn from(other: u8) -> (pixel_color: CustomPixelColor) {
        CustomPixelColor { value: other }
    }
}

impl vstd::std_specs::convert::FromSpecImpl<u8> for CustomPixelColor {
    open spec fn obeys_from_spec() -> bool {
        true
    }

    open spec fn from_spec(other: u8) -> CustomPixelColor {
        CustomPixelColor { value: other }
    }
}

/// A pixel to draw.
#[derive(Copy, Clone, Debug, PartialEq, Eq, Structural)]
pub struct Pixel {
    /// Column, from the left.
    pub x: u32,
    /// Row, from the top.
    pub y: u32,
    /// Colour.
    pub color: CustomPixelColor,
}

/// Bit `i` of `byte`.
pub open spec fn bit(byte: u8, i: u8) -> bool {
    (byte >> i) & 1 == 1
}

/// `byte` with bit `i` set when the pixel is `lit` and cleared when it is
/// not.
pub open spec fn with_bit(byte: u8, i: u8, lit: bool) -> u8 {
    if lit {
        byte | (1u8 << i)
    } else {
        byte & !(1u8 << i)
    }
}

/// Changing one bit of a byte changes that bit and no other.
pub proof fn lemma_with_bit(byte: u8, i: u8, lit: bool, j: u8)
    requires
        i < 8,
        j < 8,
    ensures
        bit(with_bit(byte, i, lit), j) == (if j == i {
            lit
        } else {
            bit(byte, j)
        }),
{
    let set = byte | (1u8 << i);
    let cleared = byte & !(1u8 << i);
    assert((((set >> j) & 1) == 1) == (j == i || ((byte >> j) & 1) == 1)) by (bit_vector)
        requires
            set == byte | (1u8 << i),
            i < 8,
            j < 8,
    ;
    assert((((cleared >> j) & 1) == 1) == (j != i && ((byte >> j) & 1) == 1)) by (bit_vector)
        requires
            cleared == byte & !(1u8 << i),
            i < 8,
            j < 8,
    ;
}

/// The pixel at column `x` and row `y` lies on the display.
pub open spec fn visible(config: Config, x: int, y: int) -> bool {
    x < config.width && y < config.height && y / 8 < config.pages
}

/// The frame buffer after `pixel` was drawn: a pixel off the display leaves
/// it as it is; one on the display changes its bit, bit `y % 8` of the byte
/// at column `x` of page `y / 8`.
pub open spec fn drawn(frame_buffer: Seq<u8>, config: Config, pixel: Pixel) -> Seq<u8> {
    if visible(config, pixel.x as int, pixel.y as int) {
        let address = (pixel.y as int / 8) * config.width + pixel.x;
        frame_buffer.update(
            address,
            with_bit(frame_buffer[address], (pixel.y % 8) as u8, pixel.color.value == 1),
        )
    } else {
        frame_buffer
    }
}

/// The frame buffer after `pixels` were drawn one after the other.
pub open spec fn drawn_all(frame_buffer: Seq<u8>, config: Config, pixels: Seq<Pixel>) -> Seq<u8>
    decreases pixels.len(),
{
    if pixels.len() == 0 {
        frame_buffer
    } else {
        drawn(drawn_all(frame_buffer, config, pixels.drop_last()), config, pixels.last())
    }
}

/// A frame buffer together with the geometry that it is drawn with.
pub struct Display {
    /// Geometry of the display.
    pub config: Config,
    /// One byte per column of each page, page after page.
    pub frame_buffer: Vec<u8>,
}

impl Display {
    /// The frame buffer holds every page in full.
    pub open spec fn wf(&self) -> bool {
        self.frame_buffer@.len() >= self.config.pages * self.config.width
    }

    /// A display that draws into `frame_buffer` with the geometry `config`.
    pub fn new(config: Config, frame_buffer: Vec<u8>) -> (display: Display)
        ensures
            display.config == config,
            display.frame_buffer == frame_buffer,
    {
        Display { config, frame_buffer }
    }

    /// Tells whether the frame buffer holds every page in full.
    pub fn is_wf(&self) -> (wf: bool)
        ensures
            wf == self.wf(),
    {
        match self.config.pages.checked_mul(self.config.width) {
            Some(size) => self.frame_buffer.len() >= size,
            None => {
                let len: usize = self.frame_buffer.len();
                false
            },
        }
    }

    /// Darkens every pixel.
    pub fn clear(&mut self)
        ensures
            final(self).config == old(self).config,
            final(self).frame_buffer@ == Seq::new(old(self).frame_buffer@.len(), |i: int| 0u8),
    {
        let mut i: usize = 0;
        while i < self.frame_buffer.len()
            invariant
                self.config == old(self).config,
                self.frame_buffer@.len() == old(self).frame_buffer@.len(),
                i <= self.frame_buffer@.len(),
                forall|j: int| 0 <= j < i ==> self.frame_buffer@[j] == 0u8,
            decreases self.frame_buffer@.len() - i,
        {
            self.frame_buffer[i] = 0;
            i += 1;
        }
        assert(self.frame_buffer@ =~= Seq::new(old(self).frame_buffer@.len(), |i: int| 0u8));
    }

    /// Draws one pixel.
    pub fn draw_pixel(&mut self, pixel: Pixel)
        requires
            old(self).wf(),
        ensures
            final(self).config == old(self).config,
            final(self).frame_buffer@ == drawn(old(self).frame_buffer@, old(self).config, pixel),
            final(self).wf(),
    {
        let x = pixel.x as usize;
        let y = pixel.y as usize;
        if x >= self.config.width || y >= self.config.height {
            return ;
        }
        let page = y / 8;
        if page >= self.config.pages {
            return ;
        }
        let len: usize = self.frame_buffer.len();
        assert(0 <= page * self.config.width && page * self.config.width + x < self.config.pages
            * self.config.width) by (nonlinear_arith)
            requires
                0 <= page < self.config.pages,
                0 <= x < self.config.width,
        ;
        let address = (page * self.config.width) + x;
        let shift = (y % 8) as u8;
        let byte = self.frame_buffer[address];
        if pixel.color.value == 1 {
            self.frame_buffer[address] = byte | (1u8 << shift);
        } else {
            self.frame_buffer[address] = byte & !(1u8 << shift);
        }
    }

    /// Draws `pixels` one after the other.
    pub fn draw(&mut self, pixels: &[Pixel])
        requires
            old(self).wf(),
        ensures
            final(self).config == old(self).config,
            final(self).frame_buffer@ == drawn_all(
                old(self).frame_buffer@,
                old(self).config,
                pixels@,
            ),
            final(self).wf(),
    {
        let mut k: usize = 0;
        while k < pixels.len()
            invariant
                self.wf(),
                self.config == old(self).config,
                k <= pixels@.len(),
                self.frame_buffer@ == drawn_all(
                    old(self).frame_buffer@,
                    old(self).config,
                    pixels@.take(k as int),
                ),
            decreases pixels@.len() - k,
        {
            assert(pixels@.take(k + 1).drop_last() =~= pixels@.take(k as int));
            self.draw_pixel(pixels[k]);
            k += 1;
        }
        assert(pixels@.take(k as int) =~= pixels@);
    }
}

/// Drawing a lit pixel on the display lights exactly that pixel: its bit is
/// set, and the other bits of its byte and every other byte are as before.
pub proof fn lemma_drawn_pixel(frame_buffer: Seq<u8>, config: Config, pixel: Pixel, j: u8)
    requires
        visible(config, pixel.x as int, pixel.y as int),
        frame_buffer.len() >= config.pages * config.width,
        j < 8,
    ensures
        ({
            let address = (pixel.y as int / 8) * config.width + pixel.x;
            let after = drawn(frame_buffer, config, pixel);
            &&& 0 <= address < frame_buffer.len()
            &&& after.len() == frame_buffer.len()
            &&& bit(after[address], j) == (if j == pixel.y % 8 {
                pixel.color.value == 1
            } else {
                bit(frame_buffer[address], j)
            })
            &&& forall|a: int| 0 <= a < frame_buffer.len() && a != address ==> after[a] == frame_buffer[a]
        }),
{
    let page = pixel.y as int / 8;
    let x = pixel.x as int;
    let address = page * config.width + x;
    assert(0 <= page * config.width + x < config.pages * config.width) by (nonlinear_arith)
        requires
            0 <= page < config.pages,
            0 <= x < config.width,
    ;
    lemma_with_bit(frame_buffer[address], (pixel.y % 8) as u8, pixel.color.value == 1, j);
}

/// A display session: the geometry, the display and the frame buffer that
/// is shown on it.
pub struct Interface<D> {
    /// Geometry of the display.
    pub config: Config,
    /// The display.
    pub driver: D,
    /// The frame buffer.
    pub frame_buffer: Vec<u8>,
}

impl<D: driver::Display> Interface<D> {
    /// A session that shows `frame_buffer` on a display in its default
    /// wiring.
    pub fn new(config: Config, frame_buffer: Vec<u8>) -> (interface: Interface<D>)
        ensures
            interface.config == config,
            interface.frame_buffer == frame_buffer,
            interface.driver.idle(),
    {
        Interface { config, driver: D::new(), frame_buffer }
    }

    /// The transfers that configure the panel, in order.
    pub fn start(&mut self) -> (plan: Vec<D::Transfer>)
        ensures
            D::configures(plan@),
            final(self).config == old(self).config,
            final(self).driver == old(self).driver,
            final(self).frame_buffer == old(self).frame_buffer,
    {
        let config = self.config;
        self.driver.init(&config)
    }

    /// The transfers that show the frame buffer, in order.
    pub fn flush(&self) -> (plan: Vec<D::Transfer>)
        requires
            D::holds(self.frame_buffer@),
        ensures
            D::shows(self.frame_buffer@, plan@),
    {
        self.driver.write(self.frame_buffer.as_slice())
    }
}

} // verus!
