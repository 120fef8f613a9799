//! The SH1106 monochrome display, 128 by 64 pixels in eight pages.

use vstd::prelude::*;
use vstd::slice::{slice_subrange, slice_to_vec};
use crate::display::Config;
use crate::driver::Display;
use crate::esp_idf::gpio_num_t;

pub mod i2c;
pub mod spi;

verus! {

/// Geometry of the panel.
pub fn config() -> (config: Config)
    ensures
        config == (Config { width: spi::WIDTH, height: 64, pages: spi::PAGES }),
{
    Config { width: spi::WIDTH, height: 64, pages: spi::PAGES }
}

/// Address of the display on the control bus.
pub const DISPLAY_ADDRESS: u8 = 0x3c;

/// The display's wiring.
pub struct Driver {
    /// Reset pin.
    pub reset_pin: gpio_num_t,
    /// Pins on the control bus.
    pub i2c_pins: crate::i2c::Pins,
    /// Pins on the serial peripheral bus.
    pub spi_pins: spi::Pins,
}

/// The transfers that show `frame_buffer`: page after page, each with the
/// bytes of its row of the frame buffer.
pub open spec fn write_spec(frame_buffer: Seq<u8>) -> Seq<(spi::Mode, Seq<u8>)> {
    spi::pages_spec(
        spi::PAGES as nat,
        |p: int| frame_buffer.subrange(p * spi::WIDTH, (p + 1) * spi::WIDTH),
    )
}

impl Display for Driver {
    type Transfer = spi::Transfer;

    open spec fn idle(&self) -> bool {
        &&& self.reset_pin == 23
        &&& self.i2c_pins == (crate::i2c::Pins { scl: 23, sda: 18 })
        &&& self.spi_pins == (spi::Pins { csel: 5, sclk: 18, mosi: 23, dc: 19 })
    }

    open spec fn holds(frame_buffer: Seq<u8>) -> bool {
        frame_buffer.len() >= spi::PAGES * spi::WIDTH
    }

    open spec fn configures(plan: Seq<spi::Transfer>) -> bool {
        spi::views(plan) == spi::configure_spec()
    }

    open spec fn shows(frame_buffer: Seq<u8>, plan: Seq<spi::Transfer>) -> bool {
        spi::views(plan) == write_spec(frame_buffer)
    }

    fn new() -> (driver: Driver) {
        Driver { reset_pin: 23, i2c_pins: crate::i2c::Pins::new(), spi_pins: spi::Pins::new() }
    }

    fn can_show(frame_buffer: &[u8]) -> (holds: bool) {
        frame_buffer.len() >= spi::PAGES * spi::WIDTH
    }

    fn init(&mut self, config: &Config) -> (plan: Vec<spi::Transfer>) {
        spi::configure()
    }

    fn write(&self, frame_buffer: &[u8]) -> (plan: Vec<spi::Transfer>) {
        let ghost data = |p: int| frame_buffer@.subrange(p * spi::WIDTH, (p + 1) * spi::WIDTH);
        let mut plan: Vec<spi::Transfer> = Vec::new();
        let mut page: usize = 0;
        assert(spi::views(plan@) =~= spi::pages_spec(0, data));
        while page < spi::PAGES
            invariant
                page <= spi::PAGES,
                frame_buffer@.len() >= spi::PAGES * spi::WIDTH,
                data == (|p: int| frame_buffer@.subrange(p * spi::WIDTH, (p + 1) * spi::WIDTH)),
                spi::views(plan@) == spi::pages_spec(page as nat, data),
            decreases spi::PAGES - page,
        {
            let page_start = page * spi::WIDTH;
            let page_end = page_start + spi::WIDTH;
            let page_buffer = slice_to_vec(slice_subrange(frame_buffer, page_start, page_end));
            spi::push_page(&mut plan, page, page_buffer);
            assert(spi::pages_spec((page + 1) as nat, data) == spi::pages_spec(page as nat, data)
                + spi::page_spec(page as int, data(page as int)));
            page += 1;
        }
        plan
    }
}

} // verus!
