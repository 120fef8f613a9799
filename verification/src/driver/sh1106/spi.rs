//! The SH1106 on the serial peripheral bus: pins and bus set-up, the
//! command/data framing of a transfer, and the transfers that configure the
//! panel.

use vstd::prelude::*;
use crate::blinky::{pin_bit, GpioConfig, GpioMode};
use crate::esp_idf::gpio_num_t;

verus! {

/// Pins of the display on the serial peripheral bus.
#[derive(Copy, Clone, Debug, PartialEq, Eq, Structural)]
pub struct Pins {
    /// Chip select.
    pub csel: gpio_num_t,
    /// Clock.
    pub sclk: gpio_num_t,
    /// Data to the display.
    pub mosi: gpio_num_t,
    /// Data/command select.
    pub dc: gpio_num_t,
}

impl Pins {
    /// The default wiring: chip select on pin 5, clock on pin 18, data on
    /// pin 23 and data/command select on pin 19.
    pub fn new() -> (pins: Pins)
        ensures
            pins == (Pins { csel: 5, sclk: 18, mosi: 23, dc: 19 }),
    {
        Pins { csel: 5, sclk: 18, mosi: 23, dc: 19 }
    }
}

/// What a transfer carries.
#[derive(Copy, Clone, Debug, PartialEq, Eq, Structural)]
pub enum Mode {
    /// Commands: the data/command line is low.
    Command,
    /// Display data: the data/command line is high.
    Data,
}

impl Mode {
    /// The level of the data/command line for this mode.
    pub open spec fn level(self) -> u8 {
        match self {
            Mode::Command => 0,
            Mode::Data => 1,
        }
    }

    /// The level of the data/command line for this mode.
    pub fn into(self) -> (level: u8)
        ensures
            level == self.level(),
    {
        match self {
            Mode::Command => 0,
            Mode::Data => 1,
        }
    }

    /// The mode of which `number` is the line level, if there is one.
    pub fn try_from(number: u8) -> (mode: Option<Mode>)
        ensures
            number == 0 ==> mode == Some(Mode::Command),
            number == 1 ==> mode == Some(Mode::Data),
            number > 1 ==> mode is None,
            mode matches Some(m) ==> m.level() == number,
    {
        if number == 0 {
            Some(Mode::Command)
        } else if number == 1 {
            Some(Mode::Data)
        } else {
            None
        }
    }
}

/// How the panel is powered.
#[allow(non_camel_case_types)]
#[derive(Copy, Clone, Debug, PartialEq, Eq, Structural)]
pub enum Power {
    /// The panel voltage is supplied from outside.
    EXTERNALVCC,
    /// The panel voltage comes from the built-in charge pump.
    SWITCHCAPVCC,
}

/// Commands of the display controller.
#[allow(non_camel_case_types)]
#[derive(Copy, Clone, Debug, PartialEq, Eq, Structural)]
pub enum Register {
    /// Set the contrast; the level follows.
    SETCONTRAST,
    /// Show the display memory.
    DISPLAYALLON_RESUME,
    /// Light every pixel.
    DISPLAYALLON,
    /// Lit bits are lit pixels.
    NORMALDISPLAY,
    /// Lit bits are dark pixels.
    INVERTDISPLAY,
    /// Switch the panel off.
    DISPLAYOFF,
    /// Switch the panel on.
    DISPLAYON,
    /// Set the vertical offset; the offset follows.
    SETDISPLAYOFFSET,
    /// Set the row pin configuration; the configuration follows.
    SETCOMPINS,
    /// Set the deselect level; the level follows.
    SETVCOMDETECT,
    /// Set the clock divider; the ratio follows.
    SETDISPLAYCLOCKDIV,
    /// Set the pre-charge period; the period follows.
    SETPRECHARGE,
    /// Set the multiplex ratio; the ratio follows.
    SETMULTIPLEX,
    /// Set the lower column address.
    SETLOWCOLUMN,
    /// Set the higher column address.
    SETHIGHCOLUMN,
    /// Set the start line.
    SETSTARTLINE,
    /// Set the page address; the page is added.
    SETPAGEADDRESS,
    /// Set the addressing mode; the mode follows.
    MEMORYMODE,
    /// Set the column address range.
    COLUMNADDR,
    /// Set the page address range.
    PAGEADDR,
    /// Scan the rows upwards.
    COMSCANINC,
    /// Scan the rows downwards.
    COMSCANDEC,
    /// Map the columns left to right.
    SEGREMAP,
    /// Set the charge pump; the setting follows.
    CHARGEPUMP,
}

impl Register {
    /// The command byte.
    pub open spec fn code(self) -> u8 {
        match self {
            Register::SETCONTRAST => 0x81,
            Register::DISPLAYALLON_RESUME => 0xA4,
            Register::DISPLAYALLON => 0xA5,
            Register::NORMALDISPLAY => 0xA6,
            Register::INVERTDISPLAY => 0xA7,
            Register::DISPLAYOFF => 0xAE,
            Register::DISPLAYON => 0xAF,
            Register::SETDISPLAYOFFSET => 0xD3,
            Register::SETCOMPINS => 0xDA,
            Register::SETVCOMDETECT => 0xDB,
            Register::SETDISPLAYCLOCKDIV => 0xD5,
            Register::SETPRECHARGE => 0xD9,
            Register::SETMULTIPLEX => 0xA8,
            Register::SETLOWCOLUMN => 0x02,
            Register::SETHIGHCOLUMN => 0x10,
            Register::SETSTARTLINE => 0x40,
            Register::SETPAGEADDRESS => 0xB0,
            Register::MEMORYMODE => 0x20,
            Register::COLUMNADDR => 0x21,
            Register::PAGEADDR => 0x22,
            Register::COMSCANINC => 0xC0,
            Register::COMSCANDEC => 0xC8,
            Register::SEGREMAP => 0xA0,
            Register::CHARGEPUMP => 0x8D,
        }
    }

    /// The command byte.
    pub fn into(self) -> (code: u8)
        ensures
            code == self.code(),
    {
        match self {
            Register::SETCONTRAST => 0x81,
            Register::DISPLAYALLON_RESUME => 0xA4,
            Register::DISPLAYALLON => 0xA5,
            Register::NORMALDISPLAY => 0xA6,
            Register::INVERTDISPLAY => 0xA7,
            Register::DISPLAYOFF => 0xAE,
            Register::DISPLAYON => 0xAF,
            Register::SETDISPLAYOFFSET => 0xD3,
            Register::SETCOMPINS => 0xDA,
            Register::SETVCOMDETECT => 0xDB,
            Register::SETDISPLAYCLOCKDIV => 0xD5,
            Register::SETPRECHARGE => 0xD9,
            Register::SETMULTIPLEX => 0xA8,
            Register::SETLOWCOLUMN => 0x02,
            Register::SETHIGHCOLUMN => 0x10,
            Register::SETSTARTLINE => 0x40,
            Register::SETPAGEADDRESS => 0xB0,
            Register::MEMORYMODE => 0x20,
            Register::COLUMNADDR => 0x21,
            Register::PAGEADDR => 0x22,
            Register::COMSCANINC => 0xC0,
            Register::COMSCANDEC => 0xC8,
            Register::SEGREMAP => 0xA0,
            Register::CHARGEPUMP => 0x8D,
        }
    }
}

/// Pixels per row of the panel, and bytes per page.
pub const WIDTH: usize = 128;

/// Pages of the panel.
pub const PAGES: usize = 8;

/// Largest transfer on the bus, in bytes.
pub const MAX_TRANSFER_SZ: i32 = 128;

/// Marks a bus signal that is not connected.
pub const GPIO_NUM_NC: i32 = -1;

/// Configuration of the bus, as its driver takes it.
#[derive(Copy, Clone, Debug, PartialEq, Eq, Structural)]
pub struct BusConfig {
    /// Clock pin.
    pub sclk_io_num: i32,
    /// Pin of the data to the display.
    pub mosi_io_num: i32,
    /// Pin of the data from the display.
    pub miso_io_num: i32,
    /// Write-protect pin of a four-line bus.
    pub quadwp_io_num: i32,
    /// Hold pin of a four-line bus.
    pub quadhd_io_num: i32,
    /// Largest transfer in bytes.
    pub max_transfer_sz: i32,
}

/// Configuration of the display as a device on the bus.
#[derive(Copy, Clone, Debug, PartialEq, Eq, Structural)]
pub struct DeviceConfig {
    /// Clock in Hz.
    pub clock_speed_hz: i32,
    /// Clock polarity and phase.
    pub mode: u8,
    /// Chip select pin.
    pub spics_io_num: i32,
    /// Transactions that can be queued.
    pub queue_size: i32,
}

/// All that the set-up of the bus needs.
#[derive(Copy, Clone, Debug, PartialEq, Eq, Structural)]
pub struct Setup {
    /// Chip select and data/command select as outputs.
    pub gpio: GpioConfig,
    /// The bus.
    pub bus: BusConfig,
    /// The DMA channel of the bus.
    pub dma_channel: i32,
    /// The display on the bus.
    pub device: DeviceConfig,
}

/// The set-up of the bus for a display wired to `pins`: chip select and
/// data/command select become plain outputs, their two bits joined in the
/// pin mask; the bus has a clock and one data line; the display is clocked
/// at 4 MHz.
pub fn init(pins: Pins) -> (setup: Setup)
    requires
        0 <= pins.csel < 64,
        0 <= pins.dc < 64,
    ensures
        setup.gpio == (GpioConfig {
            pin_bit_mask: (pin_bit(pins.csel as u32) as u64) | (pin_bit(pins.dc as u32) as u64),
            mode: GpioMode::Output,
            pull_up_en: false,
            pull_down_en: false,
            intr_enabled: false,
        }),
        setup.bus == (BusConfig {
            sclk_io_num: pins.sclk,
            mosi_io_num: pins.mosi,
            miso_io_num: GPIO_NUM_NC,
            quadwp_io_num: GPIO_NUM_NC,
            quadhd_io_num: GPIO_NUM_NC,
            max_transfer_sz: MAX_TRANSFER_SZ,
        }),
        setup.dma_channel == 1,
        setup.device == (DeviceConfig {
            clock_speed_hz: 4_000_000,
            mode: 0,
            spics_io_num: pins.csel,
            queue_size: 2,
        }),
{
    let csel = pins.csel as u64;
    let dc = pins.dc as u64;
    let mask: u64 = (1u64 << csel) | (1u64 << dc);
    proof {
        vstd::bits::lemma_u64_pow2_no_overflow(csel as nat);
        vstd::bits::lemma_u64_shl_is_mul(1u64, csel);
        vstd::bits::lemma_u64_pow2_no_overflow(dc as nat);
        vstd::bits::lemma_u64_shl_is_mul(1u64, dc);
    }
    Setup {
        gpio: GpioConfig {
            pin_bit_mask: mask,
            mode: GpioMode::Output,
            pull_up_en: false,
            pull_down_en: false,
            intr_enabled: false,
        },
        bus: BusConfig {
            sclk_io_num: pins.sclk,
            mosi_io_num: pins.mosi,
            miso_io_num: GPIO_NUM_NC,
            quadwp_io_num: GPIO_NUM_NC,
            quadhd_io_num: GPIO_NUM_NC,
            max_transfer_sz: MAX_TRANSFER_SZ,
        },
        dma_channel: 1,
        device: DeviceConfig {
            clock_speed_hz: 4_000_000,
            mode: 0,
            spics_io_num: pins.csel,
            queue_size: 2,
        },
    }
}

/// What a bus transaction is told beside its bytes.
#[derive(Copy, Clone, Debug, PartialEq, Eq)]
pub struct Transaction {
    /// Length of the transfer in bits.
    pub length: usize,
    /// The data/command pin and the level it takes before the transfer.
    pub user: [u8; 2],
}

/// The transaction that sends `length` bytes in `mode` to a display whose
/// data/command pin is `gpio_dc`.
pub fn transmit(gpio_dc: u8, length: usize, mode: Mode) -> (transaction: Transaction)
    requires
        length * 8 <= usize::MAX,
    ensures
        transaction.length == length * 8,
        transaction.user@ == seq![gpio_dc, mode.level()],
{
    let user = [gpio_dc, mode.into()];
    assert(user@ =~= seq![gpio_dc, mode.level()]);
    Transaction { length: length * 8, user }
}

/// Reads back what a transaction was told: the data/command pin and the
/// level to give it. There is none when the second byte is no mode.
pub fn pre_transfer(user: [u8; 2]) -> (line: Option<(u8, u32)>)
    ensures
        user[1] <= 1 ==> line == Some((user[0], user[1] as u32)),
        user[1] > 1 ==> line is None,
{
    match Mode::try_from(user[1]) {
        Some(mode) => {
            let level: u8 = mode.into();
            Some((user[0], level as u32))
        },
        None => None,
    }
}

/// One transfer to the display.
#[derive(Debug, PartialEq, Eq)]
pub struct Transfer {
    /// Whether the bytes are commands or display data.
    pub mode: Mode,
    /// The bytes.
    pub bytes: Vec<u8>,
}

impl View for Transfer {
    type V = (Mode, Seq<u8>);

    open spec fn view(&self) -> (Mode, Seq<u8>) {
        (self.mode, self.bytes@)
    }
}

/// The transfers of `plan` as values.
pub open spec fn views(plan: Seq<Transfer>) -> Seq<(Mode, Seq<u8>)> {
    plan.map_values(|t: Transfer| t@)
}

/// The configuration commands for a panel powered by `vcc`, in order.
pub open spec fn commands_spec(vcc: Power) -> Seq<u8> {
    seq![
        Register::DISPLAYOFF.code(),
        Register::SETLOWCOLUMN.code(),
        Register::SETHIGHCOLUMN.code(),
        Register::SETSTARTLINE.code(),
        Register::SETCONTRAST.code(),
        if vcc == Power::EXTERNALVCC { 0x9fu8 } else { 0xcfu8 },
        Register::SEGREMAP.code(),
        Register::COMSCANINC.code(),
        Register::NORMALDISPLAY.code(),
        Register::SETMULTIPLEX.code(),
        0x3Fu8,
        Register::SETDISPLAYOFFSET.code(),
        0x00u8,
        Register::SETDISPLAYCLOCKDIV.code(),
        0x80u8,
        Register::SETPRECHARGE.code(),
        if vcc == Power::EXTERNALVCC { 0x22u8 } else { 0xf1u8 },
        Register::CHARGEPUMP.code(),
        if vcc == Power::EXTERNALVCC { 0x10u8 } else { 0x14u8 },
        Register::SETCOMPINS.code(),
        0x12u8,
        Register::SETVCOMDETECT.code(),
        0x40u8,
        Register::MEMORYMODE.code(),
        0x02u8,
        Register::DISPLAYALLON_RESUME.code(),
        Register::NORMALDISPLAY.code(),
        Register::DISPLAYON.code(),
    ]
}

/// The configuration commands for a panel powered by `vcc`, in order.
pub fn commands(vcc: Power) -> (commands: Vec<u8>)
    ensures
        commands@ == commands_spec(vcc),
{
    let external = match vcc {
        Power::EXTERNALVCC => true,
        Power::SWITCHCAPVCC => false,
    };
    let commands = vec![
        Register::DISPLAYOFF.into(),
        Register::SETLOWCOLUMN.into(),
        Register::SETHIGHCOLUMN.into(),
        Register::SETSTARTLINE.into(),
        Register::SETCONTRAST.into(),
        if external { 0x9fu8 } else { 0xcfu8 },
        Register::SEGREMAP.into(),
        Register::COMSCANINC.into(),
        Register::NORMALDISPLAY.into(),
        Register::SETMULTIPLEX.into(),
        0x3Fu8,
        Register::SETDISPLAYOFFSET.into(),
        0x00u8,
        Register::SETDISPLAYCLOCKDIV.into(),
        0x80u8,
        Register::SETPRECHARGE.into(),
        if external { 0x22u8 } else { 0xf1u8 },
        Register::CHARGEPUMP.into(),
        if external { 0x10u8 } else { 0x14u8 },
        Register::SETCOMPINS.into(),
        0x12u8,
        Register::SETVCOMDETECT.into(),
        0x40u8,
        Register::MEMORYMODE.into(),
        0x02u8,
        Register::DISPLAYALLON_RESUME.into(),
        Register::NORMALDISPLAY.into(),
        Register::DISPLAYON.into(),
    ];
    assert(commands@ =~= commands_spec(vcc));
    commands
}

/// The transfers that fill page `page` with `data`: the page address, the
/// column address in two halves and the start line as commands, then the
/// data.
pub open spec fn page_spec(page: int, data: Seq<u8>) -> Seq<(Mode, Seq<u8>)> {
    seq![
        (Mode::Command, seq![(0xb0 + page) as u8]),
        (Mode::Command, seq![Register::SETLOWCOLUMN.code()]),
        (Mode::Command, seq![Register::SETHIGHCOLUMN.code()]),
        (Mode::Command, seq![Register::SETSTARTLINE.code()]),
        (Mode::Data, data),
    ]
}

/// The transfers that fill the first `n` pages, page `p` with `data(p)`, in
/// the order of the pages.
pub open spec fn pages_spec(n: nat, data: spec_fn(int) -> Seq<u8>) -> Seq<(Mode, Seq<u8>)>
    decreases n,
{
    if n == 0 {
        Seq::empty()
    } else {
        pages_spec((n - 1) as nat, data) + page_spec(n - 1, data(n - 1))
    }
}

/// One command byte per transfer.
pub open spec fn commands_plan(commands: Seq<u8>) -> Seq<(Mode, Seq<u8>)> {
    Seq::new(commands.len(), |k: int| (Mode::Command, seq![commands[k]]))
}

/// The test pattern of a page: a full column every eighth column, the top
/// pixel elsewhere.
pub open spec fn pattern_spec() -> Seq<u8> {
    Seq::new(WIDTH as nat, |x: int| if x % 8 == 0 { 255u8 } else { 1u8 })
}

/// A page of dark pixels.
pub open spec fn blank_spec() -> Seq<u8> {
    Seq::new(WIDTH as nat, |x: int| 0u8)
}

/// The transfers that configure the panel: the configuration commands for
/// the built-in charge pump, then every page blanked, then every page filled
/// with the test pattern.
pub open spec fn configure_spec() -> Seq<(Mode, Seq<u8>)> {
    commands_plan(commands_spec(Power::SWITCHCAPVCC)) + pages_spec(
        PAGES as nat,
        |p: int| blank_spec(),
    ) + pages_spec(PAGES as nat, |p: int| pattern_spec())
}

fn command(plan: &mut Vec<Transfer>, byte: u8)
    ensures
        views(final(plan)@) == views(old(plan)@).push((Mode::Command, seq![byte])),
{
    let bytes = vec![byte];
    assert(bytes@ =~= seq![byte]);
    plan.push(Transfer { mode: Mode::Command, bytes });
    assert(views(plan@) =~= views(old(plan)@).push((Mode::Command, seq![byte])));
}

/// Appends to `plan` the transfers that fill page `page` with `data`.
pub fn push_page(plan: &mut Vec<Transfer>, page: usize, data: Vec<u8>)
    requires
        page < PAGES,
    ensures
        views(final(plan)@) == views(old(plan)@) + page_spec(page as int, data@),
{
    let page_address = (0xb0 + page) as u8;
    command(plan, page_address);
    command(plan, Register::SETLOWCOLUMN.into());
    command(plan, Register::SETHIGHCOLUMN.into());
    command(plan, Register::SETSTARTLINE.into());
    let ghost before = views(plan@);
    plan.push(Transfer { mode: Mode::Data, bytes: data });
    assert(views(plan@) =~= before.push((Mode::Data, data@)));
    assert(views(plan@) =~= views(old(plan)@) + page_spec(page as int, data@));
}

fn page_of(blank: bool) -> (page: Vec<u8>)
    ensures
        page@ == (if blank {
            blank_spec()
        } else {
            pattern_spec()
        }),
{
    let mut page: Vec<u8> = Vec::new();
    let mut x: usize = 0;
    while x < WIDTH
        invariant
            x <= WIDTH,
            page@.len() == x,
            forall|i: int|
                0 <= i < x ==> page@[i] == (if blank {
                    0u8
                } else if i % 8 == 0 {
                    255u8
                } else {
                    1u8
                }),
        decreases WIDTH - x,
    {
        let byte: u8 = if blank {
            0
        } else if x % 8 == 0 {
            255
        } else {
            1
        };
        page.push(byte);
        x += 1;
    }
    assert(blank ==> page@ =~= blank_spec());
    assert(!blank ==> page@ =~= pattern_spec());
    page
}

fn push_pages(plan: &mut Vec<Transfer>, blank: bool)
    ensures
        views(final(plan)@) == views(old(plan)@) + pages_spec(
            PAGES as nat,
            |p: int|
                if blank {
                    blank_spec()
                } else {
                    pattern_spec()
                },
        ),
{
    let ghost data = |p: int|
        if blank {
            blank_spec()
        } else {
            pattern_spec()
        };
    let mut page: usize = 0;
    assert(views(plan@) =~= views(old(plan)@) + pages_spec(0, data));
    while page < PAGES
        invariant
            page <= PAGES,
            data == (|p: int|
                if blank {
                    blank_spec()
                } else {
                    pattern_spec()
                }),
            views(plan@) == views(old(plan)@) + pages_spec(page as nat, data),
        decreases PAGES - page,
    {
        let ghost before = views(plan@);
        push_page(plan, page, page_of(blank));
        assert(pages_spec((page + 1) as nat, data) == pages_spec(page as nat, data) + page_spec(
            page as int,
            data(page as int),
        ));
        assert(views(plan@) =~= views(old(plan)@) + pages_spec((page + 1) as nat, data));
        page += 1;
    }
}

/// The transfers that configure the panel, in order.
pub fn configure() -> (plan: Vec<Transfer>)
    ensures
        views(plan@) == configure_spec(),
{
    let commands = commands(Power::SWITCHCAPVCC);
    let mut plan: Vec<Transfer> = Vec::new();
    let mut k: usize = 0;
    assert(views(plan@) =~= Seq::new(0, |k: int| (Mode::Command, seq![commands@[k]])));
    while k < commands.len()
        invariant
            k <= commands@.len(),
            views(plan@) == Seq::new(k as nat, |i: int| (Mode::Command, seq![commands@[i]])),
        decreases commands@.len() - k,
    {
        command(&mut plan, commands[k]);
        assert(views(plan@) =~= Seq::new(
            (k + 1) as nat,
            |i: int| (Mode::Command, seq![commands@[i]]),
        ));
        k += 1;
    }
    assert(views(plan@) =~= commands_plan(commands_spec(Power::SWITCHCAPVCC)));
    push_pages(&mut plan, true);
    assert((|p: int| if true { blank_spec() } else { pattern_spec() }) =~= (|p: int| blank_spec()));
    push_pages(&mut plan, false);
    assert((|p: int| if false { blank_spec() } else { pattern_spec() }) =~= (|p: int|
        pattern_spec()));
    plan
}

} // verus!
