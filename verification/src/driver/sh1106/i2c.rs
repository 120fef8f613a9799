//! The SH1106 on the two-wire control bus: the frames of its transactions.

use vstd::prelude::*;
use crate::i2c::{address_byte, address_byte_spec, lsb, ReadFrames};

verus! {

/// A register of the display, of which the low byte selects between command
/// and data.
pub type Register = u16;

/// Selects the command register.
pub const COMMAND: Register = 0x00;

/// Selects the display data.
pub const DATA: Register = 0x40;

/// The three bytes that send `byte` to `register` of the display at
/// `address`: the address byte for a write, the low byte of the register,
/// the byte.
pub fn write(address: u8, register: Register, byte: u8) -> (bytes: [u8; 3])
    ensures
        bytes@ == seq![address_byte_spec(address, false) as u8, (register % 256) as u8, byte],
{
    let bytes = [address_byte(address, false), lsb(register), byte];
    assert(bytes@ =~= seq![address_byte_spec(address, false) as u8, (register % 256) as u8, byte]);
    bytes
}

/// The bytes that send `bytes` to `register` of the display at `address`:
/// the address byte for a write, the low byte of the register, the bytes.
pub fn write_bytes(address: u8, register: Register, bytes: &[u8]) -> (frame: Vec<u8>)
    ensures
        frame@ == seq![address_byte_spec(address, false) as u8, (register % 256) as u8] + bytes@,
{
    let mut frame: Vec<u8> = Vec::new();
    frame.push(address_byte(address, false));
    frame.push(lsb(register));
    let ghost head = frame@;
    let mut i: usize = 0;
    while i < bytes.len()
        invariant
            i <= bytes@.len(),
            frame@ == head + bytes@.take(i as int),
        decreases bytes@.len() - i,
    {
        frame.push(bytes[i]);
        assert(bytes@.take(i + 1) =~= bytes@.take(i as int).push(bytes@[i as int]));
        i += 1;
    }
    assert(bytes@.take(i as int) =~= bytes@);
    assert(head =~= seq![address_byte_spec(address, false) as u8, (register % 256) as u8]);
    frame
}

/// The five bytes that send the 16-bit `value` to the 16-bit `register` of
/// the display at `address`: the address byte for a write, the register and
/// then the value, each most significant byte first.
pub fn write_u16(address: u8, register: Register, value: u16) -> (bytes: [u8; 5])
    ensures
        bytes@ == crate::i2c::write_u16_spec(address, register, value),
{
    crate::i2c::write_u16(address, register, value)
}

/// The bytes that read the 16-bit `register` of the display at `address`.
pub fn read(address: u8, register: Register) -> (frames: ReadFrames)
    ensures
        frames.select@ == seq![
            address_byte_spec(address, false) as u8,
            (register / 256) as u8,
            (register % 256) as u8,
        ],
        frames.restart == address_byte_spec(address, true),
{
    crate::i2c::read(address, register)
}

/// Cycles of one millisecond at the core clock of 168 MHz.
pub const MILLISECOND: u32 = 168_000;

/// What a page is filled with.
#[derive(Copy, Clone, Debug, PartialEq, Eq, Structural)]
pub enum Page {
    /// Dark pixels.
    Blank,
    /// The test pattern: a full column every eighth column, the top pixel
    /// elsewhere.
    Pattern,
}

/// One step of bringing the display up over the control bus.
#[derive(Copy, Clone, Debug, PartialEq, Eq, Structural)]
pub enum Step {
    /// Make the reset pin an output.
    Output,
    /// Drive the reset pin to this level.
    Reset(bool),
    /// Busy-wait this many cycles.
    Delay(u32),
    /// Send this byte to the command register.
    Write(u8),
    /// Send a page of display data.
    Fill(Page),
}

/// The bytes of a page.
pub open spec fn page_spec(page: Page) -> Seq<u8> {
    match page {
        Page::Blank => crate::driver::sh1106::spi::blank_spec(),
        Page::Pattern => crate::driver::sh1106::spi::pattern_spec(),
    }
}

/// The bytes of a page.
pub fn page(fill: Page) -> (bytes: Vec<u8>)
    ensures
        bytes@ == page_spec(fill),
{
    let mut bytes: Vec<u8> = Vec::new();
    let mut x: usize = 0;
    while x < crate::driver::sh1106::spi::WIDTH
        invariant
            x <= crate::driver::sh1106::spi::WIDTH,
            bytes@.len() == x,
            forall|i: int|
                0 <= i < x ==> bytes@[i] == (if fill == Page::Blank {
                    0u8
                } else if i % 8 == 0 {
                    255u8
                } else {
                    1u8
                }),
        decreases crate::driver::sh1106::spi::WIDTH - x,
    {
        let byte: u8 = match fill {
            Page::Blank => 0,
            Page::Pattern => if x % 8 == 0 {
                255
            } else {
                1
            },
        };
        bytes.push(byte);
        x += 1;
    }
    assert(bytes@ =~= page_spec(fill));
    bytes
}

/// The reset pulse: the pin becomes an output and goes high for ten
/// milliseconds, low for two hundred and high for ten.
pub open spec fn reset_spec() -> Seq<Step> {
    seq![
        Step::Output,
        Step::Reset(true),
        Step::Delay((MILLISECOND * 10) as u32),
        Step::Reset(false),
        Step::Delay((MILLISECOND * 200) as u32),
        Step::Reset(true),
        Step::Delay((MILLISECOND * 10) as u32),
    ]
}

/// The configuration commands, in order, with the panel still off.
pub open spec fn commands_spec() -> Seq<u8> {
    seq![
        0xAEu8,
        0x02u8,
        0x10u8,
        0x40u8,
        0x81u8,
        0xA0u8,
        0xC0u8,
        0xA6u8,
        0xA8u8,
        0x3Fu8,
        0xD3u8,
        0x00u8,
        0xD5u8,
        0x80u8,
        0xD9u8,
        0xF1u8,
        0xDAu8,
        0x12u8,
        0xDBu8,
        0x40u8,
        0x20u8,
        0x02u8,
        0xA4u8,
        0xA6u8,
    ]
}

/// The steps that fill the first `n` pages with `page`: for each the page
/// address, the column address in two halves, then the data.
pub open spec fn pages_spec(n: nat, page: Page) -> Seq<Step>
    decreases n,
{
    if n == 0 {
        Seq::empty()
    } else {
        pages_spec((n - 1) as nat, page) + seq![
            Step::Write((0xb0 + (n - 1)) as u8),
            Step::Write(0x02u8),
            Step::Write(0x10u8),
            Step::Fill(page),
        ]
    }
}

/// The steps that bring the display up over the control bus: the reset
/// pulse, the configuration commands, a pause of a millisecond, the panel
/// switched on, every page blanked, another pause, every page filled with
/// the test pattern.
pub open spec fn configure_spec() -> Seq<Step> {
    reset_spec() + Seq::new(commands_spec().len(), |k: int| Step::Write(commands_spec()[k]))
        + seq![Step::Delay(MILLISECOND), Step::Write(0xAFu8)] + pages_spec(
        crate::driver::sh1106::spi::PAGES as nat,
        Page::Blank,
    ) + seq![Step::Delay(MILLISECOND)] + pages_spec(
        crate::driver::sh1106::spi::PAGES as nat,
        Page::Pattern,
    )
}

fn push_pages(plan: &mut Vec<Step>, page: Page)
    ensures
        final(plan)@ == old(plan)@ + pages_spec(crate::driver::sh1106::spi::PAGES as nat, page),
{
    let mut n: usize = 0;
    assert(plan@ =~= old(plan)@ + pages_spec(0, page));
    while n < crate::driver::sh1106::spi::PAGES
        invariant
            n <= crate::driver::sh1106::spi::PAGES,
            plan@ == old(plan)@ + pages_spec(n as nat, page),
        decreases crate::driver::sh1106::spi::PAGES - n,
    {
        let page_address = (0xb0 + n) as u8;
        plan.push(Step::Write(page_address));
        plan.push(Step::Write(0x02));
        plan.push(Step::Write(0x10));
        plan.push(Step::Fill(page));
        assert(plan@ =~= old(plan)@ + pages_spec((n + 1) as nat, page));
        n += 1;
    }
}

/// The steps that bring the display up over the control bus, in order.
pub fn configure() -> (plan: Vec<Step>)
    ensures
        plan@ == configure_spec(),
{
    let delay: u32 = MILLISECOND;
    let mut plan: Vec<Step> = vec![
        Step::Output,
        Step::Reset(true),
        Step::Delay(delay * 10),
        Step::Reset(false),
        Step::Delay(delay * 200),
        Step::Reset(true),
        Step::Delay(delay * 10),
    ];
    assert(plan@ =~= reset_spec());
    let commands: Vec<u8> = vec![
        0xAEu8,
        0x02u8,
        0x10u8,
        0x40u8,
        0x81u8,
        0xA0u8,
        0xC0u8,
        0xA6u8,
        0xA8u8,
        0x3Fu8,
        0xD3u8,
        0x00u8,
        0xD5u8,
        0x80u8,
        0xD9u8,
        0xF1u8,
        0xDAu8,
        0x12u8,
        0xDBu8,
        0x40u8,
        0x20u8,
        0x02u8,
        0xA4u8,
        0xA6u8,
    ];
    assert(commands@ =~= commands_spec());
    let mut k: usize = 0;
    while k < commands.len()
        invariant
            commands@ == commands_spec(),
            k <= commands@.len(),
            plan@ == reset_spec() + Seq::new(k as nat, |i: int| Step::Write(commands_spec()[i])),
        decreases commands@.len() - k,
    {
        plan.push(Step::Write(commands[k]));
        assert(plan@ =~= reset_spec() + Seq::new(
            (k + 1) as nat,
            |i: int| Step::Write(commands_spec()[i]),
        ));
        k += 1;
    }
    plan.push(Step::Delay(delay));
    plan.push(Step::Write(0xAF));
    let ghost head = plan@;
    assert(head =~= reset_spec() + Seq::new(
        commands_spec().len(),
        |k: int| Step::Write(commands_spec()[k]),
    ) + seq![Step::Delay(MILLISECOND), Step::Write(0xAFu8)]);
    push_pages(&mut plan, Page::Blank);
    plan.push(Step::Delay(delay));
    push_pages(&mut plan, Page::Pattern);
    assert(plan@ =~= configure_spec());
    plan
}

} // verus!
