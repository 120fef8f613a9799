use api::display::{Config, CustomPixelColor, Display, Interface, Pixel};
use api::driver::sh1106;
use api::driver::sh1106::i2c::{Page, Step};
use api::driver::sh1106::spi::{Mode, Power, Register, Transfer};
use api::driver::Display as Panel;

fn panel() -> Display {
    Display::new(sh1106::config(), vec![0u8; 1024])
}

fn lit(x: u32, y: u32) -> Pixel {
    Pixel { x, y, color: CustomPixelColor::new(1) }
}

fn dark(x: u32, y: u32) -> Pixel {
    Pixel { x, y, color: CustomPixelColor::new(0) }
}

#[test]
fn panel_geometry() {
    assert_eq!(sh1106::config(), Config { width: 128, height: 64, pages: 8 });
}

#[test]
fn colour_from_a_byte() {
    assert_eq!(CustomPixelColor::from(1), CustomPixelColor { value: 1 });
    assert_eq!(CustomPixelColor::new(0).value, 0);
    assert_eq!(CustomPixelColor::from(200).value, 200);
}

#[test]
fn draw_pixel_sets_the_bit_of_its_row_in_its_page() {
    let mut display = panel();
    display.draw_pixel(lit(0, 0));
    assert_eq!(display.frame_buffer[0], 0b0000_0001);
    display.draw_pixel(lit(0, 7));
    assert_eq!(display.frame_buffer[0], 0b1000_0001);
    display.draw_pixel(lit(5, 10));
    assert_eq!(display.frame_buffer[128 + 5], 0b0000_0100);
    display.draw_pixel(lit(127, 63));
    assert_eq!(display.frame_buffer[7 * 128 + 127], 0b1000_0000);
    let lit_bytes = display.frame_buffer.iter().filter(|&&byte| byte != 0).count();
    assert_eq!(lit_bytes, 3);
}

#[test]
fn draw_pixel_clears_the_bit_for_any_other_colour() {
    let mut display = Display::new(sh1106::config(), vec![0xffu8; 1024]);
    display.draw_pixel(dark(3, 9));
    assert_eq!(display.frame_buffer[128 + 3], 0b1111_1101);
    display.draw_pixel(Pixel { x: 3, y: 10, color: CustomPixelColor::new(2) });
    assert_eq!(display.frame_buffer[128 + 3], 0b1111_1001);
    display.draw_pixel(lit(3, 9));
    assert_eq!(display.frame_buffer[128 + 3], 0b1111_1011);
}

#[test]
fn draw_pixel_skips_what_is_off_the_display() {
    let mut display = panel();
    display.draw_pixel(lit(128, 0));
    display.draw_pixel(lit(0, 64));
    display.draw_pixel(lit(u32::MAX, u32::MAX));
    assert!(display.frame_buffer.iter().all(|&byte| byte == 0));
    let mut short = Display::new(Config { width: 128, height: 64, pages: 4 }, vec![0u8; 512]);
    short.draw_pixel(lit(0, 32));
    assert!(short.frame_buffer.iter().all(|&byte| byte == 0));
    short.draw_pixel(lit(0, 31));
    assert_eq!(short.frame_buffer[3 * 128], 0b1000_0000);
}

#[test]
fn draw_takes_the_pixels_in_order() {
    let mut display = panel();
    display.draw(&[lit(1, 1), lit(2, 2), dark(1, 1), lit(200, 2)]);
    assert_eq!(display.frame_buffer[1], 0);
    assert_eq!(display.frame_buffer[2], 0b0000_0100);
    let mut reference = panel();
    reference.draw_pixel(lit(1, 1));
    reference.draw_pixel(lit(2, 2));
    reference.draw_pixel(dark(1, 1));
    reference.draw_pixel(lit(200, 2));
    assert_eq!(display.frame_buffer, reference.frame_buffer);
    display.draw(&[]);
    assert_eq!(display.frame_buffer, reference.frame_buffer);
}

#[test]
fn clear_darkens_every_pixel() {
    let mut display = Display::new(sh1106::config(), vec![0xa5u8; 1024]);
    display.clear();
    assert_eq!(display.frame_buffer, vec![0u8; 1024]);
    assert_eq!(display.config, sh1106::config());
}

#[test]
fn mode_is_the_level_of_the_data_command_line() {
    assert_eq!(Mode::Command.into(), 0);
    assert_eq!(Mode::Data.into(), 1);
    assert_eq!(Mode::try_from(0), Some(Mode::Command));
    assert_eq!(Mode::try_from(1), Some(Mode::Data));
    assert_eq!(Mode::try_from(2), None);
    assert_eq!(Mode::try_from(255), None);
}

#[test]
fn command_bytes() {
    assert_eq!(Register::DISPLAYOFF.into(), 0xAE);
    assert_eq!(Register::DISPLAYON.into(), 0xAF);
    assert_eq!(Register::SETPAGEADDRESS.into(), 0xB0);
    assert_eq!(Register::SETLOWCOLUMN.into(), 0x02);
    assert_eq!(Register::CHARGEPUMP.into(), 0x8D);
}

#[test]
fn spi_setup_for_the_default_wiring() {
    let pins = sh1106::spi::Pins::new();
    assert_eq!(pins, sh1106::spi::Pins { csel: 5, sclk: 18, mosi: 23, dc: 19 });
    let setup = sh1106::spi::init(pins);
    assert_eq!(setup.gpio.pin_bit_mask, (1 << 5) | (1 << 19));
    assert!(!setup.gpio.pull_up_en);
    assert!(!setup.gpio.pull_down_en);
    assert!(!setup.gpio.intr_enabled);
    assert_eq!(setup.bus.sclk_io_num, 18);
    assert_eq!(setup.bus.mosi_io_num, 23);
    assert_eq!(setup.bus.miso_io_num, -1);
    assert_eq!(setup.bus.quadwp_io_num, -1);
    assert_eq!(setup.bus.quadhd_io_num, -1);
    assert_eq!(setup.bus.max_transfer_sz, 128);
    assert_eq!(setup.dma_channel, 1);
    assert_eq!(setup.device.clock_speed_hz, 4_000_000);
    assert_eq!(setup.device.mode, 0);
    assert_eq!(setup.device.spics_io_num, 5);
    assert_eq!(setup.device.queue_size, 2);
}

#[test]
fn spi_setup_joins_the_bits_of_both_select_pins() {
    let pins = sh1106::spi::Pins { csel: 7, sclk: 18, mosi: 23, dc: 7 };
    assert_eq!(sh1106::spi::init(pins).gpio.pin_bit_mask, 1 << 7);
    let pins = sh1106::spi::Pins { csel: 0, sclk: 18, mosi: 23, dc: 63 };
    assert_eq!(sh1106::spi::init(pins).gpio.pin_bit_mask, 1 | (1 << 63));
}

#[test]
fn transaction_length_is_in_bits() {
    let transaction = sh1106::spi::transmit(19, 128, Mode::Data);
    assert_eq!(transaction.length, 1024);
    assert_eq!(transaction.user, [19, 1]);
    let transaction = sh1106::spi::transmit(19, 1, Mode::Command);
    assert_eq!(transaction.length, 8);
    assert_eq!(transaction.user, [19, 0]);
    assert_eq!(sh1106::spi::pre_transfer(transaction.user), Some((19, 0)));
    assert_eq!(sh1106::spi::pre_transfer([19, 1]), Some((19, 1)));
    assert_eq!(sh1106::spi::pre_transfer([19, 2]), None);
}

#[test]
fn commands_depend_on_the_power_supply() {
    let pump = sh1106::spi::commands(Power::SWITCHCAPVCC);
    let external = sh1106::spi::commands(Power::EXTERNALVCC);
    assert_eq!(pump.len(), 28);
    assert_eq!(external.len(), 28);
    assert_eq!(
        pump,
        vec![
            0xAE, 0x02, 0x10, 0x40, 0x81, 0xcf, 0xA0, 0xC0, 0xA6, 0xA8, 0x3F, 0xD3, 0x00, 0xD5,
            0x80, 0xD9, 0xf1, 0x8D, 0x14, 0xDA, 0x12, 0xDB, 0x40, 0x20, 0x02, 0xA4, 0xA6, 0xAF
        ]
    );
    assert_eq!(external[5], 0x9f);
    assert_eq!(external[16], 0x22);
    assert_eq!(external[18], 0x10);
    for k in 0..28 {
        if k != 5 && k != 16 && k != 18 {
            assert_eq!(pump[k], external[k]);
        }
    }
}

fn expect_page(plan: &[Transfer], page: u8, data: &[u8]) {
    assert_eq!(plan.len(), 5);
    assert_eq!(plan[0], Transfer { mode: Mode::Command, bytes: vec![0xb0 + page] });
    assert_eq!(plan[1], Transfer { mode: Mode::Command, bytes: vec![0x02] });
    assert_eq!(plan[2], Transfer { mode: Mode::Command, bytes: vec![0x10] });
    assert_eq!(plan[3], Transfer { mode: Mode::Command, bytes: vec![0x40] });
    assert_eq!(plan[4], Transfer { mode: Mode::Data, bytes: data.to_vec() });
}

#[test]
fn spi_configure_blanks_then_shows_the_test_pattern() {
    let plan = sh1106::spi::configure();
    let commands = sh1106::spi::commands(Power::SWITCHCAPVCC);
    assert_eq!(plan.len(), 28 + 40 + 40);
    for k in 0..28 {
        assert_eq!(plan[k], Transfer { mode: Mode::Command, bytes: vec![commands[k]] });
    }
    let blank = vec![0u8; 128];
    let pattern: Vec<u8> = (0..128).map(|x| if x % 8 == 0 { 255 } else { 1 }).collect();
    for page in 0..8 {
        expect_page(&plan[28 + 5 * page..28 + 5 * page + 5], page as u8, &blank);
        expect_page(&plan[68 + 5 * page..68 + 5 * page + 5], page as u8, &pattern);
    }
}

#[test]
fn write_sends_the_frame_buffer_page_by_page() {
    let frame_buffer: Vec<u8> = (0..1024).map(|i| (i % 251) as u8).collect();
    let driver = sh1106::Driver::new();
    let plan = driver.write(&frame_buffer);
    assert_eq!(plan.len(), 40);
    for page in 0..8 {
        expect_page(
            &plan[5 * page..5 * page + 5],
            page as u8,
            &frame_buffer[page * 128..(page + 1) * 128],
        );
    }
}

#[test]
fn display_interface_configures_and_flushes() {
    let mut frame_buffer = vec![0u8; 1024];
    frame_buffer[129] = 0x42;
    let mut interface: Interface<sh1106::Driver> =
        Interface::new(sh1106::config(), frame_buffer.clone());
    assert_eq!(interface.config, sh1106::config());
    assert_eq!(interface.driver.reset_pin, 23);
    assert_eq!(interface.start(), sh1106::spi::configure());
    assert_eq!(interface.frame_buffer, frame_buffer);
    let plan = interface.flush();
    assert_eq!(plan, sh1106::Driver::new().write(&frame_buffer));
    assert_eq!(plan[9].bytes[1], 0x42);
}

#[test]
fn control_bus_frames_of_the_display() {
    assert_eq!(sh1106::i2c::write(0x3c, 0x00, 0xAE), [0x78, 0x00, 0xAE]);
    assert_eq!(sh1106::i2c::write(0x3c, 0x0140, 0x01), [0x78, 0x40, 0x01]);
    assert_eq!(
        sh1106::i2c::write_bytes(0x3c, 0x40, &[1, 2, 3]),
        vec![0x78, 0x40, 1, 2, 3]
    );
    assert_eq!(sh1106::i2c::write_bytes(0x3c, 0x40, &[]), vec![0x78, 0x40]);
    assert_eq!(sh1106::i2c::write_u16(0x3c, 0x1234, 0xabcd), [0x78, 0x12, 0x34, 0xab, 0xcd]);
    let frames = sh1106::i2c::read(0x3c, 0x1234);
    assert_eq!(frames.select, [0x78, 0x12, 0x34]);
    assert_eq!(frames.restart, 0x79);
}

#[test]
fn pages_of_the_control_bus_plan() {
    assert_eq!(sh1106::i2c::page(Page::Blank), vec![0u8; 128]);
    let pattern = sh1106::i2c::page(Page::Pattern);
    assert_eq!(pattern.len(), 128);
    for (x, byte) in pattern.iter().enumerate() {
        assert_eq!(*byte, if x % 8 == 0 { 255 } else { 1 });
    }
}

#[test]
fn control_bus_configure_resets_then_configures_then_fills() {
    let plan = sh1106::i2c::configure();
    assert_eq!(plan.len(), 7 + 24 + 2 + 32 + 1 + 32);
    assert_eq!(
        &plan[..7],
        &[
            Step::Output,
            Step::Reset(true),
            Step::Delay(1_680_000),
            Step::Reset(false),
            Step::Delay(33_600_000),
            Step::Reset(true),
            Step::Delay(1_680_000),
        ]
    );
    assert_eq!(plan[7], Step::Write(0xAE));
    assert_eq!(plan[11], Step::Write(0x81));
    assert_eq!(plan[12], Step::Write(0xA0));
    assert_eq!(plan[30], Step::Write(0xA6));
    assert_eq!(plan[31], Step::Delay(168_000));
    assert_eq!(plan[32], Step::Write(0xAF));
    for page in 0..8 {
        let at = 33 + 4 * page;
        assert_eq!(
            &plan[at..at + 4],
            &[
                Step::Write(0xb0 + page as u8),
                Step::Write(0x02),
                Step::Write(0x10),
                Step::Fill(Page::Blank)
            ]
        );
        let at = 66 + 4 * page;
        assert_eq!(
            &plan[at..at + 4],
            &[
                Step::Write(0xb0 + page as u8),
                Step::Write(0x02),
                Step::Write(0x10),
                Step::Fill(Page::Pattern)
            ]
        );
    }
    assert_eq!(plan[65], Step::Delay(168_000));
}

#[test]
fn frame_buffer_must_hold_every_page() {
    assert!(panel().is_wf());
    assert!(Display::new(sh1106::config(), vec![0u8; 2000]).is_wf());
    assert!(!Display::new(sh1106::config(), vec![0u8; 1023]).is_wf());
    assert!(!Display::new(
        Config { width: usize::MAX, height: 64, pages: 8 },
        vec![0u8; 16]
    )
    .is_wf());
    assert!(sh1106::Driver::can_show(&[0u8; 1024]));
    assert!(!sh1106::Driver::can_show(&[0u8; 1023]));
}
