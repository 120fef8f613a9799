use api::audio::Config;
use api::codec::u12_to_u8;
use api::driver::adac;
use api::driver::sgtl5000;
use api::driver::wm8731;
use api::driver::{check_transfer, copy_stereo, is_carried, scratch, Bringup, Codec};
use api::esp_idf::{EspError, ESP_ERR_INVALID_SIZE, ESP_ERR_NO_MEM};
use api::i2s::{BusConfig, CommFormat, Mode};

fn stereo(block_length: usize) -> Config {
    Config { fs: 48000, num_channels: 2, word_size: 2, block_length }
}

#[test]
fn check_transfer_passes_a_whole_block() {
    assert_eq!(check_transfer(&stereo(128), 0, 256), Ok(()));
}

#[test]
fn check_transfer_reports_the_bus_status() {
    assert_eq!(check_transfer(&stereo(128), 0x107, 256), Err(EspError(0x107)));
    assert_eq!(check_transfer(&stereo(128), -1, 0), Err(EspError(-1)));
}

#[test]
fn check_transfer_reports_a_size_mismatch() {
    assert_eq!(check_transfer(&stereo(128), 0, 255), Err(EspError(ESP_ERR_INVALID_SIZE)));
    assert_eq!(check_transfer(&stereo(128), 0, 0), Err(EspError(ESP_ERR_INVALID_SIZE)));
    assert_eq!(check_transfer(&stereo(128), 0, 257), Err(EspError(ESP_ERR_INVALID_SIZE)));
}

#[test]
fn scratch_is_zeroed_or_out_of_memory() {
    assert_eq!(scratch(true, Vec::new(), 4, 0u8), Ok(vec![0u8, 0, 0, 0]));
    assert_eq!(scratch(true, Vec::new(), 0, 0i16), Ok(vec![]));
    assert_eq!(scratch(false, Vec::new(), 4, 0u8), Err(EspError(ESP_ERR_NO_MEM)));
}

#[test]
fn u12_from_bytes_ignores_the_high_nibble() {
    assert_eq!(adac::u12_from_bytes(0x34, 0x12), 0x234);
    assert_eq!(adac::u12_from_bytes(0xff, 0xff), 4095);
    assert_eq!(adac::u12_from_bytes(0x00, 0xf0), 0);
    assert_eq!(adac::u12_from_bytes(0x01, 0x0f), 0xf01);
}

#[test]
fn adac_init_sizes_the_scratch_buffer_in_bytes() {
    let mut driver = adac::Driver::new();
    assert_eq!(driver.init(&stereo(4)), Ok(()));
    assert_eq!(driver.dma_buffer, vec![0u8; 8]);
}

#[test]
fn adac_init_reports_out_of_memory() {
    let mut driver = adac::Driver::new();
    let config = Config { fs: 48000, num_channels: 2, word_size: 1, block_length: usize::MAX / 2 + 1 };
    assert!(config.is_valid());
    assert_eq!(driver.init(&config), Err(EspError(ESP_ERR_NO_MEM)));
    assert!(driver.dma_buffer.is_empty());
}

#[test]
fn adac_read_unpacks_right_then_left() {
    let config = stereo(4);
    let mut driver = adac::Driver::new();
    driver.init(&config).unwrap();
    driver.dma_buffer.copy_from_slice(&[0x34, 0x12, 0xff, 0xff, 0x00, 0x00, 0x01, 0x0f]);
    let mut block = [9u16; 4];
    assert_eq!(driver.read(&config, 0, 8, &mut block), Ok(()));
    assert_eq!(block, [0x234, 4095, 0, 0xf01]);
}

#[test]
fn adac_read_keeps_the_block_on_failure() {
    let config = stereo(4);
    let mut driver = adac::Driver::new();
    driver.init(&config).unwrap();
    driver.dma_buffer.copy_from_slice(&[1, 2, 3, 4, 5, 6, 7, 8]);
    let mut block = [9u16; 4];
    assert_eq!(driver.read(&config, 0, 6, &mut block), Err(EspError(ESP_ERR_INVALID_SIZE)));
    assert_eq!(block, [9, 9, 9, 9]);
    assert_eq!(driver.read(&config, 0x103, 8, &mut block), Err(EspError(0x103)));
    assert_eq!(block, [9, 9, 9, 9]);
}

#[test]
fn adac_read_leaves_further_channels_alone() {
    let config = Config { fs: 48000, num_channels: 3, word_size: 2, block_length: 6 };
    let mut driver = adac::Driver::new();
    driver.init(&config).unwrap();
    driver.dma_buffer.copy_from_slice(&[1, 0, 2, 0, 3, 0, 4, 0, 5, 0, 6, 0]);
    let mut block = [9u16; 6];
    assert_eq!(driver.read(&config, 0, 12, &mut block), Ok(()));
    assert_eq!(block, [1, 2, 9, 4, 5, 9]);
}

#[test]
fn adac_write_packs_samples_in_the_high_bytes() {
    let config = stereo(4);
    let mut driver = adac::Driver::new();
    driver.init(&config).unwrap();
    driver.dma_buffer.copy_from_slice(&[7; 8]);
    driver.write(&config, &[255, 128, 0, 1]);
    assert_eq!(driver.dma_buffer, vec![0, 255, 0, 128, 0, 0, 0, 1]);
}

#[test]
fn adac_write_leaves_the_bytes_of_further_channels_alone() {
    let config = Config { fs: 48000, num_channels: 3, word_size: 2, block_length: 6 };
    let mut driver = adac::Driver::new();
    driver.init(&config).unwrap();
    driver.dma_buffer.copy_from_slice(&[7; 12]);
    driver.write(&config, &[10, 20, 30, 40, 50, 60]);
    assert_eq!(driver.dma_buffer, vec![0, 10, 0, 20, 7, 7, 0, 40, 0, 50, 7, 7]);
}

#[test]
fn adac_bus_uses_both_built_in_converters() {
    assert_eq!(
        adac::init(48000, 128),
        BusConfig {
            mode: Mode { master: true, rx: true, tx: true, dac_built_in: true, adc_built_in: true },
            sample_rate: 48000,
            bits_per_sample: 16,
            communication_format: CommFormat { i2s: false, i2s_msb: true },
            dma_buf_count: 4,
            dma_buf_len: 128,
            use_apll: false,
        }
    );
}

#[test]
fn copy_stereo_copies_two_channels_per_frame() {
    let config = Config { fs: 48000, num_channels: 4, word_size: 2, block_length: 8 };
    let source = [1i16, -2, 3, -4, 5, -6, 7, -8];
    let mut destination = [0i16; 8];
    copy_stereo(&config, &source, &mut destination);
    assert_eq!(destination, [1, -2, 0, 0, 5, -6, 0, 0]);
}

#[test]
fn wm8731_reads_and_writes_signed_words() {
    let config = stereo(4);
    let mut driver = wm8731::Driver::new();
    assert_eq!(driver.init(&config), Ok(()));
    assert_eq!(driver.dma_buffer, vec![0i16; 4]);
    driver.dma_buffer.copy_from_slice(&[i16::MIN, i16::MAX, -1, 1]);
    let mut block = [0i16; 4];
    assert_eq!(driver.read(&config, 0, 8, &mut block), Ok(()));
    assert_eq!(block, [i16::MIN, i16::MAX, -1, 1]);
    assert_eq!(driver.read(&config, 0, 4, &mut block), Err(EspError(ESP_ERR_INVALID_SIZE)));
    driver.write(&config, &[100, -100, 32767, -32767]);
    assert_eq!(driver.dma_buffer, vec![100, -100, 32767, -32767]);
}

#[test]
fn wm8731_keeps_its_wiring() {
    let config = stereo(4);
    let mut driver = wm8731::Driver::new();
    assert_eq!(driver.i2c_pins, api::i2c::Pins { scl: 23, sda: 18 });
    assert_eq!(driver.i2s_pins, api::i2s::Pins { bclk: 5, lrclk: 25, din: 26, dout: 35 });
    driver.init(&config).unwrap();
    driver.write(&config, &[1, 2, 3, 4]);
    assert_eq!(driver.i2c_pins, api::i2c::Pins::new());
    assert_eq!(driver.i2s_pins, api::i2s::Pins::new());
}

#[test]
fn wm8731_init_reports_out_of_memory() {
    let mut driver = wm8731::Driver::new();
    let config = stereo(usize::MAX / 4 + 1);
    assert!(config.is_valid());
    assert_eq!(driver.init(&config), Err(EspError(ESP_ERR_NO_MEM)));
    assert!(driver.dma_buffer.is_empty());
}

#[test]
fn sgtl5000_reads_and_writes_signed_words() {
    let config = stereo(4);
    let mut driver = sgtl5000::Driver::new();
    assert_eq!(driver.init(&config), Ok(()));
    driver.dma_buffer.copy_from_slice(&[11, -12, 13, -14]);
    let mut block = [0i16; 4];
    assert_eq!(driver.read(&config, 0, 8, &mut block), Ok(()));
    assert_eq!(block, [11, -12, 13, -14]);
    assert_eq!(driver.read(&config, 5, 8, &mut block), Err(EspError(5)));
    driver.write(&config, &[-1, -2, -3, -4]);
    assert_eq!(driver.dma_buffer, vec![-1, -2, -3, -4]);
}

#[test]
fn codec_buses_differ_in_the_clock_source() {
    let config = stereo(128);
    let wm = wm8731::init(&config);
    let sgtl = sgtl5000::init(&config);
    assert!(!wm.use_apll);
    assert!(sgtl.use_apll);
    assert_eq!(wm.dma_buf_len, 128);
    assert_eq!(wm.dma_buf_count, 4);
    assert_eq!(wm.sample_rate, 48000);
    assert_eq!(wm.bits_per_sample, 16);
    assert_eq!(wm.communication_format, CommFormat { i2s: true, i2s_msb: true });
    assert_eq!(
        sgtl.mode,
        Mode { master: true, rx: true, tx: true, dac_built_in: false, adc_built_in: false }
    );
    assert_eq!(BusConfig { use_apll: false, ..sgtl }, wm);
}

#[test]
fn sgtl5000_clock_output_fields() {
    assert_eq!(sgtl5000::clear_clock_select(0xffff_ffff), 0xffff_fff0);
    assert_eq!(sgtl5000::clear_clock_select(0x1234_5678), 0x1234_5670);
    assert_eq!(sgtl5000::set_field(0xffff_ffff, 0x7, 12, 1), 0xffff_9fff);
    assert_eq!(sgtl5000::set_field(0, 0x7, 12, 0xf), 0x7000);
}

#[test]
fn u12_to_u8_keeps_the_top_eight_bits() {
    let source = [0u16, 15, 16, 4095, 0x0abc];
    let mut destination = [0xffffu16; 6];
    u12_to_u8(&source, &mut destination, 5);
    assert_eq!(destination, [0, 0, 0x0100, 0xff00, 0xab00, 0xffff]);
}

#[test]
fn u12_to_u8_converts_a_prefix_only() {
    let source = [4095u16, 4095, 4095];
    let mut destination = [1u16, 2, 3];
    u12_to_u8(&source, &mut destination, 1);
    assert_eq!(destination, [0xff00, 2, 3]);
    u12_to_u8(&source, &mut destination, 0);
    assert_eq!(destination, [0xff00, 2, 3]);
}

#[test]
fn u12_to_u8_drops_what_does_not_fit() {
    let source = [0xffffu16, 0x1000];
    let mut destination = [0u16; 2];
    u12_to_u8(&source, &mut destination, 2);
    assert_eq!(destination, [0xff00, 0x0000]);
}

#[test]
fn transports_say_which_configurations_they_frame() {
    assert!(adac::Driver::is_supported(&stereo(128)));
    assert!(!adac::Driver::is_supported(&Config {
        fs: 48000,
        num_channels: 1,
        word_size: 4,
        block_length: 128
    }));
    assert!(!adac::Driver::is_supported(&Config {
        fs: 48000,
        num_channels: 2,
        word_size: 1,
        block_length: 128
    }));
    assert!(adac::Driver::is_supported(&Config {
        fs: 48000,
        num_channels: 4,
        word_size: 1,
        block_length: 128
    }));
    assert!(!adac::Driver::is_supported(&Config {
        fs: 48000,
        num_channels: 4,
        word_size: 0,
        block_length: 128
    }));
    assert!(wm8731::Driver::is_supported(&stereo(128)));
    assert!(!wm8731::Driver::is_supported(&Config {
        fs: 48000,
        num_channels: 2,
        word_size: 4,
        block_length: 128
    }));
    assert!(!sgtl5000::Driver::is_supported(&Config {
        fs: 48000,
        num_channels: 1,
        word_size: 2,
        block_length: 128
    }));
    assert!(sgtl5000::Driver::is_supported(&stereo(2)));
}

#[test]
fn transports_are_ready_after_init() {
    let config = stereo(16);
    let mut driver = adac::Driver::new();
    assert!(!driver.is_ready(&config));
    driver.init(&config).unwrap();
    assert!(driver.is_ready(&config));
    assert!(!driver.is_ready(&stereo(32)));
    let mut driver = wm8731::Driver::new();
    assert!(!driver.is_ready(&config));
    driver.init(&config).unwrap();
    assert!(driver.is_ready(&config));
    driver.write(&config, &[5; 16]);
    assert!(driver.is_ready(&config));
}

#[test]
fn hardware_comes_up_in_the_order_of_each_chip() {
    assert_eq!(adac::bring_up(), [Bringup::AudioBus]);
    assert_eq!(
        wm8731::bring_up(),
        [
            Bringup::ControlBus,
            Bringup::Configure(0x1a),
            Bringup::Settle(1000),
            Bringup::AudioBus,
            Bringup::Settle(1000)
        ]
    );
    assert_eq!(
        sgtl5000::bring_up(),
        [
            Bringup::AudioBus,
            Bringup::MasterClock,
            Bringup::Settle(1000),
            Bringup::ControlBus,
            Bringup::Configure(0x0a)
        ]
    );
}

#[test]
fn the_first_two_channels_of_a_frame_are_carried() {
    let config = Config { fs: 48000, num_channels: 4, word_size: 2, block_length: 8 };
    let carried: Vec<bool> = (0..8).map(|j| is_carried(&config, j)).collect();
    assert_eq!(carried, [true, true, false, false, true, true, false, false]);
    assert!((0..16).all(|j| is_carried(&stereo(16), j)));
    let mono = Config { fs: 48000, num_channels: 1, word_size: 2, block_length: 8 };
    assert!((0..8).all(|j| is_carried(&mono, j)));
}
