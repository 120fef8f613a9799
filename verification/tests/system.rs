use api::allocators;
use api::blinky::{
    configure_pin_as_output, configure_pin_as_output_raw, delay, set_led, set_led_raw, GpioConfig,
    GpioMode, RegisterWrite,
};
use api::errors::{bad_function, MyError, WrappingError};
use api::esp_idf::{
    AsResult, EspError, ENOMEM, ESP_ERR_INVALID_ARG, ESP_ERR_NVS_NEW_VERSION_FOUND,
    ESP_ERR_NVS_NO_FREE_PAGES,
};
use api::i2s::{PinConfig, Pins};
use api::ledc;
use api::logger::{tag_prefix, write_str, Written};
use api::lwip::{self, InAddr, Ip4Addr, Sent, SockAddrIn};
use api::nvs::{flash_init, Call, Next};
use api::wifi::{event_handler, password_field, ssid_field, Event, Reaction};

#[test]
fn status_zero_is_success() {
    assert_eq!(0.as_result(), Ok(()));
    assert_eq!(0x101.as_result(), Err(EspError(0x101)));
    assert_eq!((-1).as_result(), Err(EspError(-1)));
    assert_eq!(EspError(0).into(), Ok(()));
    assert_eq!(EspError(7).into(), Err(EspError(7)));
    assert_eq!(EspError::from(0x104), EspError(0x104));
    assert_eq!(EspError::from(()), EspError(1));
}

#[test]
fn pin_configuration_is_a_plain_output() {
    assert_eq!(
        configure_pin_as_output(2),
        GpioConfig {
            pin_bit_mask: 0b100,
            mode: GpioMode::Output,
            pull_up_en: false,
            pull_down_en: false,
            intr_enabled: false
        }
    );
    assert_eq!(configure_pin_as_output(0).pin_bit_mask, 1);
    assert_eq!(configure_pin_as_output(39).pin_bit_mask, 1 << 39);
    assert_eq!(configure_pin_as_output(63).pin_bit_mask, 1 << 63);
}

#[test]
fn raw_pin_configuration_enables_then_routes() {
    assert_eq!(
        configure_pin_as_output_raw(2),
        [
            RegisterWrite { address: 0x3FF44024, value: 0b100 },
            RegisterWrite { address: 0x3FF44538, value: 0x100 },
        ]
    );
    assert_eq!(
        configure_pin_as_output_raw(31),
        [
            RegisterWrite { address: 0x3FF44024, value: 0x8000_0000 },
            RegisterWrite { address: 0x3FF445AC, value: 0x100 },
        ]
    );
}

#[test]
fn led_switches_through_set_and_clear_registers() {
    assert_eq!(set_led(true), 1);
    assert_eq!(set_led(false), 0);
    assert_eq!(set_led_raw(5, true), RegisterWrite { address: 0x3FF44008, value: 32 });
    assert_eq!(set_led_raw(5, false), RegisterWrite { address: 0x3FF4400C, value: 32 });
    assert_eq!(set_led_raw(0, true).value, 1);
}

#[test]
fn delay_lasts_until_the_count_has_passed_the_target() {
    assert!(delay(100, 1000, 1000));
    assert!(delay(100, 1000, 1099));
    assert!(delay(100, 1000, 1100));
    assert!(!delay(100, 1000, 1101));
    assert!(!delay(0, 1000, 1001));
    assert!(delay(0, 1000, 1000));
    assert!(delay(5, u32::MAX - 5, u32::MAX));
}

#[test]
fn allocator_serves_alignments_up_to_eight() {
    assert!(allocators::supports(1));
    assert!(allocators::supports(8));
    assert!(!allocators::supports(16));
}

#[test]
fn bad_function_fails_with_a_wrapping_error() {
    assert_eq!(bad_function(), Err(WrappingError(MyError)));
    assert_eq!(MyError.display(), "my error");
    assert_eq!(WrappingError(MyError).display(), "my wrapping error");
    assert_eq!(WrappingError(MyError).cause(), MyError);
}

#[test]
fn audio_pins_convert_to_the_bus_layout_and_back() {
    let pins = Pins::new();
    assert_eq!(pins, Pins { bclk: 5, lrclk: 25, din: 26, dout: 35 });
    let config = PinConfig::from(pins);
    assert_eq!(
        config,
        PinConfig { bck_io_num: 5, ws_io_num: 25, data_in_num: 26, data_out_num: 35 }
    );
    assert_eq!(Pins::from(config), pins);
    let other = Pins { bclk: 1, lrclk: 2, din: 3, dout: 4 };
    assert_eq!(Pins::from(PinConfig::from(other)), other);
}

#[test]
fn ledc_channels_follow_the_pins() {
    assert_eq!(ledc::timer(), ledc::TimerConfig { timer_num: 0, freq_hz: 19_500, duty_resolution: 12 });
    assert_eq!(ledc::DUTY_SCALE, 4095);
    let channels = ledc::init(&[12, 13, 14]).unwrap();
    assert_eq!(channels.len(), 3);
    for (n, channel) in channels.iter().enumerate() {
        assert_eq!(
            *channel,
            ledc::ChannelConfig {
                channel: n,
                duty: 0,
                gpio_num: 12 + n as i32,
                hpoint: 0,
                timer_sel: 0
            }
        );
    }
    assert_eq!(ledc::init(&[]), Ok(vec![]));
    assert_eq!(ledc::init(&[1; 7]).unwrap().len(), 7);
}

#[test]
fn ledc_refuses_too_many_pins() {
    assert_eq!(ledc::init(&[1; 8]), Err(EspError(ESP_ERR_INVALID_ARG)));
    assert_eq!(ledc::init(&[1; 20]), Err(EspError(ESP_ERR_INVALID_ARG)));
}

#[test]
fn console_write_goes_on_until_the_text_is_out() {
    assert_eq!(write_str(0, 10, 10), Written::Done);
    assert_eq!(write_str(0, 10, 4), Written::More(4));
    assert_eq!(write_str(4, 10, 6), Written::Done);
    assert_eq!(write_str(4, 10, 0), Written::More(4));
    assert_eq!(write_str(4, 10, -1), Written::Failed);
    assert_eq!(write_str(0, 0, 0), Written::Done);
    let mut offset = 0;
    let mut writes = 0;
    loop {
        writes += 1;
        match write_str(offset, 10, 3.min(10 - offset as isize)) {
            Written::More(next) => offset = next,
            Written::Done => break,
            Written::Failed => panic!("the console did not fail"),
        }
    }
    assert_eq!(writes, 4);
}

#[test]
fn tag_prefix_brackets_the_tag() {
    assert_eq!(tag_prefix(b"api::audio"), b"[api::audio] ".to_vec());
    assert_eq!(tag_prefix(b""), b"[] ".to_vec());
}

#[test]
fn network_byte_order() {
    assert_eq!(lwip::htons(0x1234), 0x3412);
    assert_eq!(lwip::htons(0x1234), 0x1234u16.swap_bytes());
    assert_eq!(lwip::htons(8080), 8080u16.swap_bytes());
    assert_eq!(lwip::htonl(0x12345678), 0x78563412);
    assert_eq!(lwip::htonl(0xc0a80001), 0xc0a80001u32.swap_bytes());
    assert_eq!(lwip::htonl(lwip::htonl(0xdeadbeef)), 0xdeadbeef);
    assert_eq!(lwip::htons(lwip::htons(0xbeef)), 0xbeef);
}

#[test]
fn socket_calls_fail_with_the_error_number() {
    assert_eq!(lwip::socket(3, 0), Ok(3));
    assert_eq!(lwip::socket(0, 99), Ok(0));
    assert_eq!(lwip::socket(-1, 23), Err(EspError(23)));
    assert_eq!(lwip::check(0, 5), Ok(()));
    assert_eq!(lwip::check(-1, 98), Err(EspError(98)));
    assert_eq!(lwip::recvfrom(128, 0), Ok(128));
    assert_eq!(lwip::recvfrom(0, 0), Ok(0));
    assert_eq!(lwip::recvfrom(-1, 11), Err(EspError(11)));
}

#[test]
fn socket_addresses() {
    assert_eq!(
        lwip::bind(0x7f000001, 2, 8080),
        SockAddrIn {
            sin_addr: InAddr { s_addr: 0x0100007f },
            sin_family: 2,
            sin_port: 0x901f
        }
    );
    assert_eq!(
        lwip::destination(0x0100007f, 0x102, 8080),
        SockAddrIn {
            sin_addr: InAddr { s_addr: 0x0100007f },
            sin_family: 2,
            sin_port: 0x901f
        }
    );
    assert_eq!(Ip4Addr::from(InAddr { s_addr: 7 }), Ip4Addr { addr: 7 });
}

#[test]
fn sendto_retries_only_when_out_of_memory() {
    assert_eq!(lwip::sendto(0, 64, 0), Sent::Done(64));
    assert_eq!(lwip::sendto(0, 1, ENOMEM), Sent::Done(1));
    assert_eq!(lwip::sendto(0, 0, ENOMEM), Sent::Retry);
    assert_eq!(lwip::sendto(0, -1, ENOMEM), Sent::Retry);
    assert_eq!(lwip::sendto(0, -1, 11), Sent::Done(-1));
    assert_eq!(lwip::sendto(0, 0, 0), Sent::Done(0));
}

#[test]
fn sendto_does_not_retry_another_error_on_a_repeat() {
    assert_eq!(lwip::sendto(1, -1, ENOMEM), Sent::Retry);
    assert_eq!(lwip::sendto(1, -1, 11), Sent::Done(-1));
    assert_eq!(lwip::sendto(3, 0, 0), Sent::Done(0));
    assert_eq!(lwip::sendto(5, 1, ENOMEM), Sent::Done(1));
    assert_eq!(lwip::sendto(9, 64, 0), Sent::Done(64));
}

#[test]
fn sendto_gives_up_after_ten_retries() {
    assert_eq!(lwip::MAX_RETRY, 10);
    assert_eq!(lwip::sendto(9, -1, ENOMEM), Sent::Retry);
    assert_eq!(lwip::sendto(10, -1, ENOMEM), Sent::Done(-1));
    assert_eq!(lwip::sendto(10, 0, ENOMEM), Sent::Done(0));
    assert_eq!(lwip::sendto(u32::MAX, -1, ENOMEM), Sent::Done(-1));
    let mut attempts = 0;
    let mut sends = 0;
    let result = loop {
        sends += 1;
        match lwip::sendto(attempts, -1, ENOMEM) {
            Sent::Done(bytes_sent) => break bytes_sent,
            Sent::Retry => attempts += 1,
        }
    };
    assert_eq!(result, -1);
    assert_eq!(sends, 11);
}

#[test]
fn sendto_returns_what_a_later_attempt_sent() {
    let outcomes = [(-1, ENOMEM), (0, ENOMEM), (-1, ENOMEM), (48, 0)];
    let mut attempts = 0;
    let result = loop {
        let (bytes_sent, error_number) = outcomes[attempts as usize];
        match lwip::sendto(attempts, bytes_sent, error_number) {
            Sent::Done(bytes_sent) => break bytes_sent,
            Sent::Retry => attempts += 1,
        }
    };
    assert_eq!(result, 48);
    assert_eq!(attempts, 3);
}

#[test]
fn storage_is_erased_when_that_can_help() {
    assert_eq!(flash_init(Call::Init, 0), Next::Finish(Ok(())));
    assert_eq!(flash_init(Call::Init, ESP_ERR_NVS_NO_FREE_PAGES), Next::Call(Call::Erase));
    assert_eq!(flash_init(Call::Init, ESP_ERR_NVS_NEW_VERSION_FOUND), Next::Call(Call::Erase));
    assert_eq!(flash_init(Call::Init, 0x1101), Next::Finish(Ok(())));
    assert_eq!(flash_init(Call::Init, -1), Next::Finish(Ok(())));
    assert_eq!(flash_init(Call::Erase, 0), Next::Call(Call::Reinit));
    assert_eq!(flash_init(Call::Erase, 0x105), Next::Finish(Err(EspError(0x105))));
    assert_eq!(flash_init(Call::Reinit, 0), Next::Finish(Ok(())));
    assert_eq!(
        flash_init(Call::Reinit, ESP_ERR_NVS_NO_FREE_PAGES),
        Next::Finish(Err(EspError(ESP_ERR_NVS_NO_FREE_PAGES)))
    );
}

#[test]
fn credentials_are_padded_or_cut() {
    let field = ssid_field(b"home");
    assert_eq!(&field[..4], b"home");
    assert!(field[4..].iter().all(|&byte| byte == 0));
    let long = [b'x'; 40];
    assert_eq!(ssid_field(&long), [b'x'; 32]);
    assert_eq!(ssid_field(b""), [0u8; 32]);
    let field = password_field(b"secret");
    assert_eq!(&field[..6], b"secret");
    assert!(field[6..].iter().all(|&byte| byte == 0));
    assert_eq!(password_field(&[b'y'; 100]), [b'y'; 64]);
}

#[test]
fn a_lost_connection_is_tried_ten_times() {
    let mut retry_count = 0;
    assert_eq!(event_handler(&mut retry_count, Event::StaStart), Reaction::Connect);
    assert_eq!(retry_count, 0);
    for attempt in 1..=10 {
        assert_eq!(event_handler(&mut retry_count, Event::StaDisconnected), Reaction::Reconnect);
        assert_eq!(retry_count, attempt);
    }
    assert_eq!(event_handler(&mut retry_count, Event::StaDisconnected), Reaction::GiveUp);
    assert_eq!(retry_count, 10);
    assert_eq!(event_handler(&mut retry_count, Event::StaGotIp), Reaction::Connected);
    assert_eq!(retry_count, 0);
    assert_eq!(event_handler(&mut retry_count, Event::StaDisconnected), Reaction::Reconnect);
    assert_eq!(retry_count, 1);
}

#[test]
fn other_events_are_ignored() {
    let mut retry_count = 3;
    assert_eq!(event_handler(&mut retry_count, Event::WifiOther), Reaction::Ignore);
    assert_eq!(event_handler(&mut retry_count, Event::IpOther), Reaction::Ignore);
    assert_eq!(event_handler(&mut retry_count, Event::Unknown), Reaction::Ignore);
    assert_eq!(retry_count, 3);
}
