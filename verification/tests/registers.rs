use api::driver::sgtl5000::i2c::{
    check_chip_id, configure, dump_registers, modify, program, register_defaults, Action, Op,
    Progress, Register, Request,
};
use api::driver::wm8731;
use api::esp_idf::{EspError, ESP_ERR_INVALID_RESPONSE};
use api::i2c::{address_byte, lsb, master_config, msb, word, MasterConfig, Pins};

#[test]
fn address_byte_carries_the_direction_in_the_lowest_bit() {
    assert_eq!(address_byte(0x0a, false), 0x14);
    assert_eq!(address_byte(0x0a, true), 0x15);
    assert_eq!(address_byte(0x1a, false), 0x34);
    assert_eq!(address_byte(0x3c, false), 0x78);
    assert_eq!(address_byte(0x7f, true), 0xff);
}

#[test]
fn address_byte_drops_an_eighth_address_bit() {
    assert_eq!(address_byte(0x80, false), 0x00);
    assert_eq!(address_byte(0xff, true), 0xff);
    assert_eq!(address_byte(0x8a, false), 0x14);
}

#[test]
fn words_split_and_join() {
    assert_eq!(msb(0xa011), 0xa0);
    assert_eq!(lsb(0xa011), 0x11);
    assert_eq!(word(0xa0, 0x11), 0xa011);
    assert_eq!(word(msb(0x1234), lsb(0x1234)), 0x1234);
    assert_eq!(word(0xff, 0xff), 0xffff);
    assert_eq!(word(0, 0), 0);
}

#[test]
fn master_config_pulls_up_both_lines_or_neither() {
    let pins = Pins::new();
    assert_eq!(pins, Pins { scl: 23, sda: 18 });
    assert_eq!(
        master_config(pins, true),
        MasterConfig {
            scl_io_num: 23,
            sda_io_num: 18,
            scl_pullup_en: true,
            sda_pullup_en: true,
            clk_speed: 100_000
        }
    );
    assert!(!wm8731::i2c::init(pins).scl_pullup_en);
    assert!(!wm8731::i2c::init(pins).sda_pullup_en);
    assert!(api::driver::sgtl5000::i2c::init(pins).scl_pullup_en);
    assert!(api::driver::sgtl5000::i2c::init(pins).sda_pullup_en);
}

#[test]
fn sgtl5000_register_addresses() {
    assert_eq!(Register::CHIP_ID.into(), 0x0000);
    assert_eq!(Register::CHIP_DIG_POWER.into(), 0x0002);
    assert_eq!(Register::CHIP_ANA_POWER.into(), 0x0030);
    assert_eq!(Register::CHIP_SHORT_CTRL.into(), 0x003C);
    assert_eq!(Register::DAP_CTRL.into(), 0x0100);
    assert_eq!(Register::DAP_COEF_WR_A2_LSB.into(), 0x013A);
}

#[test]
fn sgtl5000_read_frames() {
    let frames = api::driver::sgtl5000::i2c::read(0x0a, Register::CHIP_ANA_POWER);
    assert_eq!(frames.select, [0x14, 0x00, 0x30]);
    assert_eq!(frames.restart, 0x15);
    let frames = api::driver::sgtl5000::i2c::read(0x0a, Register::DAP_AVC_CTRL);
    assert_eq!(frames.select, [0x14, 0x01, 0x24]);
    assert_eq!(api::driver::sgtl5000::i2c::value(0xa0, 0x11), 0xa011);
}

#[test]
fn sgtl5000_write_frame_is_most_significant_byte_first() {
    assert_eq!(
        api::driver::sgtl5000::i2c::write(0x0a, Register::CHIP_ANA_POWER, 0x4260),
        [0x14, 0x00, 0x30, 0x42, 0x60]
    );
    assert_eq!(
        api::driver::sgtl5000::i2c::write(0x0a, Register::DAP_AVC_THRESHOLD, 0x1473),
        [0x14, 0x01, 0x26, 0x14, 0x73]
    );
}

#[test]
fn chip_id_is_judged_by_its_upper_byte() {
    assert_eq!(check_chip_id(0xa000), Ok(()));
    assert_eq!(check_chip_id(0xa011), Ok(()));
    assert_eq!(check_chip_id(0xa0ff), Ok(()));
    assert_eq!(check_chip_id(0xa100), Err(EspError(ESP_ERR_INVALID_RESPONSE)));
    assert_eq!(check_chip_id(0x0000), Err(EspError(ESP_ERR_INVALID_RESPONSE)));
    assert_eq!(check_chip_id(0xffff), Err(EspError(ESP_ERR_INVALID_RESPONSE)));
}

#[test]
fn modify_replaces_a_bit_field() {
    assert_eq!(modify(0xffff, 5, 4, 0b01), 0xffdf);
    assert_eq!(modify(0x0000, 5, 4, 0b01), 0x0010);
    assert_eq!(modify(0x0010, 1, 0, 0b00), 0x0010);
    assert_eq!(modify(0x020c, 0, 0, 0b1), 0x020d);
    assert_eq!(modify(0x020d, 9, 8, 0b11), 0x030d);
    assert_eq!(modify(0x030d, 3, 2, 0b00), 0x0301);
    assert_eq!(modify(0x0111, 8, 0, 0b000000100), 0x0004);
    assert_eq!(modify(0xfe00, 8, 0, 0b100110000), 0xff30);
    assert_eq!(modify(0x1234, 15, 2, 0), 0x0000);
    assert_eq!(modify(0x1234, 15, 15, 1), 0x9234);
}

#[test]
fn modify_lays_an_oversized_value_over_the_word() {
    assert_eq!(modify(0x0000, 1, 0, 0b111), 0x0007);
}

#[test]
fn program_restores_the_defaults_first() {
    let defaults = register_defaults();
    let ops = program();
    assert_eq!(defaults.len(), 35);
    assert_eq!(ops.len(), 54);
    for (k, (register, value)) in defaults.iter().enumerate() {
        assert_eq!(ops[k], Op::Write { register: *register, value: *value });
    }
    assert_eq!(defaults[0], (Register::CHIP_DIG_POWER, 0x0000));
    assert_eq!(defaults[34], (Register::DAP_AVC_DECAY, 0x0050));
    assert_eq!(ops[35], Op::Write { register: Register::CHIP_ANA_POWER, value: 0x4260 });
    assert_eq!(ops[41], Op::Write { register: Register::CHIP_DIG_POWER, value: 0b1100011 });
    assert_eq!(
        ops[43],
        Op::Modify { register: Register::CHIP_CLK_CTRL, bit_hi: 5, bit_lo: 0, value: 0b001000 }
    );
    assert_eq!(
        ops[53],
        Op::Modify { register: Register::CHIP_ANA_CTRL, bit_hi: 8, bit_lo: 0, value: 0b100 }
    );
}

#[test]
fn dump_reads_sixteen_registers() {
    let registers = dump_registers();
    assert_eq!(registers.len(), 16);
    assert_eq!(registers[0], Register::CHIP_ID);
    assert_eq!(registers[15], Register::CHIP_ANA_CTRL);
}

#[test]
fn configure_begins_with_the_identification() {
    let (machine, first) = configure();
    assert_eq!(first, Request::Read { register: Register::CHIP_ID });
    assert_eq!(machine.current(), Progress::Identify);
}

#[test]
fn configure_refuses_an_unknown_chip_before_any_write() {
    let (mut machine, _) = configure();
    assert_eq!(machine.step(Ok(0x1234)), Action::Finish(Err(EspError(ESP_ERR_INVALID_RESPONSE))));
    assert_eq!(machine.current(), Progress::Finished);
}

#[test]
fn configure_ends_with_the_error_of_a_failed_transfer() {
    let (mut machine, _) = configure();
    assert_eq!(machine.step(Err(EspError(-1))), Action::Finish(Err(EspError(-1))));
    assert_eq!(machine.current(), Progress::Finished);

    let (mut machine, _) = configure();
    assert_eq!(
        machine.step(Ok(0xa011)),
        Action::Transfer(Request::Write { register: Register::CHIP_DIG_POWER, value: 0 })
    );
    assert_eq!(machine.current(), Progress::Writing(0));
    assert_eq!(machine.step(Err(EspError(0x107))), Action::Finish(Err(EspError(0x107))));
    assert_eq!(machine.current(), Progress::Finished);
}

// Runs the whole configuration against a model of the chip's registers and
// returns the transfers in the order in which they were asked for.
fn run_configuration(registers: &mut Vec<(Register, u16)>) -> (Vec<Request>, Result<(), EspError>) {
    let (mut machine, first) = configure();
    let mut requests = vec![first];
    let mut reply: Result<u16, EspError> = Ok(0xa011);
    loop {
        match machine.step(reply) {
            Action::Finish(result) => return (requests, result),
            Action::Transfer(request) => {
                requests.push(request);
                reply = match request {
                    Request::Read { register } => Ok(registers
                        .iter()
                        .rev()
                        .find(|(r, _)| *r == register)
                        .map(|(_, v)| *v)
                        .unwrap_or(0)),
                    Request::Write { register, value } => {
                        registers.push((register, value));
                        Ok(0)
                    }
                };
            }
        }
    }
}

#[test]
fn configure_applies_the_program_in_order() {
    let mut registers = Vec::new();
    let (requests, result) = run_configuration(&mut registers);
    assert_eq!(result, Ok(()));
    let ops = program();
    let mut expected = vec![Request::Read { register: Register::CHIP_ID }];
    let mut model: Vec<(Register, u16)> = Vec::new();
    for op in ops.iter() {
        match *op {
            Op::Write { register, value } => {
                expected.push(Request::Write { register, value });
                model.push((register, value));
            }
            Op::Modify { register, bit_hi, bit_lo, value } => {
                expected.push(Request::Read { register });
                let current =
                    model.iter().rev().find(|(r, _)| *r == register).map(|(_, v)| *v).unwrap_or(0);
                let written = modify(current, bit_hi, bit_lo, value);
                expected.push(Request::Write { register, value: written });
                model.push((register, written));
            }
        }
    }
    assert_eq!(requests, expected);
    assert_eq!(requests.len(), 1 + 54 + 8);
}

#[test]
fn configure_leaves_the_registers_in_the_configured_state() {
    let mut registers = Vec::new();
    let (_, result) = run_configuration(&mut registers);
    assert_eq!(result, Ok(()));
    let last = |register: Register| {
        registers.iter().rev().find(|(r, _)| *r == register).map(|(_, v)| *v).unwrap()
    };
    assert_eq!(last(Register::CHIP_ANA_POWER), 0x40ff);
    assert_eq!(last(Register::CHIP_CLK_CTRL), 0x0008);
    assert_eq!(last(Register::CHIP_I2S_CTRL), 0x0130);
    assert_eq!(last(Register::CHIP_SSS_CTRL), 0x0010);
    assert_eq!(last(Register::CHIP_ADCDAC_CTRL), 0x0301);
    assert_eq!(last(Register::CHIP_ANA_CTRL), 0x0004);
    assert_eq!(last(Register::CHIP_DAC_VOL), 0x3c3c);
    assert_eq!(last(Register::CHIP_ANA_HP_CTRL), 0x3a3a);
}

#[test]
fn configuration_ends_in_the_finished_state() {
    let mut registers = Vec::new();
    let (mut machine, _) = configure();
    let mut reply = Ok(0xa000);
    let mut transfers = 0;
    while machine.current() != Progress::Finished {
        if let Action::Transfer(Request::Write { register, value }) = machine.step(reply) {
            registers.push((register, value));
        }
        reply = Ok(0);
        transfers += 1;
    }
    assert_eq!(transfers, 1 + 54 + 8);
    assert_eq!(registers.len(), 54);
}

#[test]
fn wm8731_register_addresses() {
    assert_eq!(wm8731::i2c::Register::LINVOL.into(), 0x00);
    assert_eq!(wm8731::i2c::Register::PWR.into(), 0x06);
    assert_eq!(wm8731::i2c::Register::ACTIVE.into(), 0x09);
    assert_eq!(wm8731::i2c::Register::RESET.into(), 0x0F);
}

#[test]
fn wm8731_frame_puts_the_ninth_bit_under_the_register() {
    assert_eq!(wm8731::i2c::frame(0x1a, wm8731::i2c::Register::PWR, 0x80), [0x34, 0x0c, 0x80]);
    assert_eq!(wm8731::i2c::frame(0x1a, wm8731::i2c::Register::RESET, 0x00), [0x34, 0x1e, 0x00]);
    assert_eq!(wm8731::i2c::frame(0x1a, wm8731::i2c::Register::LINVOL, 0x117), [0x34, 0x01, 0x17]);
    assert_eq!(wm8731::i2c::frame(0x1b, wm8731::i2c::Register::ACTIVE, 0x01), [0x36, 0x12, 0x01]);
}

#[test]
fn wm8731_configure_follows_the_register_configuration() {
    let config = wm8731::i2c::register_config();
    let frames = wm8731::i2c::configure(0x1a);
    assert_eq!(config.len(), 13);
    assert_eq!(frames.len(), 13);
    for (k, (register, value)) in config.iter().enumerate() {
        assert_eq!(frames[k], wm8731::i2c::frame(0x1a, *register, *value));
    }
    assert_eq!(frames[0], [0x34, 0x0c, 0x80]);
    assert_eq!(frames[1], [0x34, 0x1e, 0x00]);
    assert_eq!(frames[6], [0x34, 0x0e, 0x42]);
    assert_eq!(frames[12], [0x34, 0x12, 0x01]);
}
