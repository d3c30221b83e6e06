use epd_waveshare::buffer_len;
use epd_waveshare::color::Color;
use epd_waveshare::epd2in13b_v3::command::{Command, DriverOutput, I32Ext};
use epd_waveshare::interface::line_is_busy;

#[test]
fn vcom_whole_table() {
    let expected: [u8; 29] = [
        0x08, 0x0B, 0x10, 0x14, 0x17, 0x1B, 0x20, 0x24, 0x28, 0x2C, 0x2F, 0x34, 0x37, 0x3C, 0x40,
        0x44, 0x48, 0x4B, 0x50, 0x54, 0x58, 0x5B, 0x5F, 0x64, 0x68, 0x6C, 0x6F, 0x73, 0x78,
    ];
    for magnitude in 2..=30i32 {
        let code = (-magnitude).vcom().0;
        assert_eq!(code, expected[(magnitude - 2) as usize], "magnitude {}", magnitude);
    }
}

#[test]
fn vcom_spot_values() {
    assert_eq!((-2i32).vcom().0, 0x08);
    assert_eq!((-15i32).vcom().0, 0x3C);
    assert_eq!((-30i32).vcom().0, 0x78);
}

#[test]
fn gate_driving_every_step() {
    let mut decivolts: i32 = 100;
    while decivolts <= 210 {
        let code = decivolts.gate_driving_decivolt().0;
        assert_eq!(i32::from(code), (decivolts - 100) / 5 + 3);
        decivolts += 5;
    }
}

#[test]
fn gate_driving_ends_of_range() {
    assert_eq!(100i32.gate_driving_decivolt().0, 0x03);
    assert_eq!(105i32.gate_driving_decivolt().0, 0x04);
    assert_eq!(210i32.gate_driving_decivolt().0, 0x19);
}

#[test]
fn source_driving_fine_steps() {
    assert_eq!(24i32.source_driving_decivolt().0, 0x8E);
    assert_eq!(25i32.source_driving_decivolt().0, 0x8F);
    assert_eq!(88i32.source_driving_decivolt().0, 0xCE);
}

#[test]
fn source_driving_positive_half_volt_steps() {
    assert_eq!(90i32.source_driving_decivolt().0, 0x23);
    assert_eq!(95i32.source_driving_decivolt().0, 0x25);
    assert_eq!(100i32.source_driving_decivolt().0, 0x28);
    assert_eq!(180i32.source_driving_decivolt().0, 0x50);
}

#[test]
fn source_driving_negative_half_volt_steps() {
    assert_eq!((-90i32).source_driving_decivolt().0, 0x1A);
    assert_eq!((-95i32).source_driving_decivolt().0, 0x1C);
    assert_eq!((-180i32).source_driving_decivolt().0, 0x3E);
}

#[test]
fn driver_output_linear_g0_first_decreasing() {
    let output = DriverOutput {
        scan_is_linear: true,
        scan_g0_is_first: true,
        scan_dir_incr: false,
        width: 211,
    };
    assert_eq!(output.to_bytes(), [0xD3, 0x00, 0b0000_0001]);
}

#[test]
fn driver_output_each_flag_has_its_bit() {
    let encode = |linear: bool, g0_first: bool, incr: bool| {
        DriverOutput {
            scan_is_linear: linear,
            scan_g0_is_first: g0_first,
            scan_dir_incr: incr,
            width: 0,
        }
        .to_bytes()[2]
    };
    assert_eq!(encode(true, true, true), 0b000);
    assert_eq!(encode(true, true, false), 0b001);
    assert_eq!(encode(true, false, true), 0b010);
    assert_eq!(encode(false, true, true), 0b100);
    assert_eq!(encode(false, false, false), 0b111);
}

#[test]
fn driver_output_width_is_little_endian() {
    let output = DriverOutput {
        scan_is_linear: true,
        scan_g0_is_first: true,
        scan_dir_incr: true,
        width: 0x1234,
    };
    assert_eq!(output.to_bytes(), [0x34, 0x12, 0x00]);
    let widest = DriverOutput {
        scan_is_linear: false,
        scan_g0_is_first: false,
        scan_dir_incr: false,
        width: 0xFFFF,
    };
    assert_eq!(widest.to_bytes(), [0xFF, 0xFF, 0x07]);
}

#[test]
fn command_addresses() {
    assert_eq!(Command::DriverOutputControl.address(), 0x61);
    assert_eq!(Command::WriteVcomRegister.address(), 0x50);
    assert_eq!(Command::WriteRamRed.address(), 0x13);
    assert_eq!(Command::WriteRam.address(), 0x10);
    assert_eq!(Command::WriteLutRegister.address(), 0x00);
    assert_eq!(Command::DisplayRefresh.address(), 0x12);
    assert_eq!(Command::PowerOff.address(), 0x02);
    assert_eq!(Command::DeepSleep.address(), 0x07);
}

#[test]
fn color_fill_bytes() {
    assert_eq!(Color::White.get_byte_value(), 0xff);
    assert_eq!(Color::Black.get_byte_value(), 0x00);
}

#[test]
fn buffer_len_rounds_rows_up() {
    assert_eq!(buffer_len(104, 212), 2756);
    assert_eq!(buffer_len(122, 250), 4000);
    assert_eq!(buffer_len(8, 1), 1);
    assert_eq!(buffer_len(9, 1), 2);
    assert_eq!(buffer_len(1, 3), 3);
    assert_eq!(buffer_len(0, 5), 0);
    assert_eq!(buffer_len(16, 0), 0);
}

#[test]
fn busy_is_any_level_but_the_idle_one() {
    assert!(line_is_busy(false, true));
    assert!(!line_is_busy(false, false));
    assert!(line_is_busy(true, false));
    assert!(!line_is_busy(true, true));
}
