//! Commands and register encodings of the display controller.
use bit_field::BitField;
use vstd::prelude::*;

verus! {

/// `byte` with bit `bit` set to `value`; bit 0 is the least significant.
pub open spec fn with_bit(byte: u8, bit: usize, value: bool) -> u8 {
    if value {
        byte | (1u8 << bit)
    } else {
        byte & !(1u8 << bit)
    }
}

/// Calls `bit_field::BitField::set_bit` on a `u8`. The contract states what
/// the method does to the byte: bit `bit` becomes `value` and the other bits
/// stay. The method panics on a bit index of eight or more, which `requires`
/// leaves out.
#[verifier::external_body]
fn set_bit(byte: u8, bit: usize, value: bool) -> (r: u8)
    requires
        bit < 8,
    ensures
        r == with_bit(byte, bit, value),
{
    let mut b = byte;
    b.set_bit(bit, value);
    b
}

/// Gate-scan configuration of the controller.
pub struct DriverOutput {
    pub scan_is_linear: bool,
    pub scan_g0_is_first: bool,
    pub scan_dir_incr: bool,
    pub width: u16,
}

impl DriverOutput {
    /// The packed scan byte: bit 0 is set for a decreasing scan direction,
    /// bit 1 when gate 0 is not scanned first, bit 2 for an interlaced scan.
    pub open spec fn spec_scan_byte(&self) -> int {
        (if self.scan_dir_incr { 0int } else { 1 })
        + (if self.scan_g0_is_first { 0int } else { 2 })
        + (if self.scan_is_linear { 0int } else { 4 })
    }

    /// The wire encoding: the low byte of the width, its high byte, and the
    /// packed scan byte.
    pub open spec fn spec_to_bytes(&self) -> Seq<u8> {
        seq![
            (self.width % 256) as u8,
            (self.width / 256) as u8,
            self.spec_scan_byte() as u8,
        ]
    }

    /// Encodes the configuration as the three bytes the controller expects.
    pub fn to_bytes(&self) -> (bytes: [u8; 3])
        ensures
            bytes@ == self.spec_to_bytes(),
    {
        let low: u8 = (self.width & 0xff) as u8;
        let high: u8 = (self.width >> 8) as u8;
        let b0: u8 = set_bit(0u8, 0, !self.scan_dir_incr);
        let b1: u8 = set_bit(b0, 1, !self.scan_g0_is_first);
        let b2: u8 = set_bit(b1, 2, !self.scan_is_linear);
        proof {
            let w = self.width;
            assert(w & 0xff == w % 256) by (bit_vector);
            assert(w >> 8 == w / 256) by (bit_vector);
            assert(0u8 | (1u8 << 0usize) == 1u8) by (bit_vector);
            assert(0u8 & !(1u8 << 0usize) == 0u8) by (bit_vector);
            assert(b0 <= 1 ==> b0 | (1u8 << 1usize) == b0 + 2) by (bit_vector);
            assert(b0 <= 1 ==> b0 & !(1u8 << 1usize) == b0) by (bit_vector);
            assert(b1 <= 3 ==> b1 | (1u8 << 2usize) == b1 + 4) by (bit_vector);
            assert(b1 <= 3 ==> b1 & !(1u8 << 2usize) == b1) by (bit_vector);
        }
        let bytes = [low, high, b2];
        assert(bytes@ =~= self.spec_to_bytes());
        bytes
    }
}

/// An opcode of the controller.
#[derive(Clone, Copy, Debug, PartialEq, Eq, Structural)]
pub enum Command {
    DriverOutputControl,
    WriteVcomRegister,
    WriteRamRed,
    WriteRam,
    WriteLutRegister,
    DisplayRefresh,
    PowerOff,
    DeepSleep,
}

impl Command {
    /// The address byte of the command.
    pub open spec fn spec_address(self) -> u8 {
        match self {
            Command::DriverOutputControl => 0x61,
            Command::WriteVcomRegister => 0x50,
            Command::WriteRamRed => 0x13,
            Command::WriteRam => 0x10,
            Command::WriteLutRegister => 0x00,
            Command::DisplayRefresh => 0x12,
            Command::PowerOff => 0x02,
            Command::DeepSleep => 0x07,
        }
    }

    /// Returns the address of the command.
    pub fn address(self) -> (opcode: u8)
        ensures
            opcode == self.spec_address(),
    {
        match self {
            Command::DriverOutputControl => 0x61,
            Command::WriteVcomRegister => 0x50,
            Command::WriteRamRed => 0x13,
            Command::WriteRam => 0x10,
            Command::WriteLutRegister => 0x00,
            Command::DisplayRefresh => 0x12,
            Command::PowerOff => 0x02,
            Command::DeepSleep => 0x07,
        }
    }
}

/// Register code of a gate driving voltage.
#[derive(Clone, Copy, Debug, PartialEq, Eq, Structural)]
pub struct GateDrivingVoltage(pub u8);

/// Register code of a source driving voltage.
#[derive(Clone, Copy, Debug, PartialEq, Eq, Structural)]
pub struct SourceDrivingVoltage(pub u8);

/// Register code of a common voltage.
#[derive(Clone, Copy, Debug, PartialEq, Eq, Structural)]
pub struct Vcom(pub u8);

/// The register codes of the common voltages from -0.2 V to -3.0 V, in steps
/// of a tenth of a volt.
pub open spec fn vcom_table() -> Seq<u8> {
    seq![
        0x08u8, 0x0B, 0x10, 0x14, 0x17, 0x1B, 0x20, 0x24, 0x28, 0x2C,
        0x2F, 0x34, 0x37, 0x3C, 0x40, 0x44, 0x48, 0x4B, 0x50, 0x54,
        0x58, 0x5B, 0x5F, 0x64, 0x68, 0x6C, 0x6F, 0x73, 0x78,
    ]
}

/// Whether `decivolts` is a common voltage the controller supports.
pub open spec fn vcom_in_domain(decivolts: int) -> bool {
    -30 <= decivolts <= -2
}

/// The register code of a common voltage of `decivolts` tenths of a volt.
pub open spec fn vcom_code(decivolts: int) -> u8
    recommends
        vcom_in_domain(decivolts),
{
    vcom_table()[-decivolts - 2]
}

/// Whether `decivolts` is a gate driving voltage the controller supports:
/// 10 V to 21 V in steps of half a volt.
pub open spec fn gate_driving_in_domain(decivolts: int) -> bool {
    100 <= decivolts <= 210 && decivolts % 5 == 0
}

/// The register code of a gate driving voltage.
pub open spec fn gate_driving_code(decivolts: int) -> int
    recommends
        gate_driving_in_domain(decivolts),
{
    (decivolts - 100) / 5 + 0x03
}

/// Whether `decivolts` is a source driving voltage the controller supports:
/// 2.4 V to 8.8 V in steps of a tenth of a volt, or 9 V to 18 V of either
/// sign in steps of half a volt.
pub open spec fn source_driving_in_domain(decivolts: int) -> bool {
    24 <= decivolts <= 88 || (decivolts % 5 == 0 && (90 <= decivolts <= 180 || -180 <= decivolts
        <= -90))
}

/// The register code of a source driving voltage.
pub open spec fn source_driving_code(decivolts: int) -> int
    recommends
        source_driving_in_domain(decivolts),
{
    if 24 <= decivolts <= 88 {
        (decivolts - 24) + 0x8E
    } else if 90 <= decivolts <= 180 {
        (decivolts - 90) / 2 + 0x23
    } else {
        ((-decivolts - 90) / 5) * 2 + 0x1A
    }
}

/// Conversions from tenths of a volt to register codes.
pub trait I32Ext: Sized {
    /// The value in tenths of a volt.
    spec fn decivolts(self) -> int;

    /// The register code of this common voltage.
    fn vcom(self) -> (v: Vcom)
        requires
            vcom_in_domain(self.decivolts()),
        ensures
            v.0 == vcom_code(self.decivolts()),
    ;

    /// The register code of this gate driving voltage.
    fn gate_driving_decivolt(self) -> (v: GateDrivingVoltage)
        requires
            gate_driving_in_domain(self.decivolts()),
        ensures
            v.0 == gate_driving_code(self.decivolts()),
    ;

    /// The register code of this source driving voltage.
    fn source_driving_decivolt(self) -> (v: SourceDrivingVoltage)
        requires
            source_driving_in_domain(self.decivolts()),
        ensures
            v.0 == source_driving_code(self.decivolts()),
    ;
}

impl I32Ext for i32 {
    open spec fn decivolts(self) -> int {
        self as int
    }

    fn vcom(self) -> (v: Vcom) {
        let magnitude: i32 = -self;
        let u: u8 = match magnitude {
            2 => 0x08,
            3 => 0x0B,
            4 => 0x10,
            5 => 0x14,
            6 => 0x17,
            7 => 0x1B,
            8 => 0x20,
            9 => 0x24,
            10 => 0x28,
            11 => 0x2C,
            12 => 0x2F,
            13 => 0x34,
            14 => 0x37,
            15 => 0x3C,
            16 => 0x40,
            17 => 0x44,
            18 => 0x48,
            19 => 0x4B,
            20 => 0x50,
            21 => 0x54,
            22 => 0x58,
            23 => 0x5B,
            24 => 0x5F,
            25 => 0x64,
            26 => 0x68,
            27 => 0x6C,
            28 => 0x6F,
            29 => 0x73,
            30 => 0x78,
            _ => 0,
        };
        Vcom(u)
    }

    fn gate_driving_decivolt(self) -> (v: GateDrivingVoltage) {
        GateDrivingVoltage(((self - 100) / 5 + 0x03) as u8)
    }

    fn source_driving_decivolt(self) -> (v: SourceDrivingVoltage) {
        if 24 <= self && self <= 88 {
            SourceDrivingVoltage(((self - 24) + 0x8E) as u8)
        } else if 90 <= self && self <= 180 {
            SourceDrivingVoltage(((self - 90) / 2 + 0x23) as u8)
        } else {
            SourceDrivingVoltage((((-self - 90) / 5) * 2 + 0x1A) as u8)
        }
    }
}

} // verus!
