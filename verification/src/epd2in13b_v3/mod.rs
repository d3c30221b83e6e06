//! Driver for the Waveshare 2.13" (B, V3) e-ink display.
//!
//! [`Epd2in13`] holds the session state of one display and turns each
//! lifecycle operation into the list of bus operations that performs it.
use crate::color::Color;
use crate::interface::{line_is_busy, spec_line_is_busy, BusOp, Transfer};
use crate::{buffer_len, spec_buffer_len};
use crate::traits::RefreshLut;
use self::command::{Command, DriverOutput};
use vstd::prelude::*;
use vstd::slice::slice_to_vec;

pub mod command;

verus! {

/// Width of the display in pixels.
pub const WIDTH: u32 = 104;

/// Height of the display in pixels.
pub const HEIGHT: u32 = 212;

/// Default background color.
pub const DEFAULT_BACKGROUND_COLOR: Color = Color::White;

/// The controller holds its status line low while it is busy, so the idle
/// level is high.
pub const IDLE_LEVEL_IS_LOW: bool = false;

/// How long the reset line is held, in milliseconds.
pub const RESET_HOLD_MS: u32 = 10;

/// How long the controller is left alone after a reset, in milliseconds.
pub const RESET_SETTLE_MS: u32 = 10;

/// Payload of the driver output control command: the panel's 104 columns and
/// 212 rows.
pub open spec fn driver_output_payload() -> Seq<u8> {
    seq![0x68u8, 0x00, 0xd4]
}

/// Common-voltage register value while the panel is in use.
pub const VCOM_ACTIVE: u8 = 0x77;

/// Common-voltage register value written before the controller goes to
/// sleep.
pub const VCOM_SLEEP: u8 = 0xf7;

/// Check code the controller asks for with the deep sleep command.
pub const DEEP_SLEEP_CHECK: u8 = 0xa5;

/// Size in bytes of one frame of this display.
pub open spec fn frame_len() -> int {
    spec_buffer_len(WIDTH as int, HEIGHT as int)
}

/// Waiting for the controller to finish what it is doing.
pub open spec fn wait_idle() -> Transfer {
    Transfer::WaitUntilIdle { idle_level_is_low: IDLE_LEVEL_IS_LOW }
}

/// A command without payload.
pub open spec fn plain(command: Command) -> Transfer {
    Transfer::Command { opcode: command.spec_address() }
}

/// A command followed by its payload.
pub open spec fn with_data(command: Command, data: Seq<u8>) -> Transfer {
    Transfer::CommandWithData { opcode: command.spec_address(), data }
}

/// Bus traffic of an initialization with waveform table `lut`: a hardware
/// reset, then the waveform table, the driver output and the common voltage,
/// each awaited before the next is sent.
pub open spec fn init_sequence(lut: Seq<u8>) -> Seq<Transfer> {
    seq![
        Transfer::Reset { hold_ms: RESET_HOLD_MS },
        Transfer::Delay { ms: RESET_SETTLE_MS },
        wait_idle(),
        with_data(Command::WriteLutRegister, lut),
        wait_idle(),
        with_data(Command::DriverOutputControl, driver_output_payload()),
        wait_idle(),
        with_data(Command::WriteVcomRegister, seq![VCOM_ACTIVE]),
        wait_idle(),
    ]
}

/// Bus traffic that puts the controller into deep sleep.
pub open spec fn sleep_sequence() -> Seq<Transfer> {
    seq![
        wait_idle(),
        with_data(Command::WriteVcomRegister, seq![VCOM_SLEEP]),
        wait_idle(),
        plain(Command::PowerOff),
        with_data(Command::DeepSleep, seq![DEEP_SLEEP_CHECK]),
    ]
}

/// Bus traffic that writes `buffer` to the black-and-white RAM plane.
pub open spec fn write_ram_sequence(buffer: Seq<u8>) -> Seq<Transfer> {
    seq![with_data(Command::WriteRam, buffer)]
}

/// Bus traffic of a refresh of the panel from controller RAM.
pub open spec fn display_sequence() -> Seq<Transfer> {
    seq![wait_idle(), plain(Command::DisplayRefresh), wait_idle()]
}

/// Bus traffic that fills the black-and-white RAM plane with `color`.
pub open spec fn clear_sequence(color: Color) -> Seq<Transfer> {
    seq![
        plain(Command::WriteRam),
        Transfer::DataFill { byte: color.spec_byte_value(), count: frame_len() as u32 },
    ]
}

/// The session state of a driver.
pub struct Session {
    /// Color that `clear_frame` fills the panel with.
    pub background_color: Color,
    /// Refresh mode the controller was last initialized for.
    pub refresh: RefreshLut,
    /// Waveform table sent at every initialization.
    pub lut: Seq<u8>,
}

/// The session a change of refresh mode leads to, and the bus traffic it
/// takes: none if the mode stays, a full initialization if it changes.
pub open spec fn set_refresh_step(session: Session, refresh: RefreshLut) -> (Session, Seq<Transfer>) {
    if session.refresh == refresh {
        (session, Seq::<Transfer>::empty())
    } else {
        (Session { refresh, ..session }, init_sequence(session.lut))
    }
}

/// Setting the mode that was just set takes no bus traffic and changes
/// nothing: only the first of two equal calls in a row can reach the
/// controller.
pub proof fn lemma_set_refresh_repeated(session: Session, refresh: RefreshLut)
    ensures
        set_refresh_step(set_refresh_step(session, refresh).0, refresh) == (
            set_refresh_step(session, refresh).0,
            Seq::<Transfer>::empty(),
        ),
{
}

/// Setting a mode other than the current one takes exactly the traffic of a
/// full initialization, and changes nothing of the session but the mode.
pub proof fn lemma_set_refresh_changed(session: Session, refresh: RefreshLut)
    requires
        session.refresh != refresh,
    ensures
        set_refresh_step(session, refresh).1 == init_sequence(session.lut),
        set_refresh_step(session, refresh).0 == (Session { refresh, ..session }),
{
}

/// Epd2in13 (B, V3) driver.
pub struct Epd2in13 {
    background_color: Color,
    refresh: RefreshLut,
    lut: Vec<u8>,
}

impl View for Epd2in13 {
    type V = Session;

    closed spec fn view(&self) -> Session {
        Session { background_color: self.background_color, refresh: self.refresh, lut: self.lut@ }
    }
}

impl Epd2in13 {
    /// Creates a driver with the default background color and full refresh,
    /// together with the bus traffic that initializes the controller. The
    /// driver is ready once every operation of that traffic has succeeded.
    pub fn new(lut: Vec<u8>) -> (r: (Epd2in13, Vec<BusOp>))
        ensures
            r.0@ == (Session {
                background_color: DEFAULT_BACKGROUND_COLOR,
                refresh: RefreshLut::Full,
                lut: lut@,
            }),
            r.1.deep_view() == init_sequence(lut@),
    {
        let epd = Epd2in13 {
            background_color: DEFAULT_BACKGROUND_COLOR,
            refresh: RefreshLut::Full,
            lut,
        };
        let plan = epd.init();
        (epd, plan)
    }

    /// Bus traffic that resets and initializes the controller.
    pub fn init(&self) -> (plan: Vec<BusOp>)
        ensures
            plan.deep_view() == init_sequence(self@.lut),
    {
        let mut plan: Vec<BusOp> = Vec::new();
        plan.push(BusOp::Reset { hold_ms: RESET_HOLD_MS });
        plan.push(BusOp::Delay { ms: RESET_SETTLE_MS });
        plan.push(self.wait_until_idle());
        plan.push(self.lut_op());
        plan.push(self.wait_until_idle());
        plan.push(
            self.set_driver_output(
                DriverOutput {
                    scan_is_linear: true,
                    scan_g0_is_first: true,
                    scan_dir_incr: false,
                    width: (HEIGHT - 1) as u16,
                },
            ),
        );
        plan.push(self.wait_until_idle());
        plan.push(self.set_vcom_register());
        plan.push(self.wait_until_idle());
        assert(plan.deep_view() =~= init_sequence(self@.lut));
        plan
    }

    /// Bus traffic that wakes the controller from deep sleep: a full
    /// initialization.
    pub fn wake_up(&self) -> (plan: Vec<BusOp>)
        ensures
            plan.deep_view() == init_sequence(self@.lut),
    {
        self.init()
    }

    /// Bus traffic that puts the controller into deep sleep. Afterwards it
    /// answers to nothing but a hardware reset.
    pub fn sleep(&self) -> (plan: Vec<BusOp>)
        ensures
            plan.deep_view() == sleep_sequence(),
    {
        let mut plan: Vec<BusOp> = Vec::new();
        plan.push(self.wait_until_idle());
        plan.push(self.byte_op(Command::WriteVcomRegister, VCOM_SLEEP));
        plan.push(self.wait_until_idle());
        plan.push(self.command(Command::PowerOff));
        plan.push(self.byte_op(Command::DeepSleep, DEEP_SLEEP_CHECK));
        assert(plan.deep_view() =~= sleep_sequence());
        plan
    }

    /// Bus traffic that writes a whole frame to the black-and-white RAM
    /// plane. Nothing is shown until the panel is refreshed.
    pub fn update_frame(&self, buffer: &[u8]) -> (plan: Vec<BusOp>)
        requires
            buffer@.len() == frame_len(),
        ensures
            plan.deep_view() == write_ram_sequence(buffer@),
    {
        let mut plan: Vec<BusOp> = Vec::new();
        plan.push(self.cmd_with_data(Command::WriteRam, buffer));
        assert(plan.deep_view() =~= write_ram_sequence(buffer@));
        plan
    }

    /// Bus traffic that writes a part of a frame. The data is written from
    /// the origin of controller RAM: the offsets `_x` and `_y` do not move
    /// it.
    ///
    /// Only a driver in full refresh mode may write a partial frame.
    pub fn update_partial_frame(
        &self,
        buffer: &[u8],
        _x: u32,
        _y: u32,
        width: u32,
        height: u32,
    ) -> (plan: Vec<BusOp>)
        requires
            buffer@.len() == width * height / 8,
            self@.refresh == RefreshLut::Full,
        ensures
            plan.deep_view() == write_ram_sequence(buffer@),
    {
        let mut plan: Vec<BusOp> = Vec::new();
        plan.push(self.cmd_with_data(Command::WriteRam, buffer));
        assert(plan.deep_view() =~= write_ram_sequence(buffer@));
        plan
    }

    /// Bus traffic that refreshes the panel from controller RAM.
    pub fn display_frame(&self) -> (plan: Vec<BusOp>)
        ensures
            plan.deep_view() == display_sequence(),
    {
        let mut plan: Vec<BusOp> = Vec::new();
        plan.push(self.wait_until_idle());
        plan.push(self.command(Command::DisplayRefresh));
        plan.push(self.wait_until_idle());
        assert(plan.deep_view() =~= display_sequence());
        plan
    }

    /// Bus traffic that writes a whole frame and then refreshes the panel.
    pub fn update_and_display_frame(&self, buffer: &[u8]) -> (plan: Vec<BusOp>)
        requires
            buffer@.len() == frame_len(),
        ensures
            plan.deep_view() == write_ram_sequence(buffer@) + display_sequence(),
    {
        let mut plan = self.update_frame(buffer);
        let mut refresh = self.display_frame();
        let ghost head = plan;
        let ghost tail = refresh;
        plan.append(&mut refresh);
        assert(plan.deep_view() =~= head.deep_view() + tail.deep_view());
        plan
    }

    /// Bus traffic that fills the black-and-white RAM plane with the
    /// background color.
    pub fn clear_frame(&self) -> (plan: Vec<BusOp>)
        ensures
            plan.deep_view() == clear_sequence(self@.background_color),
    {
        let color = self.background_color.get_byte_value();
        let mut plan: Vec<BusOp> = Vec::new();
        plan.push(self.command(Command::WriteRam));
        let count: u32 = buffer_len(WIDTH as usize, HEIGHT as usize) as u32;
        plan.push(BusOp::DataFill { byte: color, count });
        assert(plan.deep_view() =~= clear_sequence(self@.background_color));
        plan
    }

    /// Sets the color that `clear_frame` fills the panel with.
    pub fn set_background_color(&mut self, background_color: Color)
        ensures
            final(self)@ == (Session { background_color, ..old(self)@ }),
    {
        self.background_color = background_color;
    }

    /// The color that `clear_frame` fills the panel with.
    pub fn background_color(&self) -> (color: &Color)
        ensures
            *color == self@.background_color,
    {
        &self.background_color
    }

    /// The refresh mode the controller was last initialized for.
    pub fn refresh(&self) -> (refresh: RefreshLut)
        ensures
            refresh == self@.refresh,
    {
        self.refresh
    }

    /// Width of the display in pixels.
    pub fn width(&self) -> (w: u32)
        ensures
            w == WIDTH,
    {
        WIDTH
    }

    /// Height of the display in pixels.
    pub fn height(&self) -> (h: u32)
        ensures
            h == HEIGHT,
    {
        HEIGHT
    }

    /// Bus traffic that loads the waveform table. The table is the same for
    /// every refresh rate.
    pub fn set_lut(&self, _refresh_rate: Option<RefreshLut>) -> (plan: Vec<BusOp>)
        ensures
            plan.deep_view() == seq![with_data(Command::WriteLutRegister, self@.lut)],
    {
        let mut plan: Vec<BusOp> = Vec::new();
        plan.push(self.lut_op());
        assert(plan.deep_view() =~= seq![with_data(Command::WriteLutRegister, self@.lut)]);
        plan
    }

    /// Whether the controller is busy, given the level of its status line.
    pub fn is_busy(&self, line_is_low: bool) -> (busy: bool)
        ensures
            busy == spec_line_is_busy(IDLE_LEVEL_IS_LOW, line_is_low),
    {
        line_is_busy(IDLE_LEVEL_IS_LOW, line_is_low)
    }

    /// Sets the refresh mode. A change of mode takes a full initialization of
    /// the controller, whose bus traffic is returned; setting the mode the
    /// driver is already in takes none.
    pub fn set_refresh(&mut self, refresh: RefreshLut) -> (plan: Vec<BusOp>)
        ensures
            (final(self)@, plan.deep_view()) == set_refresh_step(old(self)@, refresh),
    {
        if self.refresh != refresh {
            self.refresh = refresh;
            self.init()
        } else {
            let plan: Vec<BusOp> = Vec::new();
            assert(plan.deep_view() =~= Seq::<Transfer>::empty());
            plan
        }
    }

    fn lut_op(&self) -> (op: BusOp)
        ensures
            op@ == with_data(Command::WriteLutRegister, self@.lut),
    {
        self.cmd_with_data(Command::WriteLutRegister, self.lut.as_slice())
    }

    fn set_vcom_register(&self) -> (op: BusOp)
        ensures
            op@ == with_data(Command::WriteVcomRegister, seq![VCOM_ACTIVE]),
    {
        self.byte_op(Command::WriteVcomRegister, VCOM_ACTIVE)
    }

    fn byte_op(&self, command: Command, byte: u8) -> (op: BusOp)
        ensures
            op@ == with_data(command, seq![byte]),
    {
        let data: [u8; 1] = [byte];
        assert(data@ =~= seq![byte]);
        self.cmd_with_data(command, &data)
    }

    /// The payload is the fixed one of this panel, whatever `_output` asks
    /// for.
    fn set_driver_output(&self, _output: DriverOutput) -> (op: BusOp)
        ensures
            op@ == with_data(Command::DriverOutputControl, driver_output_payload()),
    {
        let data: [u8; 3] = [0x68, 0x00, 0xd4];
        assert(data@ =~= driver_output_payload());
        self.cmd_with_data(Command::DriverOutputControl, &data)
    }

    fn command(&self, command: Command) -> (op: BusOp)
        ensures
            op@ == plain(command),
    {
        BusOp::Command { opcode: command.address() }
    }

    fn cmd_with_data(&self, command: Command, data: &[u8]) -> (op: BusOp)
        ensures
            op@ == with_data(command, data@),
    {
        BusOp::CommandWithData { opcode: command.address(), data: slice_to_vec(data) }
    }

    fn wait_until_idle(&self) -> (op: BusOp)
        ensures
            op@ == wait_idle(),
    {
        BusOp::WaitUntilIdle { idle_level_is_low: IDLE_LEVEL_IS_LOW }
    }
}

} // verus!
