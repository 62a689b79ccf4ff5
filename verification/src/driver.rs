use vstd::prelude::*;
use crate::bus::BusIo;
use crate::color::Color;
use crate::command::Command;
use crate::error::ErrorKind;
use crate::events::BusEvent;
use crate::interface::{reset_low_hold, DisplayInterface};
use crate::trace::{cmd_trace, cmd_with_data_trace, data_trace, repeat_trace, reset_trace,
    wait_idle_trace};

verus! {

/// Width of the display, in pixels.
pub const WIDTH: u32 = 648;

/// Height of the display, in pixels.
pub const HEIGHT: u32 = 480;

/// Default background color.
pub const DEFAULT_BACKGROUND_COLOR: Color = Color::White;

/// The busy line of this controller reads low while it is busy.
pub const IS_BUSY_LOW: bool = true;

/// Bytes in one packed frame: one bit per pixel, row-major.
pub const NUM_DISPLAY_BYTES: u32 = WIDTH * HEIGHT / 8;

/// Hold time of the low phase of the reset pulse, in microseconds,
/// when no override is configured.
pub const RESET_LOW_HOLD_US: u32 = 2000;

/// Hold time of the high phase of the reset pulse, in microseconds.
pub const RESET_HIGH_HOLD_US: u32 = 50;

/// A selectable refresh waveform. This controller revision only runs its
/// embedded default and accepts no selection.
#[derive(Clone, Copy, Debug, PartialEq, Eq)]
pub enum RefreshLut {
    /// The complete refresh waveform.
    Full,
    /// The fast refresh waveform.
    Quick,
}

/// The command trace of the resolution declaration: the opcode, then
/// width and height as big-endian 16-bit values, one byte at a time.
pub open spec fn resolution_trace() -> Seq<BusEvent> {
    cmd_trace(Command::TconResolution.spec_code()) + data_trace(seq![(WIDTH / 256) as u8])
        + data_trace(seq![(WIDTH % 256) as u8]) + data_trace(seq![(HEIGHT / 256) as u8])
        + data_trace(seq![(HEIGHT % 256) as u8])
}

/// The command trace of a full initialization, in the fixed order the
/// controller firmware requires: reset pulse, power settings, power-on,
/// wait idle, panel settings, resolution, dual-bus disable, Vcom and
/// data interval, tcon settings, wait idle.
pub open spec fn init_trace(delay_us: Option<u32>) -> Seq<BusEvent> {
    reset_trace(reset_low_hold(delay_us, RESET_LOW_HOLD_US), RESET_HIGH_HOLD_US)
        + cmd_with_data_trace(Command::PowerSetting.spec_code(), seq![0x07u8, 0x07, 0x3F, 0x3F])
        + cmd_trace(Command::PowerOn.spec_code()) + wait_idle_trace(IS_BUSY_LOW)
        + cmd_with_data_trace(Command::PanelSetting.spec_code(), seq![0x1Fu8])
        + resolution_trace() + cmd_with_data_trace(Command::DualSPI.spec_code(), seq![0x00u8])
        + cmd_with_data_trace(Command::VcomAndDataIntervalSetting.spec_code(), seq![0x10u8, 0x07])
        + cmd_with_data_trace(Command::TconSetting.spec_code(), seq![0x22u8])
        + wait_idle_trace(IS_BUSY_LOW)
}

/// The command trace of a frame update: wait idle, flood-fill the "old
/// image" channel with the background color, then send the caller's
/// frame verbatim on the "new image" channel.
pub open spec fn update_trace(color_byte: u8, frame: Seq<u8>) -> Seq<BusEvent> {
    wait_idle_trace(IS_BUSY_LOW) + cmd_trace(Command::DataStartTransmission1.spec_code())
        + repeat_trace(color_byte, NUM_DISPLAY_BYTES as nat)
        + cmd_with_data_trace(Command::DataStartTransmission2.spec_code(), frame)
}

/// The command trace of a refresh: trigger the redraw, wait idle.
pub open spec fn display_trace() -> Seq<BusEvent> {
    cmd_trace(Command::DisplayRefresh.spec_code()) + wait_idle_trace(IS_BUSY_LOW)
}

/// The command trace of a blanking: wait idle, flood-fill the "old
/// image" channel with `0xFF`, the "new image" channel with `0x00`.
pub open spec fn clear_trace() -> Seq<BusEvent> {
    wait_idle_trace(IS_BUSY_LOW) + cmd_trace(Command::DataStartTransmission1.spec_code())
        + repeat_trace(0xFF, NUM_DISPLAY_BYTES as nat)
        + cmd_trace(Command::DataStartTransmission2.spec_code())
        + repeat_trace(0x00, NUM_DISPLAY_BYTES as nat)
}

/// The command trace of the low-power transition: wait idle, power off,
/// wait idle, deep sleep with the mandatory check byte `0xA5`.
pub open spec fn sleep_trace() -> Seq<BusEvent> {
    wait_idle_trace(IS_BUSY_LOW) + cmd_trace(Command::PowerOff.spec_code())
        + wait_idle_trace(IS_BUSY_LOW)
        + cmd_with_data_trace(Command::DeepSleep.spec_code(), seq![0xA5u8])
}

/// Law: a sleep followed immediately by a wake-up appends first the sleep
/// trace and then, byte for byte, the same command trace as a fresh
/// construction's initialization. Whatever trace `t0` the interface held
/// before, everything after the sleep trace is exactly `init_trace`.
pub proof fn lemma_sleep_then_wake_matches_fresh_init(t0: Seq<BusEvent>, delay_us: Option<u32>)
    ensures
        ((t0 + sleep_trace()) + init_trace(delay_us)).skip(
            (t0 + sleep_trace()).len() as int,
        ) == init_trace(delay_us),
{
    assert(((t0 + sleep_trace()) + init_trace(delay_us)).skip(
        (t0 + sleep_trace()).len() as int,
    ) =~= init_trace(delay_us));
}

/// Driver for the panel: composes the command table and the bus/line
/// interface into the ordered init sequence and the lifecycle operations.
pub struct Epd5in83<HAL: BusIo> {
    /// Connection interface.
    pub interface: DisplayInterface<HAL>,
    /// Background color used to flood-fill the "old image" channel.
    pub color: Color,
}

impl<HAL: BusIo> Epd5in83<HAL> {
    /// The bus operations performed so far, oldest first.
    pub open spec fn events(&self) -> Seq<BusEvent> {
        self.interface.events()
    }

    /// The configured reset-pulse hold override.
    pub open spec fn reset_delay(&self) -> Option<u32> {
        self.interface.delay_us
    }

    /// Construct the driver over `hal` and bring the controller to the
    /// ready state: a hardware reset and the full init sequence run
    /// before the instance is returned.
    pub fn new(hal: HAL, delay_us: Option<u32>) -> (r: Result<Epd5in83<HAL>, ErrorKind>)
        ensures
            r matches Ok(epd) ==> epd.events() == hal.events() + init_trace(delay_us)
                && epd.color == DEFAULT_BACKGROUND_COLOR && epd.reset_delay() == delay_us,
            r matches Err(e) ==> e is BusFault || e is LineFault,
    {
        let interface = DisplayInterface::new(hal, delay_us);
        let color = DEFAULT_BACKGROUND_COLOR;
        let mut epd = Epd5in83 { interface, color };
        match epd.init() {
            Ok(()) => Ok(epd),
            Err(e) => Err(e),
        }
    }

    /// Reset the controller and issue the init command sequence in the
    /// fixed order and with the exact payloads the firmware requires.
    pub fn init(&mut self) -> (r: Result<(), ErrorKind>)
        ensures
            r is Ok ==> final(self).events() == old(self).events() + init_trace(
                old(self).reset_delay(),
            ),
            final(self).color == old(self).color,
            final(self).reset_delay() == old(self).reset_delay(),
            r matches Err(e) ==> e is BusFault || e is LineFault,
    {
        // Reset the device
        match self.interface.reset(RESET_LOW_HOLD_US, RESET_HIGH_HOLD_US) {
            Ok(()) => {},
            Err(e) => {
                return Err(e);
            },
        }
        // Set the power settings: VGH=20V, VGL=-20V, VDH=15V, VDL=-15V
        let power: [u8; 4] = [0x07, 0x07, 0x3F, 0x3F];
        match self.cmd_with_data(Command::PowerSetting, power.as_slice()) {
            Ok(()) => {},
            Err(e) => {
                return Err(e);
            },
        }
        // Power on, then let the rails settle
        match self.command(Command::PowerOn) {
            Ok(()) => {},
            Err(e) => {
                return Err(e);
            },
        }
        match self.wait_until_idle() {
            Ok(()) => {},
            Err(e) => {
                return Err(e);
            },
        }
        // Set the panel settings: BWOTP
        let panel: [u8; 1] = [0x1F];
        match self.cmd_with_data(Command::PanelSetting, panel.as_slice()) {
            Ok(()) => {},
            Err(e) => {
                return Err(e);
            },
        }
        // Set the real resolution
        match self.send_resolution() {
            Ok(()) => {},
            Err(e) => {
                return Err(e);
            },
        }
        // Disable dual SPI
        let dual: [u8; 1] = [0x00];
        match self.cmd_with_data(Command::DualSPI, dual.as_slice()) {
            Ok(()) => {},
            Err(e) => {
                return Err(e);
            },
        }
        // Set Vcom and data interval
        let vcom: [u8; 2] = [0x10, 0x07];
        match self.cmd_with_data(Command::VcomAndDataIntervalSetting, vcom.as_slice()) {
            Ok(()) => {},
            Err(e) => {
                return Err(e);
            },
        }
        // Set S2G and G2S non-overlap periods to 12 (the default)
        let tcon: [u8; 1] = [0x22];
        match self.cmd_with_data(Command::TconSetting, tcon.as_slice()) {
            Ok(()) => {},
            Err(e) => {
                return Err(e);
            },
        }
        match self.wait_until_idle() {
            Ok(()) => {},
            Err(e) => {
                return Err(e);
            },
        }
        proof {
            assert(self.events() =~= old(self).events() + init_trace(old(self).reset_delay()));
        }
        Ok(())
    }

    /// Power the panel down into deep sleep; only a wake-up (a full
    /// re-initialization) brings it back.
    pub fn sleep(&mut self) -> (r: Result<(), ErrorKind>)
        ensures
            r is Ok ==> final(self).events() == old(self).events() + sleep_trace(),
            final(self).color == old(self).color,
            final(self).reset_delay() == old(self).reset_delay(),
            r matches Err(e) ==> e is BusFault || e is LineFault,
    {
        match self.wait_until_idle() {
            Ok(()) => {},
            Err(e) => {
                return Err(e);
            },
        }
        match self.command(Command::PowerOff) {
            Ok(()) => {},
            Err(e) => {
                return Err(e);
            },
        }
        match self.wait_until_idle() {
            Ok(()) => {},
            Err(e) => {
                return Err(e);
            },
        }
        // the controller accepts deep sleep only with this check byte
        let check: [u8; 1] = [0xA5];
        match self.cmd_with_data(Command::DeepSleep, check.as_slice()) {
            Ok(()) => {},
            Err(e) => {
                return Err(e);
            },
        }
        proof {
            assert(self.events() =~= old(self).events() + sleep_trace());
        }
        Ok(())
    }

    /// Wake the panel from deep sleep. This controller has no lighter
    /// resume path: waking is a full re-initialization, and it appends
    /// exactly the same command trace as a fresh construction.
    pub fn wake_up(&mut self) -> (r: Result<(), ErrorKind>)
        ensures
            r is Ok ==> final(self).events() == old(self).events() + init_trace(
                old(self).reset_delay(),
            ),
            final(self).color == old(self).color,
            final(self).reset_delay() == old(self).reset_delay(),
            r matches Err(e) ==> e is BusFault || e is LineFault,
    {
        self.init()
    }

    /// Set the background color used for the "old image" flood fill.
    /// No bus traffic.
    pub fn set_background_color(&mut self, color: Color)
        ensures
            final(self).color == color,
            final(self).events() == old(self).events(),
            final(self).reset_delay() == old(self).reset_delay(),
    {
        self.color = color;
    }

    /// The configured background color. No bus traffic.
    pub fn background_color(&self) -> (r: &Color)
        ensures
            *r == self.color,
    {
        &self.color
    }

    /// Width of the display, in pixels.
    pub fn width(&self) -> (r: u32)
        ensures
            r == WIDTH,
    {
        WIDTH
    }

    /// Height of the display, in pixels.
    pub fn height(&self) -> (r: u32)
        ensures
            r == HEIGHT,
    {
        HEIGHT
    }

    /// Send a full frame to the controller: wait idle, flood-fill the
    /// "old image" channel with the background color, then send
    /// `buffer` verbatim as the "new image". The visible redraw happens
    /// in `display_frame`. A buffer of any length other than
    /// width × height / 8 bytes is rejected before any bus traffic.
    pub fn update_frame(&mut self, buffer: &[u8]) -> (r: Result<(), ErrorKind>)
        ensures
            r is Ok ==> buffer@.len() == NUM_DISPLAY_BYTES as nat && final(self).events()
                == old(self).events() + update_trace(
                old(self).color.spec_byte_value(),
                buffer@,
            ),
            r == Err::<(), ErrorKind>(ErrorKind::InvalidBuffer) <==> buffer@.len()
                != NUM_DISPLAY_BYTES as nat,
            buffer@.len() != NUM_DISPLAY_BYTES as nat ==> *final(self) == *old(self),
            final(self).color == old(self).color,
            final(self).reset_delay() == old(self).reset_delay(),
            r matches Err(e) ==> e is BusFault || e is LineFault || e is InvalidBuffer,
    {
        if buffer.len() != NUM_DISPLAY_BYTES as usize {
            return Err(ErrorKind::InvalidBuffer);
        }
        match self.wait_until_idle() {
            Ok(()) => {},
            Err(e) => {
                return Err(e);
            },
        }
        let color_value = self.color.get_byte_value();
        match self.interface.cmd(Command::DataStartTransmission1) {
            Ok(()) => {},
            Err(e) => {
                return Err(e);
            },
        }
        match self.interface.data_x_times(color_value, NUM_DISPLAY_BYTES) {
            Ok(()) => {},
            Err(e) => {
                return Err(e);
            },
        }
        match self.interface.cmd_with_data(Command::DataStartTransmission2, buffer) {
            Ok(()) => {},
            Err(e) => {
                return Err(e);
            },
        }
        proof {
            assert(self.events() =~= old(self).events() + update_trace(
                old(self).color.spec_byte_value(),
                buffer@,
            ));
        }
        Ok(())
    }

    /// Partial-area update. This controller revision does not support it:
    /// the call always fails with `UnsupportedOperation` and issues no
    /// bus traffic.
    pub fn update_partial_frame(
        &mut self,
        _buffer: &[u8],
        _x: u32,
        _y: u32,
        _width: u32,
        _height: u32,
    ) -> (r: Result<(), ErrorKind>)
        ensures
            r == Err::<(), ErrorKind>(ErrorKind::UnsupportedOperation),
            *final(self) == *old(self),
    {
        Err(ErrorKind::UnsupportedOperation)
    }

    /// Trigger the visible redraw and wait until the controller is idle
    /// again; the physical refresh is what consumes the wait.
    pub fn display_frame(&mut self) -> (r: Result<(), ErrorKind>)
        ensures
            r is Ok ==> final(self).events() == old(self).events() + display_trace(),
            final(self).color == old(self).color,
            final(self).reset_delay() == old(self).reset_delay(),
            r matches Err(e) ==> e is BusFault || e is LineFault,
    {
        match self.command(Command::DisplayRefresh) {
            Ok(()) => {},
            Err(e) => {
                return Err(e);
            },
        }
        match self.wait_until_idle() {
            Ok(()) => {},
            Err(e) => {
                return Err(e);
            },
        }
        proof {
            assert(self.events() =~= old(self).events() + display_trace());
        }
        Ok(())
    }

    /// Send a full frame and trigger the redraw, as one operation with
    /// the combined contract of `update_frame` and `display_frame`.
    pub fn update_and_display_frame(&mut self, buffer: &[u8]) -> (r: Result<(), ErrorKind>)
        ensures
            r is Ok ==> buffer@.len() == NUM_DISPLAY_BYTES as nat && final(self).events()
                == old(self).events() + update_trace(
                old(self).color.spec_byte_value(),
                buffer@,
            ) + display_trace(),
            r == Err::<(), ErrorKind>(ErrorKind::InvalidBuffer) <==> buffer@.len()
                != NUM_DISPLAY_BYTES as nat,
            buffer@.len() != NUM_DISPLAY_BYTES as nat ==> *final(self) == *old(self),
            final(self).color == old(self).color,
            final(self).reset_delay() == old(self).reset_delay(),
            r matches Err(e) ==> e is BusFault || e is LineFault || e is InvalidBuffer,
    {
        match self.update_frame(buffer) {
            Ok(()) => {},
            Err(e) => {
                return Err(e);
            },
        }
        match self.display_frame() {
            Ok(()) => {},
            Err(e) => {
                return Err(e);
            },
        }
        Ok(())
    }

    /// Blank the panel without a caller-supplied buffer: wait idle,
    /// flood-fill the "old image" channel with `0xFF` and the "new
    /// image" channel with `0x00`, one byte per pixel octet each.
    pub fn clear_frame(&mut self) -> (r: Result<(), ErrorKind>)
        ensures
            r is Ok ==> final(self).events() == old(self).events() + clear_trace(),
            final(self).color == old(self).color,
            final(self).reset_delay() == old(self).reset_delay(),
            r matches Err(e) ==> e is BusFault || e is LineFault,
    {
        match self.wait_until_idle() {
            Ok(()) => {},
            Err(e) => {
                return Err(e);
            },
        }
        match self.command(Command::DataStartTransmission1) {
            Ok(()) => {},
            Err(e) => {
                return Err(e);
            },
        }
        match self.interface.data_x_times(0xFF, NUM_DISPLAY_BYTES) {
            Ok(()) => {},
            Err(e) => {
                return Err(e);
            },
        }
        match self.command(Command::DataStartTransmission2) {
            Ok(()) => {},
            Err(e) => {
                return Err(e);
            },
        }
        match self.interface.data_x_times(0x00, NUM_DISPLAY_BYTES) {
            Ok(()) => {},
            Err(e) => {
                return Err(e);
            },
        }
        proof {
            assert(self.events() =~= old(self).events() + clear_trace());
        }
        Ok(())
    }

    /// Select a refresh waveform. This controller revision runs only its
    /// embedded default: the call always fails with
    /// `UnsupportedOperation` and issues no bus traffic.
    pub fn set_lut(&mut self, _refresh_rate: Option<RefreshLut>) -> (r: Result<(), ErrorKind>)
        ensures
            r == Err::<(), ErrorKind>(ErrorKind::UnsupportedOperation),
            *final(self) == *old(self),
    {
        Err(ErrorKind::UnsupportedOperation)
    }

    /// Suspend until the busy line reaches its idle level.
    pub fn wait_until_idle(&mut self) -> (r: Result<(), ErrorKind>)
        ensures
            r is Ok ==> final(self).events() == old(self).events() + wait_idle_trace(
                IS_BUSY_LOW,
            ),
            final(self).color == old(self).color,
            final(self).reset_delay() == old(self).reset_delay(),
            r matches Err(e) ==> e is BusFault || e is LineFault,
    {
        self.interface.wait_until_idle(IS_BUSY_LOW)
    }

    /// Release the interface, giving back the platform capability.
    pub fn release(self) -> (r: HAL)
        ensures
            r == self.interface.hal,
    {
        self.interface.hal
    }

    /// Write one command opcode.
    fn command(&mut self, command: Command) -> (r: Result<(), ErrorKind>)
        ensures
            r is Ok ==> final(self).events() == old(self).events() + cmd_trace(
                command.spec_code(),
            ),
            final(self).color == old(self).color,
            final(self).reset_delay() == old(self).reset_delay(),
            r matches Err(e) ==> e is BusFault || e is LineFault,
    {
        self.interface.cmd(command)
    }

    /// Write a data payload.
    fn send_data(&mut self, data: &[u8]) -> (r: Result<(), ErrorKind>)
        ensures
            r is Ok ==> final(self).events() == old(self).events() + data_trace(data@),
            final(self).color == old(self).color,
            final(self).reset_delay() == old(self).reset_delay(),
            r matches Err(e) ==> e is BusFault || e is LineFault,
    {
        self.interface.data(data)
    }

    /// Write one command opcode followed by its payload.
    fn cmd_with_data(&mut self, command: Command, data: &[u8]) -> (r: Result<(), ErrorKind>)
        ensures
            r is Ok ==> final(self).events() == old(self).events() + cmd_with_data_trace(
                command.spec_code(),
                data@,
            ),
            final(self).color == old(self).color,
            final(self).reset_delay() == old(self).reset_delay(),
            r matches Err(e) ==> e is BusFault || e is LineFault,
    {
        self.interface.cmd_with_data(command, data)
    }

    /// Declare the panel geometry to the controller: width and height as
    /// big-endian 16-bit values, one byte at a time.
    fn send_resolution(&mut self) -> (r: Result<(), ErrorKind>)
        ensures
            r is Ok ==> final(self).events() == old(self).events() + resolution_trace(),
            final(self).color == old(self).color,
            final(self).reset_delay() == old(self).reset_delay(),
            r matches Err(e) ==> e is BusFault || e is LineFault,
    {
        let w = self.width();
        let h = self.height();
        match self.command(Command::TconResolution) {
            Ok(()) => {},
            Err(e) => {
                return Err(e);
            },
        }
        let w_hi: [u8; 1] = [(w / 256) as u8];
        match self.send_data(w_hi.as_slice()) {
            Ok(()) => {},
            Err(e) => {
                return Err(e);
            },
        }
        let w_lo: [u8; 1] = [(w % 256) as u8];
        match self.send_data(w_lo.as_slice()) {
            Ok(()) => {},
            Err(e) => {
                return Err(e);
            },
        }
        let h_hi: [u8; 1] = [(h / 256) as u8];
        match self.send_data(h_hi.as_slice()) {
            Ok(()) => {},
            Err(e) => {
                return Err(e);
            },
        }
        let h_lo: [u8; 1] = [(h % 256) as u8];
        match self.send_data(h_lo.as_slice()) {
            Ok(()) => {},
            Err(e) => {
                return Err(e);
            },
        }
        proof {
            assert(self.events() =~= old(self).events() + resolution_trace());
        }
        Ok(())
    }
}

} // verus!
