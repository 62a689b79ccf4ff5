use vstd::prelude::*;
use crate::bus::BusIo;
use crate::command::Command;
use crate::error::ErrorKind;
use crate::events::BusEvent;
use crate::trace::{
    cmd_trace, cmd_with_data_trace, data_trace, repeat_trace, reset_trace, transmits_of,
    wait_idle_trace,
};

verus! {

/// The hold time of the low phase of a reset pulse: the configured
/// override where one is set, else the caller's default.
pub open spec fn reset_low_hold(configured: Option<u32>, default_us: u32) -> u32 {
    match configured {
        Some(d) => d,
        None => default_us,
    }
}

/// Translates protocol-level writes into bus transactions and line
/// toggles over a [`BusIo`] capability, and provides the one blocking
/// primitive the rest of the system needs.
pub struct DisplayInterface<HAL: BusIo> {
    /// The platform's bus and line primitives.
    pub hal: HAL,
    /// Optional override, in microseconds, of the hold time of the low
    /// phase of the reset pulse.
    pub delay_us: Option<u32>,
}

impl<HAL: BusIo> DisplayInterface<HAL> {
    /// The operations performed so far, oldest first.
    pub open spec fn events(&self) -> Seq<BusEvent> {
        self.hal.events()
    }

    /// An interface over `hal`, with an optional reset-pulse hold override.
    pub fn new(hal: HAL, delay_us: Option<u32>) -> (r: DisplayInterface<HAL>)
        ensures
            r.hal == hal,
            r.delay_us == delay_us,
    {
        DisplayInterface { hal, delay_us }
    }

    /// Pulse the reset line: low for the pulse hold time (the configured
    /// override, else `low_hold_us`), then high for `high_hold_us`.
    pub fn reset(&mut self, low_hold_us: u32, high_hold_us: u32) -> (r: Result<(), ErrorKind>)
        ensures
            r is Ok ==> final(self).events() == old(self).events() + reset_trace(
                reset_low_hold(old(self).delay_us, low_hold_us),
                high_hold_us,
            ),
            final(self).delay_us == old(self).delay_us,
            r matches Err(e) ==> e is BusFault || e is LineFault,
    {
        let low_hold = match self.delay_us {
            Some(d) => d,
            None => low_hold_us,
        };
        match self.hal.set_reset(false) {
            Ok(()) => {},
            Err(e) => {
                return Err(e);
            },
        }
        self.hal.delay_us(low_hold);
        match self.hal.set_reset(true) {
            Ok(()) => {},
            Err(e) => {
                return Err(e);
            },
        }
        self.hal.delay_us(high_hold_us);
        proof {
            assert(self.events() =~= old(self).events() + reset_trace(
                reset_low_hold(old(self).delay_us, low_hold_us),
                high_hold_us,
            ));
        }
        Ok(())
    }

    /// Write one command opcode: select command mode, transmit the code.
    pub fn cmd(&mut self, command: Command) -> (r: Result<(), ErrorKind>)
        ensures
            r is Ok ==> final(self).events() == old(self).events() + cmd_trace(
                command.spec_code(),
            ),
            final(self).delay_us == old(self).delay_us,
            r matches Err(e) ==> e is BusFault || e is LineFault,
    {
        match self.hal.set_select(false) {
            Ok(()) => {},
            Err(e) => {
                return Err(e);
            },
        }
        match self.hal.transmit(command.code()) {
            Ok(()) => {},
            Err(e) => {
                return Err(e);
            },
        }
        proof {
            assert(self.events() =~= old(self).events() + cmd_trace(command.spec_code()));
        }
        Ok(())
    }

    /// Write a data payload: select data mode, transmit each byte in order
    /// as its own single-byte transaction.
    pub fn data(&mut self, bytes: &[u8]) -> (r: Result<(), ErrorKind>)
        ensures
            r is Ok ==> final(self).events() == old(self).events() + data_trace(bytes@),
            final(self).delay_us == old(self).delay_us,
            r matches Err(e) ==> e is BusFault || e is LineFault,
    {
        match self.hal.set_select(true) {
            Ok(()) => {},
            Err(e) => {
                return Err(e);
            },
        }
        let mut i: usize = 0;
        while i < bytes.len()
            invariant
                i <= bytes@.len(),
                self.events() == old(self).events() + seq![BusEvent::SetSelect(true)]
                    + transmits_of(bytes@.subrange(0, i as int)),
                self.delay_us == old(self).delay_us,
            decreases bytes@.len() - i,
        {
            match self.hal.transmit(bytes[i]) {
                Ok(()) => {},
                Err(e) => {
                    return Err(e);
                },
            }
            proof {
                assert(transmits_of(bytes@.subrange(0, i as int + 1)) =~= transmits_of(
                    bytes@.subrange(0, i as int),
                ).push(BusEvent::Transmit(bytes@[i as int])));
            }
            i = i + 1;
        }
        proof {
            assert(bytes@.subrange(0, bytes@.len() as int) =~= bytes@);
            assert(self.events() =~= old(self).events() + data_trace(bytes@));
        }
        Ok(())
    }

    /// Flood-fill a transmission channel: select data mode, transmit
    /// `count` copies of `value` without materializing a buffer.
    pub fn data_x_times(&mut self, value: u8, count: u32) -> (r: Result<(), ErrorKind>)
        ensures
            r is Ok ==> final(self).events() == old(self).events() + repeat_trace(
                value,
                count as nat,
            ),
            final(self).delay_us == old(self).delay_us,
            r matches Err(e) ==> e is BusFault || e is LineFault,
    {
        match self.hal.set_select(true) {
            Ok(()) => {},
            Err(e) => {
                return Err(e);
            },
        }
        let mut i: u32 = 0;
        while i < count
            invariant
                i <= count,
                self.events() == old(self).events() + seq![BusEvent::SetSelect(true)]
                    + crate::trace::repeated_transmits(value, i as nat),
                self.delay_us == old(self).delay_us,
            decreases count - i,
        {
            match self.hal.transmit(value) {
                Ok(()) => {},
                Err(e) => {
                    return Err(e);
                },
            }
            proof {
                assert(crate::trace::repeated_transmits(value, (i + 1) as nat)
                    =~= crate::trace::repeated_transmits(value, i as nat).push(
                    BusEvent::Transmit(value),
                ));
            }
            i = i + 1;
        }
        proof {
            assert(self.events() =~= old(self).events() + repeat_trace(value, count as nat));
        }
        Ok(())
    }

    /// Write a command opcode followed by its payload.
    pub fn cmd_with_data(&mut self, command: Command, data: &[u8]) -> (r: Result<(), ErrorKind>)
        ensures
            r is Ok ==> final(self).events() == old(self).events() + cmd_with_data_trace(
                command.spec_code(),
                data@,
            ),
            final(self).delay_us == old(self).delay_us,
            r matches Err(e) ==> e is BusFault || e is LineFault,
    {
        match self.cmd(command) {
            Ok(()) => {},
            Err(e) => {
                return Err(e);
            },
        }
        match self.data(data) {
            Ok(()) => {},
            Err(e) => {
                return Err(e);
            },
        }
        proof {
            assert(self.events() =~= old(self).events() + cmd_with_data_trace(
                command.spec_code(),
                data@,
            ));
        }
        Ok(())
    }

    /// Suspend until the busy line reaches its idle level — the level
    /// opposite to the configured busy polarity.
    pub fn wait_until_idle(&mut self, busy_is_low: bool) -> (r: Result<(), ErrorKind>)
        ensures
            r is Ok ==> final(self).events() == old(self).events() + wait_idle_trace(
                busy_is_low,
            ),
            final(self).delay_us == old(self).delay_us,
            r matches Err(e) ==> e is BusFault || e is LineFault,
    {
        // the line is busy at `!busy_is_low`; idle is the opposite level
        let busy = !busy_is_low;
        match self.hal.wait_for_busy(!busy) {
            Ok(()) => {},
            Err(e) => {
                return Err(e);
            },
        }
        proof {
            assert(self.events() =~= old(self).events() + wait_idle_trace(busy_is_low));
        }
        Ok(())
    }
}

} // verus!
