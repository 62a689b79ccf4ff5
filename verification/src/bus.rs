use vstd::prelude::*;
use crate::error::{ErrorKind, Line};
use crate::events::BusEvent;

verus! {

/// The capability interface the driver needs from the platform: one serial
/// write primitive, the select and reset outputs, the busy input, and a
/// microsecond delay. A platform adapter implements it over real hardware;
/// [`RecordingBus`] implements it as a verified test double.
///
/// Each implementation exposes its history as a ghost trace of
/// [`BusEvent`]s, and every primitive promises which event a successful
/// call appends. A failing call reports which subsystem faulted — the bus
/// or a specific line — and leaves the trace unspecified, since a partial
/// transaction cannot be rolled back.
pub trait BusIo {
    /// Every operation performed so far, oldest first.
    ///
    /// Every implementation in this crate overrides this; the default
    /// stands only so that unverified platform adapters, which Verus
    /// never reads, need not spell out a ghost item.
    open spec fn events(&self) -> Seq<BusEvent> {
        Seq::empty()
    }

    /// Drive the data/command select line to `level`.
    fn set_select(&mut self, level: bool) -> (r: Result<(), ErrorKind>)
        ensures
            r is Ok ==> final(self).events() == old(self).events().push(
                BusEvent::SetSelect(level),
            ),
            r matches Err(e) ==> e is BusFault || e is LineFault,
    ;

    /// Drive the reset line to `level`.
    fn set_reset(&mut self, level: bool) -> (r: Result<(), ErrorKind>)
        ensures
            r is Ok ==> final(self).events() == old(self).events().push(
                BusEvent::SetReset(level),
            ),
            r matches Err(e) ==> e is BusFault || e is LineFault,
    ;

    /// Pause for `us` microseconds.
    fn delay_us(&mut self, us: u32)
        ensures
            final(self).events() == old(self).events().push(BusEvent::DelayUs(us)),
    ;

    /// Transmit one byte on the serial bus.
    fn transmit(&mut self, byte: u8) -> (r: Result<(), ErrorKind>)
        ensures
            r is Ok ==> final(self).events() == old(self).events().push(
                BusEvent::Transmit(byte),
            ),
            r matches Err(e) ==> e is BusFault || e is LineFault,
    ;

    /// Suspend until the busy input reads `level`; one completed wait is
    /// one event, however long the line takes to get there.
    fn wait_for_busy(&mut self, level: bool) -> (r: Result<(), ErrorKind>)
        ensures
            r is Ok ==> final(self).events() == old(self).events().push(
                BusEvent::WaitBusy(level),
            ),
            r matches Err(e) ==> e is BusFault || e is LineFault,
    ;
}

/// The index of the first scripted reading at or after `from` that shows
/// `level`, or `None` when no remaining reading does. Every reading before
/// the returned one shows the opposite level, so a wait built on this
/// search returns only once the line has actually reached `level`.
pub fn first_reading_at_level(script: &Vec<bool>, from: usize, level: bool) -> (r: Option<
    usize,
>)
    ensures
        r matches Some(i) ==> from <= i < script@.len() && script@[i as int] == level
            && (forall|j: int| from <= j < i ==> script@[j] != level),
        r is None ==> forall|j: int| from <= j < script@.len() ==> script@[j] != level,
{
    let mut i: usize = from;
    while i < script.len()
        invariant
            from <= i,
            forall|j: int| from <= j < i ==> script@[j] != level,
        decreases script@.len() - i,
    {
        if script[i] == level {
            return Some(i);
        }
        i = i + 1;
    }
    None
}

/// A recording test double: it performs no I/O, logs every operation, and
/// simulates the busy input with a script of levels consumed in order.
pub struct RecordingBus {
    /// Every operation performed against the double, oldest first.
    pub log: Vec<BusEvent>,
    /// The levels the simulated busy line shows over time.
    pub busy_script: Vec<bool>,
    /// Index of the next busy-line reading to consume.
    pub cursor: usize,
    /// How many bus transactions will still succeed; `None` means no limit.
    pub transmit_budget: Option<usize>,
}

impl RecordingBus {
    /// A double whose busy line replays `busy_script` and whose bus never
    /// faults.
    pub fn new(busy_script: Vec<bool>) -> (r: RecordingBus)
        ensures
            r.log@ == Seq::<BusEvent>::empty(),
            r.busy_script@ == busy_script@,
            r.cursor == 0,
            r.transmit_budget is None,
    {
        RecordingBus { log: Vec::new(), busy_script, cursor: 0, transmit_budget: None }
    }

    /// A double whose serial bus fails after `budget` transmitted bytes.
    pub fn with_transmit_budget(busy_script: Vec<bool>, budget: usize) -> (r: RecordingBus)
        ensures
            r.log@ == Seq::<BusEvent>::empty(),
            r.busy_script@ == busy_script@,
            r.cursor == 0,
            r.transmit_budget == Some(budget),
    {
        RecordingBus {
            log: Vec::new(),
            busy_script,
            cursor: 0,
            transmit_budget: Some(budget),
        }
    }
}

impl BusIo for RecordingBus {
    open spec fn events(&self) -> Seq<BusEvent> {
        self.log@
    }

    fn set_select(&mut self, level: bool) -> (r: Result<(), ErrorKind>) {
        self.log.push(BusEvent::SetSelect(level));
        Ok(())
    }

    fn set_reset(&mut self, level: bool) -> (r: Result<(), ErrorKind>) {
        self.log.push(BusEvent::SetReset(level));
        Ok(())
    }

    fn delay_us(&mut self, us: u32) {
        self.log.push(BusEvent::DelayUs(us));
    }

    fn transmit(&mut self, byte: u8) -> (r: Result<(), ErrorKind>) {
        match self.transmit_budget {
            Some(left) => {
                if left == 0 {
                    return Err(ErrorKind::BusFault);
                }
                self.transmit_budget = Some(left - 1);
            },
            None => {},
        }
        self.log.push(BusEvent::Transmit(byte));
        Ok(())
    }

    /// The double returns from a wait only once the scripted line has
    /// actually reached `level`: it consumes every reading up to and
    /// including the first one at `level`, and faults if the script ends
    /// without the line ever getting there.
    fn wait_for_busy(&mut self, level: bool) -> (r: Result<(), ErrorKind>)
        ensures
            r is Ok ==> exists|i: int|
                old(self).cursor <= i < old(self).busy_script@.len()
                    && old(self).busy_script@[i] == level && final(self).cursor == i + 1
                    && (forall|j: int|
                        old(self).cursor <= j < i ==> old(self).busy_script@[j] != level),
            r is Err ==> forall|j: int|
                old(self).cursor <= j < old(self).busy_script@.len()
                    ==> old(self).busy_script@[j] != level,
    {
        match first_reading_at_level(&self.busy_script, self.cursor, level) {
            Some(i) => {
                // the search returned an in-bounds index, so the cursor fits
                assert(i < self.busy_script.len());
                self.cursor = i + 1;
                self.log.push(BusEvent::WaitBusy(level));
                Ok(())
            },
            None => Err(ErrorKind::LineFault(Line::Busy)),
        }
    }
}

} // verus!
