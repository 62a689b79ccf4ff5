use vstd::prelude::*;

verus! {

/// One operation performed against the panel's bus and control lines.
///
/// A trace of these events is the observable behavior of the driver:
/// every contract in this crate states which events an operation appends.
/// Multi-byte payloads appear one `Transmit` per byte, since this panel's
/// bus decomposes every write into single-byte transactions.
#[derive(Clone, Copy, Debug, PartialEq, Eq)]
pub enum BusEvent {
    /// The data/command select line was driven to this level
    /// (`false` selects command mode, `true` selects data mode).
    SetSelect(bool),
    /// The reset line was driven to this level.
    SetReset(bool),
    /// Execution paused for this many microseconds.
    DelayUs(u32),
    /// One byte went out on the serial bus.
    Transmit(u8),
    /// A wait on the busy input completed with the line at this level.
    WaitBusy(bool),
}

} // verus!
