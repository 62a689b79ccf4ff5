use vstd::prelude::*;
use crate::events::BusEvent;

verus! {

/// The level the busy input shows while the controller is working.
pub open spec fn busy_level(busy_is_low: bool) -> bool {
    !busy_is_low
}

/// The level at which the busy input reads idle: the opposite of its
/// busy level.
pub open spec fn idle_level(busy_is_low: bool) -> bool {
    !busy_level(busy_is_low)
}

/// One `Transmit` event per byte, in order.
pub open spec fn transmits_of(bytes: Seq<u8>) -> Seq<BusEvent> {
    Seq::new(bytes.len(), |i: int| BusEvent::Transmit(bytes[i]))
}

/// `count` transmissions of the same byte.
pub open spec fn repeated_transmits(value: u8, count: nat) -> Seq<BusEvent> {
    Seq::new(count, |i: int| BusEvent::Transmit(value))
}

/// Law: a flood fill of `count` bytes transmits exactly `count` bytes,
/// every one of them `value` — nothing more and nothing else.
pub proof fn lemma_repeated_transmits_exact(value: u8, count: nat)
    ensures
        repeated_transmits(value, count).len() == count,
        forall|i: int|
            0 <= i < count ==> repeated_transmits(value, count)[i] == BusEvent::Transmit(value),
{
}

/// Events of a command write: select command mode, transmit the opcode.
pub open spec fn cmd_trace(code: u8) -> Seq<BusEvent> {
    seq![BusEvent::SetSelect(false), BusEvent::Transmit(code)]
}

/// Events of a data write: select data mode, transmit each byte.
pub open spec fn data_trace(bytes: Seq<u8>) -> Seq<BusEvent> {
    seq![BusEvent::SetSelect(true)] + transmits_of(bytes)
}

/// Events of a flood fill: select data mode, transmit one value `count` times.
pub open spec fn repeat_trace(value: u8, count: nat) -> Seq<BusEvent> {
    seq![BusEvent::SetSelect(true)] + repeated_transmits(value, count)
}

/// Events of a command write followed by its payload.
pub open spec fn cmd_with_data_trace(code: u8, bytes: Seq<u8>) -> Seq<BusEvent> {
    cmd_trace(code) + data_trace(bytes)
}

/// Events of one completed busy wait: the wait returns at the idle level.
pub open spec fn wait_idle_trace(busy_is_low: bool) -> Seq<BusEvent> {
    seq![BusEvent::WaitBusy(idle_level(busy_is_low))]
}

/// Events of a reset pulse: drive the reset line low, hold, drive it
/// high, hold.
pub open spec fn reset_trace(low_hold_us: u32, high_hold_us: u32) -> Seq<BusEvent> {
    seq![
        BusEvent::SetReset(false),
        BusEvent::DelayUs(low_hold_us),
        BusEvent::SetReset(true),
        BusEvent::DelayUs(high_hold_us),
    ]
}

} // verus!
