use epd5in83_v2::bus::RecordingBus;
use epd5in83_v2::color::Color;
use epd5in83_v2::driver::{Epd5in83, NUM_DISPLAY_BYTES};
use epd5in83_v2::error::ErrorKind;
use epd5in83_v2::events::BusEvent;

fn push_cmd(events: &mut Vec<BusEvent>, code: u8) {
    events.push(BusEvent::SetSelect(false));
    events.push(BusEvent::Transmit(code));
}

fn push_data(events: &mut Vec<BusEvent>, bytes: &[u8]) {
    events.push(BusEvent::SetSelect(true));
    for &b in bytes {
        events.push(BusEvent::Transmit(b));
    }
}

fn push_repeat(events: &mut Vec<BusEvent>, value: u8, count: usize) {
    events.push(BusEvent::SetSelect(true));
    for _ in 0..count {
        events.push(BusEvent::Transmit(value));
    }
}

fn push_wait_idle(events: &mut Vec<BusEvent>) {
    // the busy line of this controller is low while busy, so idle is high
    events.push(BusEvent::WaitBusy(true));
}

/// The full init sequence, with `low_hold_us` as the reset pulse's low
/// hold time.
fn expected_init(low_hold_us: u32) -> Vec<BusEvent> {
    let mut ev = Vec::new();
    ev.push(BusEvent::SetReset(false));
    ev.push(BusEvent::DelayUs(low_hold_us));
    ev.push(BusEvent::SetReset(true));
    ev.push(BusEvent::DelayUs(50));
    push_cmd(&mut ev, 0x01); // PowerSetting
    push_data(&mut ev, &[0x07, 0x07, 0x3F, 0x3F]);
    push_cmd(&mut ev, 0x04); // PowerOn
    push_wait_idle(&mut ev);
    push_cmd(&mut ev, 0x00); // PanelSetting
    push_data(&mut ev, &[0x1F]);
    push_cmd(&mut ev, 0x61); // TconResolution: 648 = 0x0288, 480 = 0x01E0
    push_data(&mut ev, &[0x02]);
    push_data(&mut ev, &[0x88]);
    push_data(&mut ev, &[0x01]);
    push_data(&mut ev, &[0xE0]);
    push_cmd(&mut ev, 0x15); // DualSPI
    push_data(&mut ev, &[0x00]);
    push_cmd(&mut ev, 0x50); // VcomAndDataIntervalSetting
    push_data(&mut ev, &[0x10, 0x07]);
    push_cmd(&mut ev, 0x60); // TconSetting
    push_data(&mut ev, &[0x22]);
    push_wait_idle(&mut ev);
    ev
}

fn expected_sleep() -> Vec<BusEvent> {
    let mut ev = Vec::new();
    push_wait_idle(&mut ev);
    push_cmd(&mut ev, 0x02); // PowerOff
    push_wait_idle(&mut ev);
    push_cmd(&mut ev, 0x07); // DeepSleep
    push_data(&mut ev, &[0xA5]);
    ev
}

fn expected_update(fill: u8, frame: &[u8]) -> Vec<BusEvent> {
    let mut ev = Vec::new();
    push_wait_idle(&mut ev);
    push_cmd(&mut ev, 0x10); // DataStartTransmission1
    push_repeat(&mut ev, fill, NUM_DISPLAY_BYTES as usize);
    push_cmd(&mut ev, 0x13); // DataStartTransmission2
    push_data(&mut ev, frame);
    ev
}

fn expected_display() -> Vec<BusEvent> {
    let mut ev = Vec::new();
    push_cmd(&mut ev, 0x12); // DisplayRefresh
    push_wait_idle(&mut ev);
    ev
}

fn expected_clear() -> Vec<BusEvent> {
    let mut ev = Vec::new();
    push_wait_idle(&mut ev);
    push_cmd(&mut ev, 0x10); // DataStartTransmission1
    push_repeat(&mut ev, 0xFF, NUM_DISPLAY_BYTES as usize);
    push_cmd(&mut ev, 0x13); // DataStartTransmission2
    push_repeat(&mut ev, 0x00, NUM_DISPLAY_BYTES as usize);
    ev
}

#[test]
fn init_issues_the_fixed_command_sequence() {
    let bus = RecordingBus::new(vec![true, true]);
    let epd = Epd5in83::new(bus, None).unwrap();
    assert_eq!(epd.release().log, expected_init(2000));
}

#[test]
fn init_uses_the_configured_reset_hold() {
    let bus = RecordingBus::new(vec![true, true]);
    let epd = Epd5in83::new(bus, Some(500)).unwrap();
    assert_eq!(epd.release().log, expected_init(500));
}

#[test]
fn update_and_display_all_zero_frame() {
    let bus = RecordingBus::new(vec![true, true, true, true]);
    let mut epd = Epd5in83::new(bus, None).unwrap();
    let frame = vec![0u8; NUM_DISPLAY_BYTES as usize];
    assert_eq!(epd.update_and_display_frame(&frame), Ok(()));
    let mut expected = expected_init(2000);
    // channel 1 is flooded with the default white background, 0xFF
    expected.extend(expected_update(0xFF, &frame));
    expected.extend(expected_display());
    assert_eq!(epd.release().log, expected);
}

#[test]
fn update_frame_floods_channel_one_with_the_background() {
    let bus = RecordingBus::new(vec![true, true, true]);
    let mut epd = Epd5in83::new(bus, None).unwrap();
    epd.set_background_color(Color::Black);
    let frame = vec![0xA5u8; NUM_DISPLAY_BYTES as usize];
    assert_eq!(epd.update_frame(&frame), Ok(()));
    let mut expected = expected_init(2000);
    expected.extend(expected_update(0x00, &frame));
    assert_eq!(epd.release().log, expected);
}

#[test]
fn update_frame_rejects_any_other_length() {
    let bus = RecordingBus::new(vec![true, true, true]);
    let mut epd = Epd5in83::new(bus, None).unwrap();
    let short = vec![0u8; NUM_DISPLAY_BYTES as usize - 1];
    let long = vec![0u8; NUM_DISPLAY_BYTES as usize + 1];
    assert_eq!(epd.update_frame(&short), Err(ErrorKind::InvalidBuffer));
    assert_eq!(epd.update_frame(&long), Err(ErrorKind::InvalidBuffer));
    assert_eq!(epd.update_frame(&[]), Err(ErrorKind::InvalidBuffer));
    let exact = vec![0u8; NUM_DISPLAY_BYTES as usize];
    assert_eq!(epd.update_frame(&exact), Ok(()));
    let mut expected = expected_init(2000);
    // the rejected buffers produced no bus traffic at all
    expected.extend(expected_update(0xFF, &exact));
    assert_eq!(epd.release().log, expected);
}

#[test]
fn update_and_display_frame_rejects_bad_lengths_too() {
    let bus = RecordingBus::new(vec![true, true]);
    let mut epd = Epd5in83::new(bus, None).unwrap();
    let short = vec![0u8; 100];
    assert_eq!(epd.update_and_display_frame(&short), Err(ErrorKind::InvalidBuffer));
    assert_eq!(epd.release().log, expected_init(2000));
}

#[test]
fn clear_frame_floods_both_channels() {
    let bus = RecordingBus::new(vec![true, true, true]);
    let mut epd = Epd5in83::new(bus, None).unwrap();
    assert_eq!(epd.clear_frame(), Ok(()));
    let mut expected = expected_init(2000);
    expected.extend(expected_clear());
    assert_eq!(epd.release().log, expected);
}

#[test]
fn clear_frame_byte_counts() {
    let bus = RecordingBus::new(vec![true, true, true]);
    let mut epd = Epd5in83::new(bus, None).unwrap();
    let after_init = 42; // length of the init trace
    assert_eq!(epd.clear_frame(), Ok(()));
    let log = epd.release().log;
    let clear = &log[after_init..];
    let ff = clear.iter().filter(|e| **e == BusEvent::Transmit(0xFF)).count();
    let zero = clear.iter().filter(|e| **e == BusEvent::Transmit(0x00)).count();
    assert_eq!(ff, 38_880);
    // the opcodes are 0x10 and 0x13, so every 0x00 byte is channel-2 fill
    assert_eq!(zero, 38_880);
}

#[test]
fn sleep_issues_the_power_down_sequence() {
    let bus = RecordingBus::new(vec![true, true, true, true]);
    let mut epd = Epd5in83::new(bus, None).unwrap();
    assert_eq!(epd.sleep(), Ok(()));
    let mut expected = expected_init(2000);
    expected.extend(expected_sleep());
    assert_eq!(epd.release().log, expected);
}

#[test]
fn sleep_then_wake_replays_a_fresh_init() {
    let bus = RecordingBus::new(vec![true; 6]);
    let mut epd = Epd5in83::new(bus, None).unwrap();
    assert_eq!(epd.sleep(), Ok(()));
    assert_eq!(epd.wake_up(), Ok(()));
    let log = epd.release().log;

    // a fresh construction over an identical double
    let fresh = Epd5in83::new(RecordingBus::new(vec![true, true]), None).unwrap();
    let fresh_log = fresh.release().log;

    let before_wake = expected_init(2000).len() + expected_sleep().len();
    assert_eq!(&log[before_wake..], &fresh_log[..]);
    let mut expected = expected_init(2000);
    expected.extend(expected_sleep());
    expected.extend(expected_init(2000));
    assert_eq!(log, expected);
}

#[test]
fn display_frame_triggers_refresh_then_waits() {
    let bus = RecordingBus::new(vec![true, true, true]);
    let mut epd = Epd5in83::new(bus, None).unwrap();
    assert_eq!(epd.display_frame(), Ok(()));
    let mut expected = expected_init(2000);
    expected.extend(expected_display());
    assert_eq!(epd.release().log, expected);
}
