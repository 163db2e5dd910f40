use envsense::command::Command;
use envsense::convert::{relative_humidity_scaled, HUMIDITY_DENOMINATOR};
use envsense::schedule::{combined_cycle, fixed_pause_ms, gas_cycle, PollSchedule};
use envsense::si7021::{decode_measurement, measure_rh};
use envsense::transaction::{Action, BusError, Event, Phase, SessionMode, Transaction};
use envsense::tsl2561::{Channel, Gain, Timing};
use envsense::{sgp30, si7021, tsl2561};

fn is_write(a: &Action, bytes: &[u8]) -> bool {
    matches!(a, Action::Write(b) if b.as_slice() == bytes)
}

#[test]
fn command_encodings() {
    let c = Command::double(0x2003, 0, 10);
    assert_eq!(c.bytes, vec![0x20, 0x03]);
    assert_eq!(Command::single(0xF5, 3, 25).bytes, vec![0xF5]);
    assert_eq!(sgp30::measure_air_quality().bytes, vec![0x20, 0x08]);
    assert_eq!(sgp30::get_baseline().bytes, vec![0x20, 0x15]);
    assert_eq!(sgp30::measure_test().bytes, vec![0x20, 0x32]);
    assert_eq!(sgp30::measure_test().settle_ms, 220);
    assert_eq!(sgp30::get_feature_set_version().bytes, vec![0x20, 0x2F]);
    let serial = sgp30::get_serial_id();
    assert_eq!(serial.bytes, vec![0x36, 0x82]);
    assert_eq!(serial.response_len, 9);
    assert_eq!(sgp30::init_air_quality().response_len, 0);
    assert_eq!(si7021::measure_temp_after_rh().bytes, vec![0xE0]);
    assert_eq!(si7021::measure_temp().bytes, vec![0xF3]);
    assert_eq!(si7021::reset().bytes, vec![0xFE]);
    assert_eq!(si7021::reset().settle_ms, 100);
    assert_eq!(si7021::read_user_register().bytes, vec![0xE7]);
    assert_eq!(si7021::read_firmware_rev().bytes, vec![0x84, 0xB8]);
    assert_eq!(si7021::read_id1().bytes, vec![0xFA, 0x0F]);
    assert_eq!(si7021::read_id2().bytes, vec![0xFC, 0xC9]);
}

#[test]
fn light_sensor_commands() {
    assert_eq!(tsl2561::read_id().bytes, vec![0x8A]);
    assert_eq!(tsl2561::poweron().bytes, vec![0x80, 0x03]);
    assert_eq!(tsl2561::poweroff().bytes, vec![0x80, 0x00]);
    assert_eq!(tsl2561::reg_write(0x42, 0x07).bytes, vec![0x42, 0x07]);
    assert_eq!(tsl2561::reg_read(0x8C, 2).response_len, 2);
    let t = tsl2561::set_integration_time_and_gain(Timing::IntegrationTime101, Gain::Gain16x);
    assert_eq!(t.bytes, vec![0x81, 0x11]);
    let t = tsl2561::set_integration_time_and_gain(Timing::IntegrationTime402, Gain::Gain1x);
    assert_eq!(t.bytes, vec![0x81, 0x02]);
    assert_eq!(tsl2561::read_channel(Channel::Chan0).bytes, vec![0xAC]);
    assert_eq!(tsl2561::read_channel(Channel::Chan1).bytes, vec![0xAE]);
    let steps = tsl2561::read_data(Channel::Chan1, Timing::IntegrationTime13);
    assert_eq!(steps.len(), 2);
    assert_eq!(steps[0].bytes, vec![0x80, 0x03]);
    assert_eq!(steps[0].settle_ms, 15);
    assert_eq!(steps[1].bytes, vec![0xAE]);
    assert_eq!(steps[1].response_len, 2);
    assert_eq!(Timing::IntegrationTime101.settle_ms(), 120);
    assert_eq!(Timing::IntegrationTime402.settle_ms(), 450);
}

#[test]
fn transaction_success_path() {
    let (mut t, a) = Transaction::begin(sgp30::measure_air_quality(), SessionMode::PerProgram);
    assert!(is_write(&a, &[0x20, 0x08]));
    assert_eq!(t.phase(), Phase::Writing);
    let a = t.step(Event::Written);
    assert!(matches!(a, Action::Sleep(12)));
    let a = t.step(Event::Slept);
    assert!(matches!(a, Action::Read(6)));
    let a = t.step(Event::ReadDone(vec![1, 2, 3, 4, 5, 6]));
    match a {
        Action::Finish(Ok(frame)) => assert_eq!(frame, vec![1, 2, 3, 4, 5, 6]),
        other => panic!("unexpected {:?}", other),
    }
    assert!(t.is_done());
}

#[test]
fn transaction_write_failure_is_final() {
    let (mut t, _) = Transaction::begin(si7021::measure_rh(), SessionMode::PerProgram);
    let a = t.step(Event::WriteFailed);
    assert!(matches!(a, Action::Finish(Err(BusError::Write))));
    assert!(t.is_done());
    assert!(!t.accepts(&Event::Written));
}

#[test]
fn transaction_short_read_fails() {
    let (mut t, _) = Transaction::begin(si7021::measure_rh(), SessionMode::PerProgram);
    t.step(Event::Written);
    t.step(Event::Slept);
    let a = t.step(Event::ReadDone(vec![0x80, 0x00]));
    assert!(matches!(a, Action::Finish(Err(BusError::Read))));
}

#[test]
fn transaction_read_failure() {
    let (mut t, _) = Transaction::begin(si7021::measure_rh(), SessionMode::PerProgram);
    t.step(Event::Written);
    t.step(Event::Slept);
    assert!(matches!(t.step(Event::ReadFailed), Action::Finish(Err(BusError::Read))));
}

#[test]
fn transaction_per_call_opens_first() {
    let (mut t, a) = Transaction::begin(tsl2561::read_id(), SessionMode::PerCall);
    assert!(matches!(a, Action::Open));
    assert!(t.accepts(&Event::Opened));
    assert!(!t.accepts(&Event::Written));
    let a = t.step(Event::Opened);
    assert!(is_write(&a, &[0x8A]));
    // no settle delay: straight to the read
    assert!(matches!(t.step(Event::Written), Action::Read(1)));
    let (mut u, _) = Transaction::begin(tsl2561::read_id(), SessionMode::PerCall);
    assert!(matches!(u.step(Event::OpenFailed), Action::Finish(Err(BusError::Open))));
}

#[test]
fn transaction_write_only_command() {
    let (mut t, _) = Transaction::begin(sgp30::init_air_quality(), SessionMode::PerProgram);
    assert!(matches!(t.step(Event::Written), Action::Sleep(10)));
    match t.step(Event::Slept) {
        Action::Finish(Ok(frame)) => assert!(frame.is_empty()),
        other => panic!("unexpected {:?}", other),
    }
    let (mut u, _) = Transaction::begin(tsl2561::poweroff(), SessionMode::PerProgram);
    assert!(matches!(u.step(Event::Written), Action::Finish(Ok(_))));
}

#[test]
fn humidity_end_to_end_unclamped() {
    let (mut t, a) = Transaction::begin(measure_rh(), SessionMode::PerProgram);
    assert!(is_write(&a, &[0xF5]));
    assert!(matches!(t.step(Event::Written), Action::Sleep(25)));
    assert!(matches!(t.step(Event::Slept), Action::Read(3)));
    let frame = match t.step(Event::ReadDone(vec![0x80, 0x00, 0x5A])) {
        Action::Finish(Ok(frame)) => frame,
        other => panic!("unexpected {:?}", other),
    };
    let raw = decode_measurement(&frame);
    assert_eq!(raw, 0x8000);
    let rh = relative_humidity_scaled(raw) as f64 / HUMIDITY_DENOMINATOR as f64;
    assert_eq!(rh, 125.0 * 32768.0 / 65536.0 - 6.0);
    let top = relative_humidity_scaled(0xFFFF) as f64 / HUMIDITY_DENOMINATOR as f64;
    assert!((top - 118.998).abs() < 0.001);
}

#[test]
fn overrun_cycle_sleeps_zero_and_stays_on_grid() {
    let mut s = PollSchedule::start(5_000, 1_000);
    assert_eq!(s.deadline(), 6_000);
    // the cycle ends 300 ms past its deadline
    assert_eq!(s.finish_cycle(6_300), 0);
    assert_eq!(s.deadline(), 7_000);
    // a short cycle sleeps up to the deadline
    assert_eq!(s.finish_cycle(6_400), 600);
    assert_eq!(s.deadline(), 8_000);
    // ending exactly on the deadline sleeps zero too
    assert_eq!(s.finish_cycle(8_000), 0);
    assert_eq!(s.deadline(), 9_000);
    assert_eq!(s.origin(), 5_000);
    assert_eq!(s.period(), 1_000);
}

#[test]
fn schedule_at_clock_limit() {
    let s = PollSchedule::start(u64::MAX - 1_000, 1_000);
    assert_eq!(s.deadline(), u64::MAX);
    assert!(!s.can_advance());
    let t = PollSchedule::start(0, 1_000);
    assert!(t.can_advance());
}

#[test]
fn plain_schedule_pause() {
    assert_eq!(fixed_pause_ms(1000, &gas_cycle()), 978);
    assert_eq!(fixed_pause_ms(1000, &combined_cycle()), 928);
    assert_eq!(fixed_pause_ms(20, &gas_cycle()), 0);
    assert_eq!(fixed_pause_ms(1000, &Vec::new()), 1000);
}
