use hue_persistence::data::ColorState;
use hue_persistence::data::Ct;
use hue_persistence::data::Hs;
use hue_persistence::data::Light;
use hue_persistence::data::LightState;
use hue_persistence::data::Xy;
use hue_persistence::discovery::select_bridge_address;
use hue_persistence::encode::u64_to_decimal;
use hue_persistence::engine::run_cycle;
use hue_persistence::engine::Fetched;
use hue_persistence::error::Error;
use hue_persistence::gate::gate_persistence;
use hue_persistence::restore::build_restore_command;
use hue_persistence::sched::sched_step;
use hue_persistence::sched::SchedEvent;
use hue_persistence::sched::SchedOp;
use hue_persistence::sched::SchedPhase;
use hue_persistence::sched::POLL_INTERVAL_UNITS;
use hue_persistence::sched::RETRY_WAIT_UNITS;
use hue_persistence::store::State;

fn hs_state(on: bool, bri: u8, hue: u16, sat: u8) -> LightState {
    LightState { on, bri, color: ColorState::Hs(Hs { hue, sat }) }
}

fn light(id: usize, uniqueid: &str, name: &str, state: LightState) -> Light {
    Light::make(
        id,
        name.to_string(),
        "LCT001".to_string(),
        "1.0".to_string(),
        uniqueid.to_string(),
        state,
    )
}

#[test]
fn no_persistence_on_a_restore_cycle() {
    // Drive a store through an unreachable -> reachable transition, so the
    // cycle reports a restore; persistence must then be skipped even though
    // the encoding has never been written before.
    let mut state = State::default();
    let good = hs_state(true, 200, 100, 200);
    run_cycle(&mut state, &vec![Fetched { reachable: false, light: light(1, "L1", "a", good) }]);
    let out = run_cycle(
        &mut state,
        &vec![Fetched { reachable: true, light: light(1, "L1", "a", hs_state(false, 1, 0, 0)) }],
    );
    assert!(out.restore_occurred);
    assert_eq!(gate_persistence(&mut state, out.restore_occurred), None);
    // On the next quiet cycle the changed encoding is written.
    let out2 = run_cycle(
        &mut state,
        &vec![Fetched { reachable: true, light: light(1, "L1", "a", good) }],
    );
    assert!(!out2.restore_occurred);
    assert!(gate_persistence(&mut state, out2.restore_occurred).is_some());
}

#[test]
fn same_store_twice_writes_exactly_once() {
    let mut state = State::default();
    let s = hs_state(true, 50, 1000, 30);
    run_cycle(&mut state, &vec![Fetched { reachable: true, light: light(1, "L1", "a", s) }]);
    let first = gate_persistence(&mut state, false);
    assert!(first.is_some());
    // Feeding the same lights again leaves the encoding unchanged: no write.
    run_cycle(&mut state, &vec![Fetched { reachable: true, light: light(1, "L1", "a", s) }]);
    let second = gate_persistence(&mut state, false);
    assert_eq!(second, None);
}

#[test]
fn changed_store_writes_a_new_encoding() {
    let mut state = State::default();
    run_cycle(
        &mut state,
        &vec![Fetched { reachable: true, light: light(1, "L1", "a", hs_state(true, 50, 1000, 30)) }],
    );
    let first = gate_persistence(&mut state, false).expect("first write");
    run_cycle(
        &mut state,
        &vec![Fetched { reachable: true, light: light(1, "L1", "a", hs_state(true, 51, 1000, 30)) }],
    );
    let second = gate_persistence(&mut state, false).expect("second write");
    assert_ne!(first, second);
}

#[test]
fn snapshot_encoding_is_exact() {
    let mut state = State::default();
    let l = light(7, "ab:cd", "kitchen", hs_state(true, 200, 100, 200));
    run_cycle(&mut state, &vec![Fetched { reachable: true, light: l }]);
    let enc = gate_persistence(&mut state, false).expect("a write");
    assert_eq!(enc, "ab:cd|on|200|hs:100:200\n");
}

#[test]
fn snapshot_encoding_covers_all_modes() {
    let mut state = State::default();
    let off_ct = LightState { on: false, bri: 1, color: ColorState::Ct(Ct { ct: 366 }) };
    let xy = LightState {
        on: true,
        bri: 254,
        color: ColorState::Xy(Xy { x_bits: 5, y_bits: 6 }),
    };
    run_cycle(
        &mut state,
        &vec![
            Fetched { reachable: true, light: light(1, "u1", "a", off_ct) },
            Fetched { reachable: true, light: light(2, "u2", "b", xy) },
        ],
    );
    let enc = gate_persistence(&mut state, false).expect("a write");
    assert_eq!(enc, "u1|off|1|ct:366\nu2|on|254|xy:5:6\n");
}

#[test]
fn decimal_notation_is_exact() {
    assert_eq!(u64_to_decimal(0), "0");
    assert_eq!(u64_to_decimal(9), "9");
    assert_eq!(u64_to_decimal(10), "10");
    assert_eq!(u64_to_decimal(254), "254");
    assert_eq!(u64_to_decimal(65535), "65535");
}

#[test]
fn restore_command_forces_saturation_for_colour_temperature() {
    let l = light(1, "u1", "a", LightState { on: false, bri: 3, color: ColorState::Ct(Ct { ct: 153 }) });
    let cmd = build_restore_command(&l);
    assert!(cmd.on);
    assert_eq!(cmd.bri, 3);
    assert_eq!(cmd.ct, Some(153));
    assert_eq!(cmd.sat, Some(254));
    assert_eq!(cmd.hue, None);
    assert_eq!(cmd.xy_bits, None);
}

#[test]
fn restore_command_forwards_xy_untouched() {
    let l = light(
        1,
        "u1",
        "a",
        LightState { on: false, bri: 80, color: ColorState::Xy(Xy { x_bits: 11, y_bits: 22 }) },
    );
    let cmd = build_restore_command(&l);
    assert!(cmd.on);
    assert_eq!(cmd.xy_bits, Some((11, 22)));
    assert_eq!(cmd.sat, None);
    assert_eq!(cmd.ct, None);
}

#[test]
fn empty_discovery_is_a_discovery_error() {
    assert_eq!(select_bridge_address(Vec::new()), Err(Error::Discovery));
}

#[test]
fn discovery_selects_the_last_candidate() {
    let addrs = vec!["10.0.0.1".to_string(), "10.0.0.2".to_string()];
    assert_eq!(select_bridge_address(addrs), Ok("10.0.0.2".to_string()));
}

#[test]
fn discovery_failure_waits_and_retries() {
    let step = sched_step(SchedPhase::Disconnected, SchedEvent::DiscoveryFailed);
    assert_eq!(step.next, SchedPhase::Disconnected);
    assert_eq!(step.wait_units, RETRY_WAIT_UNITS);
    assert_eq!(step.op, SchedOp::Discover);
}

#[test]
fn timeout_is_handled_like_a_bridge_error() {
    let timed_out = sched_step(SchedPhase::Connected, SchedEvent::CycleFailed(Error::Timeout));
    let bridge = sched_step(SchedPhase::Connected, SchedEvent::CycleFailed(Error::Bridge));
    assert_eq!(timed_out, bridge);
    assert_eq!(timed_out.next, SchedPhase::Disconnected);
    assert_eq!(timed_out.wait_units, 60);
    assert_eq!(timed_out.op, SchedOp::Discover);
}

#[test]
fn persistence_failure_does_not_abort_polling() {
    let step = sched_step(SchedPhase::Connected, SchedEvent::CycleFailed(Error::Persistence));
    assert_eq!(step.next, SchedPhase::Connected);
    assert_eq!(step.wait_units, POLL_INTERVAL_UNITS);
    assert_eq!(step.op, SchedOp::RunCycle);
}

#[test]
fn completed_cycle_polls_again_after_the_interval() {
    let step = sched_step(SchedPhase::Connected, SchedEvent::CycleCompleted);
    assert_eq!(step.next, SchedPhase::Connected);
    assert_eq!(step.wait_units, 10);
    assert_eq!(step.op, SchedOp::RunCycle);
}

#[test]
fn acquired_bridge_starts_polling_at_once() {
    let step = sched_step(SchedPhase::Disconnected, SchedEvent::Acquired);
    assert_eq!(step.next, SchedPhase::Connected);
    assert_eq!(step.wait_units, 0);
    assert_eq!(step.op, SchedOp::RunCycle);
}

#[test]
fn error_descriptions() {
    assert_eq!(Error::Discovery.describe(), "no bridge found");
    assert_eq!(Error::Bridge.describe(), "bridge failure");
    assert_eq!(Error::Persistence.describe(), "snapshot write failure");
    assert_eq!(Error::Timeout.describe(), "cycle timed out");
}
