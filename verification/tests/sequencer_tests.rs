use treadmill_ble::Error;
use treadmill_ble::frame::{FrameKind, RESUME_SETTLE_MILLIS};
use treadmill_ble::sequencer::{Action, Phase, Sequencer, run_sequence};

#[test]
fn invalid_address_fails_before_any_action() {
    let r = run_sequence(b"not an address!!!", 5, &vec![true; 7]);
    assert_eq!(r.unwrap_err(), Error::InvalidAddress);
}

#[test]
fn full_run_issues_the_fixed_plan() {
    let acts = run_sequence(b"AA:BB:CC:DD:EE:FF", 5, &vec![true; 7]).unwrap();
    assert_eq!(
        acts,
        vec![
            Action::PowerOn,
            Action::Connect,
            Action::Locate,
            Action::Write(FrameKind::Resume),
            Action::Wait(RESUME_SETTLE_MILLIS),
            Action::Write(FrameKind::SetSpeed),
            Action::Disconnect,
        ]
    );
}

#[test]
fn full_run_writes_exactly_twice_in_order() {
    let acts = run_sequence(b"AA:BB:CC:DD:EE:FF", 5, &vec![true; 7]).unwrap();
    let writes: Vec<usize> = acts
        .iter()
        .enumerate()
        .filter(|(_, a)| matches!(a, Action::Write(_)))
        .map(|(i, _)| i)
        .collect();
    assert_eq!(writes.len(), 2);
    assert_eq!(acts[writes[0]], Action::Write(FrameKind::Resume));
    assert_eq!(acts[writes[1]], Action::Write(FrameKind::SetSpeed));
    let wait = acts.iter().position(|a| matches!(a, Action::Wait(_))).unwrap();
    assert!(writes[0] < wait && wait < writes[1]);
    assert_eq!(acts.last(), Some(&Action::Disconnect));
}

#[test]
fn connect_failure_issues_no_write() {
    let acts =
        run_sequence(b"AA:BB:CC:DD:EE:FF", 5, &vec![true, false, true, true, true, true, true])
            .unwrap();
    assert_eq!(acts, vec![Action::PowerOn, Action::Connect]);
    assert!(acts.iter().all(|a| !matches!(a, Action::Write(_))));
}

#[test]
fn write_failure_stops_the_sequence() {
    let acts =
        run_sequence(b"AA:BB:CC:DD:EE:FF", 5, &vec![true, true, true, false, true, true, true])
            .unwrap();
    assert_eq!(
        acts,
        vec![Action::PowerOn, Action::Connect, Action::Locate, Action::Write(FrameKind::Resume)]
    );
}

#[test]
fn short_outcome_list_issues_a_plan_prefix() {
    let acts = run_sequence(b"AA:BB:CC:DD:EE:FF", 5, &vec![true, true, true]).unwrap();
    assert_eq!(acts, vec![Action::PowerOn, Action::Connect, Action::Locate]);
}

#[test]
fn machine_steps_through_the_phases() {
    let mut machine = Sequencer::new(b"AA:BB:CC:DD:EE:FF", 2).unwrap();
    assert_eq!(machine.phase, Phase::Init);
    assert_eq!(machine.address.bytes, [0xAA, 0xBB, 0xCC, 0xDD, 0xEE, 0xFF]);
    assert_eq!(machine.speed, 2);
    assert_eq!(machine.next_action(), Some(Action::PowerOn));
    machine.advance(true);
    assert_eq!(machine.next_action(), Some(Action::Connect));
    machine.advance(false);
    assert_eq!(machine.phase, Phase::Failed);
    assert_eq!(machine.next_action(), None);
    machine.advance(true);
    assert_eq!(machine.phase, Phase::Failed);
}

#[test]
fn rejected_sequencer_reports_the_parse_error() {
    assert_eq!(Sequencer::new(b"AA:BB:CC:DD:EE", 2).unwrap_err(), Error::InvalidAddress);
}
