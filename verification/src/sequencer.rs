//! The command sequencer: a state machine that drives one device through
//! the fixed power-on / wait / set-speed sequence.
//!
//! The machine never touches the radio. `next_action` says what to perform
//! next — power the adapter, connect, locate the command characteristic,
//! write a frame, wait, disconnect — and `advance` consumes the outcome of
//! that action. On any failure the machine stops; no further action is
//! issued, so a failed connection means no frame is ever written.

use vstd::prelude::*;

use crate::Error;
use crate::address::{DeviceAddress, address_octets, parse_address, valid_address};
use crate::frame::{FrameKind, RESUME_SETTLE_MILLIS};

verus! {

/// GATT identifier of the vendor command service on the treadmill.
pub const COMMAND_SERVICE_ID: u16 = 14;

/// GATT identifier of the command characteristic within that service.
pub const COMMAND_CHARACTERISTIC_ID: u16 = 18;

/// One step the driving program must perform against the radio.
#[derive(Clone, Copy, Debug, PartialEq, Eq, Structural)]
pub enum Action {
    /// Open a session with the adapter and power it on.
    PowerOn,
    /// Connect to the target device.
    Connect,
    /// Locate the vendor service and its command characteristic.
    Locate,
    /// Write the given frame to the command characteristic.
    Write(FrameKind),
    /// Wait the given number of milliseconds.
    Wait(u64),
    /// Disconnect from the device.
    Disconnect,
}

/// Where the sequence stands.
#[derive(Clone, Copy, Debug, PartialEq, Eq, Structural)]
pub enum Phase {
    Init,
    PoweredOn,
    Connected,
    Located,
    ResumeSent,
    Waited,
    SpeedSent,
    Done,
    Failed,
}

/// The action pending in a phase, or `None` once the sequence has finished
/// or failed.
pub open spec fn phase_action(p: Phase) -> Option<Action> {
    match p {
        Phase::Init => Some(Action::PowerOn),
        Phase::PoweredOn => Some(Action::Connect),
        Phase::Connected => Some(Action::Locate),
        Phase::Located => Some(Action::Write(FrameKind::Resume)),
        Phase::ResumeSent => Some(Action::Wait(RESUME_SETTLE_MILLIS)),
        Phase::Waited => Some(Action::Write(FrameKind::SetSpeed)),
        Phase::SpeedSent => Some(Action::Disconnect),
        Phase::Done => None,
        Phase::Failed => None,
    }
}

/// The phase after the pending action succeeded or failed. A finished or
/// failed machine stays where it is.
pub open spec fn phase_step(p: Phase, success: bool) -> Phase {
    if p == Phase::Done || p == Phase::Failed {
        p
    } else if !success {
        Phase::Failed
    } else {
        match p {
            Phase::Init => Phase::PoweredOn,
            Phase::PoweredOn => Phase::Connected,
            Phase::Connected => Phase::Located,
            Phase::Located => Phase::ResumeSent,
            Phase::ResumeSent => Phase::Waited,
            Phase::Waited => Phase::SpeedSent,
            Phase::SpeedSent => Phase::Done,
            Phase::Done => Phase::Done,
            Phase::Failed => Phase::Failed,
        }
    }
}

/// How far along the straight-line sequence a phase lies; the two terminal
/// phases lie past its end.
pub open spec fn phase_index(p: Phase) -> int {
    match p {
        Phase::Init => 0,
        Phase::PoweredOn => 1,
        Phase::Connected => 2,
        Phase::Located => 3,
        Phase::ResumeSent => 4,
        Phase::Waited => 5,
        Phase::SpeedSent => 6,
        Phase::Done => 7,
        Phase::Failed => 7,
    }
}

/// The whole sequence, in the one order it is ever performed.
pub open spec fn full_plan() -> Seq<Action> {
    seq![
        Action::PowerOn,
        Action::Connect,
        Action::Locate,
        Action::Write(FrameKind::Resume),
        Action::Wait(RESUME_SETTLE_MILLIS),
        Action::Write(FrameKind::SetSpeed),
        Action::Disconnect,
    ]
}

/// The actions a run of the machine issues, starting in phase `p`, when the
/// performed actions come back with the given outcomes. Each issued action
/// consumes one outcome; the run stops when the machine has no action
/// pending or the outcomes run out.
pub open spec fn run_actions(p: Phase, outcomes: Seq<bool>) -> Seq<Action>
    decreases outcomes.len(),
{
    if outcomes.len() == 0 {
        Seq::empty()
    } else {
        match phase_action(p) {
            None => Seq::empty(),
            Some(a) => seq![a] + run_actions(phase_step(p, outcomes[0]), outcomes.skip(1)),
        }
    }
}

/// The command sequencer for one device: the validated target address, the
/// requested speed, and the phase reached so far.
///
/// The speed is carried but not yet encoded into the frame payload: the
/// vendor encoding of arbitrary speeds is not established, so the sequence
/// sends the known-good fixed speed frame.
#[derive(Debug)]
pub struct Sequencer {
    pub address: DeviceAddress,
    pub speed: u8,
    pub phase: Phase,
}

impl Sequencer {
    /// Builds a sequencer for the device at the given textual address.
    ///
    /// A malformed address is rejected here, before any action is issued,
    /// so nothing is ever sent towards an address that did not parse.
    pub fn new(address_text: &[u8], speed: u8) -> (r: Result<Sequencer, Error>)
        ensures
            r is Ok <==> valid_address(address_text@),
            r matches Ok(s) ==> s.phase == Phase::Init && s.speed == speed && s.address.bytes@
                == address_octets(address_text@),
            r matches Err(e) ==> e == Error::InvalidAddress,
    {
        let address = parse_address(address_text)?;
        Ok(Sequencer { address, speed, phase: Phase::Init })
    }

    /// The action the driving program must perform next, or `None` when the
    /// sequence has finished or failed.
    pub fn next_action(&self) -> (a: Option<Action>)
        ensures
            a == phase_action(self.phase),
    {
        match self.phase {
            Phase::Init => Some(Action::PowerOn),
            Phase::PoweredOn => Some(Action::Connect),
            Phase::Connected => Some(Action::Locate),
            Phase::Located => Some(Action::Write(FrameKind::Resume)),
            Phase::ResumeSent => Some(Action::Wait(RESUME_SETTLE_MILLIS)),
            Phase::Waited => Some(Action::Write(FrameKind::SetSpeed)),
            Phase::SpeedSent => Some(Action::Disconnect),
            Phase::Done => None,
            Phase::Failed => None,
        }
    }

    /// Consumes the outcome of the pending action: on success the machine
    /// moves one step along the sequence, on failure it stops for good.
    pub fn advance(&mut self, success: bool)
        ensures
            final(self).phase == phase_step(old(self).phase, success),
            final(self).address == old(self).address,
            final(self).speed == old(self).speed,
    {
        let next = if self.phase == Phase::Done || self.phase == Phase::Failed {
            self.phase
        } else if !success {
            Phase::Failed
        } else {
            match self.phase {
                Phase::Init => Phase::PoweredOn,
                Phase::PoweredOn => Phase::Connected,
                Phase::Connected => Phase::Located,
                Phase::Located => Phase::ResumeSent,
                Phase::ResumeSent => Phase::Waited,
                Phase::Waited => Phase::SpeedSent,
                Phase::SpeedSent => Phase::Done,
                Phase::Done => Phase::Done,
                Phase::Failed => Phase::Failed,
            }
        };
        self.phase = next;
    }
}

/// Replays the whole sequence against recorded outcomes: validates the
/// address, then issues actions and consumes one outcome per action until
/// the machine stops or the outcomes run out. Returns the actions issued,
/// in order, or the address error — in which case no action was issued.
pub fn run_sequence(address_text: &[u8], speed: u8, outcomes: &Vec<bool>) -> (r: Result<
    Vec<Action>,
    Error,
>)
    ensures
        r is Ok <==> valid_address(address_text@),
        r matches Ok(acts) ==> acts@ == run_actions(Phase::Init, outcomes@),
        r matches Err(e) ==> e == Error::InvalidAddress,
{
    let mut machine = match Sequencer::new(address_text, speed) {
        Ok(m) => m,
        Err(e) => {
            return Err(e);
        },
    };
    let mut acts: Vec<Action> = Vec::new();
    let n: usize = outcomes.len();
    proof {
        assert(outcomes@.skip(0) =~= outcomes@);
        assert(acts@ + run_actions(machine.phase, outcomes@.skip(0)) =~= run_actions(
            Phase::Init,
            outcomes@,
        ));
    }
    for i in 0..n
        invariant
            n == outcomes@.len(),
            valid_address(address_text@),
            acts@ + run_actions(machine.phase, outcomes@.skip(i as int)) == run_actions(
                Phase::Init,
                outcomes@,
            ),
    {
        match machine.next_action() {
            None => {
                proof {
                    assert(run_actions(machine.phase, outcomes@.skip(i as int)) =~= Seq::empty());
                    assert(acts@ =~= run_actions(Phase::Init, outcomes@));
                }
                return Ok(acts);
            },
            Some(a) => {
                proof {
                    let rest = outcomes@.skip(i as int);
                    assert(rest[0] == outcomes@[i as int]);
                    assert(rest.skip(1) =~= outcomes@.skip(i + 1));
                    assert(run_actions(machine.phase, rest) == seq![a] + run_actions(
                        phase_step(machine.phase, outcomes@[i as int]),
                        outcomes@.skip(i + 1),
                    ));
                    assert(acts@ + seq![a] =~= acts@.push(a));
                    assert(acts@.push(a) + run_actions(
                        phase_step(machine.phase, outcomes@[i as int]),
                        outcomes@.skip(i + 1),
                    ) =~= run_actions(Phase::Init, outcomes@));
                }
                acts.push(a);
                machine.advance(outcomes[i]);
            },
        }
    }
    proof {
        assert(outcomes@.skip(n as int) =~= Seq::<bool>::empty());
        assert(acts@ =~= run_actions(Phase::Init, outcomes@));
    }
    Ok(acts)
}

/// Any run of the sequencer issues a prefix of the one fixed plan, from the
/// point its starting phase lies at.
proof fn lemma_run_prefix_from(p: Phase, outcomes: Seq<bool>)
    ensures
        run_actions(p, outcomes).is_prefix_of(full_plan().skip(phase_index(p))),
    decreases outcomes.len(),
{
    let plan = full_plan();
    let idx: int = phase_index(p);
    if outcomes.len() == 0 {
        assert(run_actions(p, outcomes) =~= Seq::empty());
        assert(Seq::<Action>::empty().is_prefix_of(plan.skip(idx)));
    } else {
        match phase_action(p) {
            None => {
                assert(Seq::<Action>::empty().is_prefix_of(plan.skip(idx)));
            },
            Some(a) => {
                let p2 = phase_step(p, outcomes[0]);
                lemma_run_prefix_from(p2, outcomes.skip(1));
                let run = run_actions(p, outcomes);
                let run2 = run_actions(p2, outcomes.skip(1));
                assert(a == plan[idx]);
                if outcomes[0] {
                    assert(phase_index(p2) == idx + 1);
                    assert(plan.skip(idx) =~= seq![plan[idx]] + plan.skip(idx + 1));
                    assert(run =~= seq![a] + run2);
                    assert(run2 =~= plan.skip(idx + 1).take(run2.len() as int));
                    assert(run =~= plan.skip(idx).take(run.len() as int));
                } else {
                    assert(run2 =~= Seq::<Action>::empty());
                    assert(run =~= seq![a]);
                    assert(run =~= plan.skip(idx).take(1));
                }
            },
        }
    }
}

/// Every run, whatever the outcomes, issues a prefix of the fixed plan:
/// power on, connect, locate, write the resume frame, wait, write the speed
/// frame, disconnect — possibly cut short, never reordered.
pub proof fn lemma_run_is_plan_prefix(outcomes: Seq<bool>)
    ensures
        run_actions(Phase::Init, outcomes).is_prefix_of(full_plan()),
{
    lemma_run_prefix_from(Phase::Init, outcomes);
    assert(full_plan().skip(0) =~= full_plan());
}

/// The write order is invariant: in any run, wherever the speed frame is
/// written, the resume frame write and the fixed wait both already happened,
/// in that order.
pub proof fn lemma_write_order(outcomes: Seq<bool>)
    ensures
        forall|j: int|
            0 <= j < run_actions(Phase::Init, outcomes).len() && run_actions(
                Phase::Init,
                outcomes,
            )[j] == Action::Write(FrameKind::SetSpeed) ==> exists|i: int, k: int|
                0 <= i < k < j && run_actions(Phase::Init, outcomes)[i] == Action::Write(
                    FrameKind::Resume,
                ) && run_actions(Phase::Init, outcomes)[k] == Action::Wait(RESUME_SETTLE_MILLIS),
{
    lemma_run_is_plan_prefix(outcomes);
    let run = run_actions(Phase::Init, outcomes);
    let plan = full_plan();
    assert forall|j: int|
        0 <= j < run.len() && run[j] == Action::Write(FrameKind::SetSpeed) implies exists|
        i: int,
        k: int,
    |
        0 <= i < k < j && run[i] == Action::Write(FrameKind::Resume) && run[k] == Action::Wait(
            RESUME_SETTLE_MILLIS,
        ) by {
        assert(run =~= plan.take(run.len() as int));
        assert(run[j] == plan[j]);
        assert(j == 5);
        assert(run[3] == Action::Write(FrameKind::Resume));
        assert(run[4] == Action::Wait(RESUME_SETTLE_MILLIS));
    }
}

/// If the connection fails, no frame is ever written: a run whose first
/// outcome (powering on) succeeded and whose second (connecting) failed
/// issues no write action at all.
pub proof fn lemma_connect_failure_no_writes(outcomes: Seq<bool>)
    requires
        outcomes.len() >= 2,
        outcomes[0],
        !outcomes[1],
    ensures
        forall|j: int|
            0 <= j < run_actions(Phase::Init, outcomes).len() ==> !(run_actions(
                Phase::Init,
                outcomes,
            )[j] is Write),
{
    let run = run_actions(Phase::Init, outcomes);
    let tail1 = outcomes.skip(1);
    let tail2 = outcomes.skip(2);
    assert(tail1[0] == outcomes[1]);
    assert(tail1.skip(1) =~= tail2);
    assert(run_actions(Phase::Failed, tail2) =~= Seq::empty());
    assert(run_actions(Phase::PoweredOn, tail1) =~= seq![Action::Connect]);
    assert(run =~= seq![Action::PowerOn, Action::Connect]);
}

} // verus!
