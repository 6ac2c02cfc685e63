//! Classifying discovered peripherals and deciding when a scan is over.
//!
//! A peripheral is a treadmill exactly when its advertised service UUIDs
//! contain the treadmill service UUID. The caller that drives the radio
//! hands each discovery event in as plain values — the elapsed time and the
//! advertisement — and this module decides: matched, keep scanning, or
//! window expired.

use vstd::prelude::*;

use crate::Error;
use crate::address::DeviceAddress;

verus! {

/// The 128-bit service UUID that identifies the treadmill device class:
/// `0000fff0-0000-1000-8000-00805f9b34fb`.
pub const TREADMILL_SERVICE_UUID: u128 = 0x0000fff0_0000_1000_8000_00805f9b34fb;

/// One peripheral as seen during scanning: its address, the advertised (or
/// queried) service UUIDs as 128-bit values, and an optional display name.
#[derive(Debug)]
pub struct Advertisement {
    pub address: DeviceAddress,
    pub service_uuids: Vec<u128>,
    pub name: Option<String>,
}

impl Advertisement {
    /// The advertisement carries the treadmill service UUID.
    pub open spec fn spec_is_treadmill(self) -> bool {
        self.service_uuids@.contains(TREADMILL_SERVICE_UUID)
    }
}

/// Whether the advertised service UUIDs identify a treadmill.
pub fn is_treadmill(ad: &Advertisement) -> (r: bool)
    ensures
        r == ad.spec_is_treadmill(),
{
    let n: usize = ad.service_uuids.len();
    for i in 0..n
        invariant
            n == ad.service_uuids@.len(),
            forall|j: int| 0 <= j < i ==> ad.service_uuids@[j] != TREADMILL_SERVICE_UUID,
    {
        if ad.service_uuids[i] == TREADMILL_SERVICE_UUID {
            return true;
        }
    }
    false
}

/// What to do with one discovery event.
#[derive(Clone, Copy, Debug, PartialEq, Eq, Structural)]
pub enum ScanDecision {
    /// The peripheral is a treadmill and arrived inside the scan window.
    Found,
    /// Not a treadmill; keep scanning.
    NotYet,
    /// The scan window has closed; report not-found.
    Expired,
}

/// Decides one discovery event: a peripheral seen `elapsed_millis` into a
/// scan with the given window.
///
/// The scan expires exactly when the window has elapsed — never before —
/// and a match is reported only for a treadmill seen inside the window.
pub fn scan_decide(timeout_millis: u64, elapsed_millis: u64, ad: &Advertisement) -> (d:
    ScanDecision)
    ensures
        d is Expired <==> elapsed_millis >= timeout_millis,
        d is Found <==> (elapsed_millis < timeout_millis && ad.spec_is_treadmill()),
        d is NotYet <==> (elapsed_millis < timeout_millis && !ad.spec_is_treadmill()),
{
    if elapsed_millis >= timeout_millis {
        ScanDecision::Expired
    } else if is_treadmill(ad) {
        ScanDecision::Found
    } else {
        ScanDecision::NotYet
    }
}

/// One discovery event: how long after the scan began the peripheral was
/// seen, and what it advertised.
pub struct TimedEvent {
    pub at_millis: u64,
    pub advertisement: Advertisement,
}

/// The event falls inside the scan window and advertises a treadmill.
pub open spec fn event_matches(e: TimedEvent, timeout_millis: u64) -> bool {
    e.at_millis < timeout_millis && e.advertisement.spec_is_treadmill()
}

/// Streaming discovery over a recorded event stream: returns the index of
/// the first treadmill seen before the window closed, or `Error::NotFound`
/// exactly when no event inside the window advertises a treadmill.
///
/// Events arrive in time order, so the scan stops at the first event on or
/// after the deadline.
pub fn find_treadmill(events: &Vec<TimedEvent>, timeout_millis: u64) -> (r: Result<usize, Error>)
    requires
        forall|i: int, j: int|
            0 <= i < j < events@.len() ==> events@[i].at_millis <= events@[j].at_millis,
    ensures
        r is Ok <==> exists|j: int|
            0 <= j < events@.len() && event_matches(events@[j], timeout_millis),
        r matches Ok(i) ==> i < events@.len() && event_matches(
            events@[i as int],
            timeout_millis,
        ) && forall|j: int| 0 <= j < i ==> !event_matches(events@[j], timeout_millis),
        r matches Err(e) ==> e == Error::NotFound,
{
    let n: usize = events.len();
    for i in 0..n
        invariant
            n == events@.len(),
            forall|i2: int, j2: int|
                0 <= i2 < j2 < events@.len() ==> events@[i2].at_millis
                    <= events@[j2].at_millis,
            forall|j: int| 0 <= j < i ==> !event_matches(events@[j], timeout_millis),
    {
        let e = &events[i];
        match scan_decide(timeout_millis, e.at_millis, &e.advertisement) {
            ScanDecision::Found => {
                return Ok(i);
            },
            ScanDecision::NotYet => {},
            ScanDecision::Expired => {
                proof {
                    assert forall|j: int|
                        0 <= j < events@.len() implies !event_matches(
                        events@[j],
                        timeout_millis,
                    ) by {
                        if j > i {
                            assert(events@[i as int].at_millis <= events@[j].at_millis);
                        }
                    }
                }
                return Err(Error::NotFound);
            },
        }
    }
    Err(Error::NotFound)
}

/// The addresses of the matching advertisements, in the order seen.
pub open spec fn matching_addresses(ads: Seq<Advertisement>) -> Seq<DeviceAddress>
    decreases ads.len(),
{
    if ads.len() == 0 {
        Seq::empty()
    } else {
        let rest = matching_addresses(ads.drop_last());
        if ads.last().spec_is_treadmill() {
            rest.push(ads.last().address)
        } else {
            rest
        }
    }
}

/// Enumerate-mode discovery: the scan ran for the whole window and every
/// visible peripheral was queried; returns the addresses of all peripherals
/// that advertise the treadmill service, in the order seen (possibly none).
pub fn find_all_treadmills(ads: &Vec<Advertisement>) -> (r: Vec<DeviceAddress>)
    ensures
        r@ == matching_addresses(ads@),
{
    let mut found: Vec<DeviceAddress> = Vec::new();
    let n: usize = ads.len();
    for i in 0..n
        invariant
            n == ads@.len(),
            found@ == matching_addresses(ads@.take(i as int)),
    {
        proof {
            assert(ads@.take(i + 1).drop_last() =~= ads@.take(i as int));
            assert(ads@.take(i + 1).last() == ads@[i as int]);
        }
        if is_treadmill(&ads[i]) {
            found.push(ads[i].address);
        }
    }
    proof {
        assert(ads@.take(n as int) =~= ads@);
    }
    found
}

/// Some advertisement in `ads` is a treadmill and has this address.
pub open spec fn matched_address(ads: Seq<Advertisement>, a: DeviceAddress) -> bool {
    exists|i: int|
        0 <= i < ads.len() && #[trigger] ads[i].spec_is_treadmill() && ads[i].address == a
}

/// Discovery returns only treadmills: every address in the enumerate-mode
/// result is the address of some advertisement in the input that carries the
/// treadmill service UUID.
pub proof fn lemma_matching_addresses_sound(ads: Seq<Advertisement>)
    ensures
        forall|j: int|
            0 <= j < matching_addresses(ads).len() ==> matched_address(
                ads,
                #[trigger] matching_addresses(ads)[j],
            ),
    decreases ads.len(),
{
    if ads.len() > 0 {
        lemma_matching_addresses_sound(ads.drop_last());
        let rest = matching_addresses(ads.drop_last());
        assert forall|j: int| 0 <= j < matching_addresses(ads).len() implies matched_address(
            ads,
            #[trigger] matching_addresses(ads)[j],
        ) by {
            if j < rest.len() {
                assert(matched_address(ads.drop_last(), rest[j]));
                let i: int = choose|i: int|
                    0 <= i < ads.drop_last().len()
                        && #[trigger] ads.drop_last()[i].spec_is_treadmill()
                        && ads.drop_last()[i].address == rest[j];
                assert(ads[i].spec_is_treadmill() && ads[i].address == matching_addresses(ads)[j]);
            } else {
                let i: int = ads.len() - 1;
                assert(ads[i].spec_is_treadmill() && ads[i].address == matching_addresses(ads)[j]);
            }
        }
    }
}

/// Discovery misses no treadmill: every advertisement in the input that
/// carries the treadmill service UUID has its address in the enumerate-mode
/// result.
pub proof fn lemma_matching_addresses_complete(ads: Seq<Advertisement>)
    ensures
        forall|i: int|
            0 <= i < ads.len() && #[trigger] ads[i].spec_is_treadmill() ==> matching_addresses(
                ads,
            ).contains(ads[i].address),
    decreases ads.len(),
{
    if ads.len() > 0 {
        lemma_matching_addresses_complete(ads.drop_last());
        let rest = matching_addresses(ads.drop_last());
        assert forall|i: int|
            0 <= i < ads.len() && #[trigger] ads[i].spec_is_treadmill() implies matching_addresses(
            ads,
        ).contains(ads[i].address) by {
            if i < ads.len() - 1 {
                assert(ads.drop_last()[i].spec_is_treadmill());
                let j: int = choose|j: int| 0 <= j < rest.len() && rest[j] == ads[i].address;
                if ads.last().spec_is_treadmill() {
                    assert(matching_addresses(ads)[j] == ads[i].address);
                } else {
                    assert(matching_addresses(ads)[j] == ads[i].address);
                }
            } else {
                let m = matching_addresses(ads);
                assert(m[m.len() - 1] == ads[i].address);
            }
        }
    }
}

/// With a zero scan window no discovery event falls inside the window, so
/// streaming discovery reports not-found whatever was advertised.
pub proof fn lemma_zero_timeout_not_found(events: Seq<TimedEvent>)
    ensures
        !(exists|j: int| 0 <= j < events.len() && event_matches(events[j], 0)),
{
}

} // verus!
