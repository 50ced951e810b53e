//! Whole runs of the acquisition machine, and what holds of the two retry
//! loops when the radio never cooperates.

use vstd::prelude::*;
use crate::acquisition::enter_poll;
use crate::acquisition::first_light;
use crate::acquisition::next;
use crate::acquisition::scan_outcome;
use crate::acquisition::Acquisition;
use crate::acquisition::Action;
use crate::acquisition::Advertisement;
use crate::acquisition::Event;
use crate::acquisition::Phase;
use crate::acquisition::RetryPolicy;
use crate::device::BledomDevice;
use crate::error::BledomError;

verus! {

/// Runs the machine from `start` over `events`, one report after another:
/// where it ends up, and the actions it handed out, in order.
pub open spec fn run(start: Acquisition, events: Seq<Event>) -> (Acquisition, Seq<Action>)
    decreases events.len(),
{
    if events.len() == 0 {
        (start, Seq::empty())
    } else {
        let (mid, actions) = run(start, events.drop_last());
        let (phase, action) = next(mid.policy, mid.phase, events.last());
        (Acquisition { policy: mid.policy, phase }, actions.push(action))
    }
}

/// The reports of a scan that was started and then listed `listings`, one
/// per poll, each followed by the pause that ran to its end.
pub open spec fn polled(listings: Seq<Vec<Advertisement>>) -> Seq<Event>
    decreases listings.len(),
{
    if listings.len() == 0 {
        seq![Event::Completed]
    } else {
        polled(listings.drop_last()).push(Event::Peripherals(listings.last())).push(
            Event::Completed,
        )
    }
}

/// No listing shows a controller, and none fails.
pub open spec fn all_silent(listings: Seq<Vec<Advertisement>>) -> bool {
    forall|i: int|
        0 <= i < listings.len() ==> scan_outcome((#[trigger] listings[i])@) == Err::<
            usize,
            BledomError,
        >(BledomError::DeviceNotFound)
}

/// One more report extends a run by one transition.
pub proof fn lemma_run_push(start: Acquisition, events: Seq<Event>, event: Event)
    ensures
        run(start, events.push(event)) == ({
            let (mid, actions) = run(start, events);
            let (phase, action) = next(mid.policy, mid.phase, event);
            (Acquisition { policy: mid.policy, phase }, actions.push(action))
        }),
{
    assert(events.push(event).drop_last() =~= events);
    assert(events.push(event).last() == event);
}

/// After `listings.len()` silent polls, none beyond the policy's count, the
/// machine has asked for a listing and then a pause once per poll, and
/// stands at the head of the scan loop.
pub proof fn lemma_silent_polls(policy: RetryPolicy, listings: Seq<Vec<Advertisement>>)
    requires
        listings.len() <= policy.scan_retries,
        all_silent(listings),
    ensures
        ({
            let start = Acquisition { policy, phase: Phase::StartingScan };
            let (end, actions) = run(start, polled(listings));
            let polls = listings.len() as int;
            &&& end.policy == policy
            &&& end.phase == enter_poll(policy, polls as u8).0
            &&& actions.len() == 2 * polls + 1
            &&& forall|i: int|
                0 <= i < polls ==> #[trigger] actions[2 * i] == Action::ListPeripherals
            &&& forall|i: int|
                0 <= i < polls ==> #[trigger] actions[2 * i + 1] == Action::Sleep(
                    policy.scan_interval_ms,
                )
            &&& actions[2 * polls] == enter_poll(policy, polls as u8).1
        }),
    decreases listings.len(),
{
    let start = Acquisition { policy, phase: Phase::StartingScan };
    if listings.len() == 0 {
        lemma_run_push(start, Seq::empty(), Event::Completed);
        assert(polled(listings) =~= Seq::<Event>::empty().push(Event::Completed));
        assert(run(start, Seq::empty()) == (start, Seq::<Action>::empty()));
    } else {
        let before = listings.drop_last();
        assert(all_silent(before)) by {
            assert forall|i: int| 0 <= i < before.len() implies scan_outcome(
                (#[trigger] before[i])@,
            ) == Err::<usize, BledomError>(BledomError::DeviceNotFound) by {
                assert(before[i] == listings[i]);
            }
        }
        lemma_silent_polls(policy, before);
        let polls = before.len() as int;
        let (mid, seen) = run(start, polled(before));
        let listed = Event::Peripherals(listings.last());
        lemma_run_push(start, polled(before), listed);
        lemma_run_push(start, polled(before).push(listed), Event::Completed);
        assert(mid.phase == Phase::Polling { polls: polls as u8 });
        assert(scan_outcome(listings.last()@) == Err::<usize, BledomError>(
            BledomError::DeviceNotFound,
        )) by {
            assert(listings.last() == listings[listings.len() - 1]);
        }
        let (end, actions) = run(start, polled(listings));
        assert(actions == seen.push(Action::Sleep(policy.scan_interval_ms)).push(
            enter_poll(policy, (polls + 1) as u8).1,
        ));
        assert forall|i: int| 0 <= i < polls + 1 implies #[trigger] actions[2 * i]
            == Action::ListPeripherals by {
            if i < polls {
                assert(actions[2 * i] == seen[2 * i]);
            }
        }
        assert forall|i: int| 0 <= i < polls + 1 implies #[trigger] actions[2 * i + 1]
            == Action::Sleep(policy.scan_interval_ms) by {
            if i < polls {
                assert(actions[2 * i + 1] == seen[2 * i + 1]);
            }
        }
    }
}

/// If no controller ever shows up, the scan is given up after exactly as
/// many polls as the policy allows.
///
/// Let the scan start, and let each of `scan_retries` listings be silent.
/// Then the machine asks for a listing exactly `scan_retries` times, pauses
/// for `scan_interval_ms` after each, then has the scan stopped, and ends
/// with `DeviceNotFound` whatever the stopping reports.
pub proof fn lemma_scan_gives_up_after_retries(
    policy: RetryPolicy,
    listings: Seq<Vec<Advertisement>>,
    stopped: Event,
)
    requires
        listings.len() == policy.scan_retries,
        all_silent(listings),
    ensures
        ({
            let start = Acquisition { policy, phase: Phase::StartingScan };
            let (end, actions) = run(start, polled(listings).push(stopped));
            let polls = policy.scan_retries as int;
            &&& end.phase == Phase::Failed
            &&& actions.len() == 2 * polls + 2
            &&& forall|i: int|
                0 <= i < polls ==> #[trigger] actions[2 * i] == Action::ListPeripherals
            &&& forall|i: int|
                0 <= i < polls ==> #[trigger] actions[2 * i + 1] == Action::Sleep(
                    policy.scan_interval_ms,
                )
            &&& actions[2 * polls] == Action::StopScan
            &&& actions[2 * polls + 1] == Action::Fail(BledomError::DeviceNotFound)
        }),
{
    let start = Acquisition { policy, phase: Phase::StartingScan };
    lemma_silent_polls(policy, listings);
    lemma_run_push(start, polled(listings), stopped);
    let (mid, seen) = run(start, polled(listings));
    let (end, actions) = run(start, polled(listings).push(stopped));
    let polls = policy.scan_retries as int;
    assert(actions == seen.push(Action::Fail(BledomError::DeviceNotFound)));
    assert forall|i: int| 0 <= i < polls implies #[trigger] actions[2 * i]
        == Action::ListPeripherals by {
        assert(actions[2 * i] == seen[2 * i]);
    }
    assert forall|i: int| 0 <= i < polls implies #[trigger] actions[2 * i + 1] == Action::Sleep(
        policy.scan_interval_ms,
    ) by {
        assert(actions[2 * i + 1] == seen[2 * i + 1]);
    }
    assert(actions[2 * polls] == seen[2 * polls]);
}

/// If the controller shows up on some poll within the policy's count, and
/// everything after that succeeds at once, the acquisition ends with the
/// controller ready.
///
/// Let `silent` polls pass, fewer than `scan_retries`, and let the next
/// listing show the controller at `light`. Let the pause, the stopping of
/// the scan, the connection and the discovery each complete, and let `ids`
/// hold the light characteristic's identifier. Then the machine has asked
/// for one listing more than there were silent polls, has the scan stopped,
/// asks for the connection exactly once, and hands out the handle that
/// binds `light` to the first position in `ids` that holds the identifier.
pub proof fn lemma_found_then_ready(
    policy: RetryPolicy,
    silent: Seq<Vec<Advertisement>>,
    hit: Vec<Advertisement>,
    light: usize,
    ids: Vec<u128>,
)
    requires
        silent.len() < policy.scan_retries,
        all_silent(silent),
        scan_outcome(hit@) == Ok::<usize, BledomError>(light),
        first_light(ids@, 0) < ids@.len(),
    ensures
        ({
            let start = Acquisition { policy, phase: Phase::StartingScan };
            let events = polled(silent).push(Event::Peripherals(hit)).push(Event::Completed).push(
                Event::Completed,
            ).push(Event::Completed).push(Event::Completed).push(Event::Characteristics(ids));
            let (end, actions) = run(start, events);
            let polls = silent.len() as int;
            &&& end.phase == Phase::Ready
            &&& actions.len() == 2 * polls + 7
            &&& forall|i: int|
                0 <= i <= polls ==> #[trigger] actions[2 * i] == Action::ListPeripherals
            &&& forall|i: int|
                0 <= i <= polls ==> #[trigger] actions[2 * i + 1] == Action::Sleep(
                    policy.scan_interval_ms,
                )
            &&& actions[2 * polls + 2] == Action::StopScan
            &&& actions[2 * polls + 3] == Action::Connect(light)
            &&& actions[2 * polls + 4] == Action::DiscoverServices(light)
            &&& actions[2 * polls + 5] == Action::ListCharacteristics(light)
            &&& actions[2 * polls + 6] == Action::Ready(
                BledomDevice { peripheral: light, characteristic: first_light(ids@, 0) as usize },
            )
        }),
{
    let start = Acquisition { policy, phase: Phase::StartingScan };
    let polls = silent.len() as int;
    lemma_silent_polls(policy, silent);
    let e0 = polled(silent);
    let e1 = e0.push(Event::Peripherals(hit));
    let e2 = e1.push(Event::Completed);
    let e3 = e2.push(Event::Completed);
    let e4 = e3.push(Event::Completed);
    let e5 = e4.push(Event::Completed);
    let e6 = e5.push(Event::Characteristics(ids));
    lemma_run_push(start, e0, Event::Peripherals(hit));
    lemma_run_push(start, e1, Event::Completed);
    lemma_run_push(start, e2, Event::Completed);
    lemma_run_push(start, e3, Event::Completed);
    lemma_run_push(start, e4, Event::Completed);
    lemma_run_push(start, e5, Event::Characteristics(ids));
    let seen = run(start, e0).1;
    let actions = run(start, e6).1;
    assert(run(start, e0).0.phase == Phase::Polling { polls: polls as u8 });
    assert(run(start, e1).0.phase == Phase::ScanPause {
        polls: (polls + 1) as u8,
        light: Some(light),
    });
    assert(run(start, e2).0.phase == Phase::StoppingScan { light });
    assert(run(start, e3).0.phase == Phase::Connecting { light, failures: 0 });
    assert(run(start, e4).0.phase == Phase::Discovering { light });
    assert(run(start, e5).0.phase == Phase::Resolving { light });
    assert(actions == seen.push(Action::Sleep(policy.scan_interval_ms)).push(Action::StopScan).push(
        Action::Connect(light),
    ).push(Action::DiscoverServices(light)).push(Action::ListCharacteristics(light)).push(
        Action::Ready(
            BledomDevice { peripheral: light, characteristic: first_light(ids@, 0) as usize },
        ),
    ));
    assert forall|i: int| 0 <= i <= polls implies #[trigger] actions[2 * i]
        == Action::ListPeripherals by {
        assert(actions[2 * i] == seen[2 * i]);
    }
    assert forall|i: int| 0 <= i <= polls implies #[trigger] actions[2 * i + 1] == Action::Sleep(
        policy.scan_interval_ms,
    ) by {
        if i < polls {
            assert(actions[2 * i + 1] == seen[2 * i + 1]);
        }
    }
}

/// The reports of a connection that was asked for once the scan had
/// stopped, and was refused with each of `refusals` in turn, each refusal
/// followed by the pause that ran to its end.
pub open spec fn refused(refusals: Seq<String>) -> Seq<Event>
    decreases refusals.len(),
{
    if refusals.len() == 0 {
        seq![Event::Completed]
    } else {
        refused(refusals.drop_last()).push(Event::Failed(refusals.last())).push(Event::Completed)
    }
}

/// After `refusals.len()` refused attempts, fewer than the policy's count,
/// the machine has asked for a connection and then a pause once per
/// refusal, and has asked for the next connection.
pub proof fn lemma_refused_attempts(policy: RetryPolicy, light: usize, refusals: Seq<String>)
    requires
        refusals.len() < policy.connection_retries,
    ensures
        ({
            let start = Acquisition { policy, phase: Phase::StoppingScan { light } };
            let (end, actions) = run(start, refused(refusals));
            let failures = refusals.len() as int;
            &&& end.policy == policy
            &&& end.phase == Phase::Connecting { light, failures: failures as u8 }
            &&& actions.len() == 2 * failures + 1
            &&& forall|i: int|
                0 <= i <= failures ==> #[trigger] actions[2 * i] == Action::Connect(light)
            &&& forall|i: int|
                0 <= i < failures ==> #[trigger] actions[2 * i + 1] == Action::Sleep(
                    policy.connection_interval_ms,
                )
        }),
    decreases refusals.len(),
{
    let start = Acquisition { policy, phase: Phase::StoppingScan { light } };
    if refusals.len() == 0 {
        lemma_run_push(start, Seq::empty(), Event::Completed);
        assert(refused(refusals) =~= Seq::<Event>::empty().push(Event::Completed));
        assert(run(start, Seq::empty()) == (start, Seq::<Action>::empty()));
    } else {
        let before = refusals.drop_last();
        lemma_refused_attempts(policy, light, before);
        let failures = before.len() as int;
        let (mid, seen) = run(start, refused(before));
        let failed = Event::Failed(refusals.last());
        lemma_run_push(start, refused(before), failed);
        lemma_run_push(start, refused(before).push(failed), Event::Completed);
        let (end, actions) = run(start, refused(refusals));
        assert(actions == seen.push(Action::Sleep(policy.connection_interval_ms)).push(
            Action::Connect(light),
        ));
        assert forall|i: int| 0 <= i <= failures + 1 implies #[trigger] actions[2 * i]
            == Action::Connect(light) by {
            if i <= failures {
                assert(actions[2 * i] == seen[2 * i]);
            }
        }
        assert forall|i: int| 0 <= i < failures + 1 implies #[trigger] actions[2 * i + 1]
            == Action::Sleep(policy.connection_interval_ms) by {
            if i < failures {
                assert(actions[2 * i + 1] == seen[2 * i + 1]);
            }
        }
    }
}

/// If every connection attempt is refused, the connection is given up
/// after exactly as many attempts as the policy allows, with the last
/// refusal as the reason.
///
/// Let the scan stop with the controller at `light`, and let each of
/// `connection_retries` attempts be refused. Then the machine asks for a
/// connection exactly `connection_retries` times, pauses for
/// `connection_interval_ms` between attempts, and ends with
/// `ConnectionFailed` holding the last refusal. A policy of zero attempts
/// is left out: the machine always tries once.
pub proof fn lemma_connect_gives_up_after_retries(
    policy: RetryPolicy,
    light: usize,
    refusals: Seq<String>,
)
    requires
        policy.connection_retries >= 1,
        refusals.len() == policy.connection_retries,
    ensures
        ({
            let start = Acquisition { policy, phase: Phase::StoppingScan { light } };
            let events = refused(refusals.drop_last()).push(Event::Failed(refusals.last()));
            let (end, actions) = run(start, events);
            let attempts = policy.connection_retries as int;
            &&& end.phase == Phase::Failed
            &&& actions.len() == 2 * attempts
            &&& forall|i: int|
                0 <= i < attempts ==> #[trigger] actions[2 * i] == Action::Connect(light)
            &&& forall|i: int|
                0 <= i < attempts - 1 ==> #[trigger] actions[2 * i + 1] == Action::Sleep(
                    policy.connection_interval_ms,
                )
            &&& actions[2 * attempts - 1] == Action::Fail(
                BledomError::ConnectionFailed(refusals.last()),
            )
        }),
{
    let start = Acquisition { policy, phase: Phase::StoppingScan { light } };
    let before = refusals.drop_last();
    let failed = Event::Failed(refusals.last());
    lemma_refused_attempts(policy, light, before);
    lemma_run_push(start, refused(before), failed);
    let (mid, seen) = run(start, refused(before));
    let (end, actions) = run(start, refused(before).push(failed));
    let attempts = policy.connection_retries as int;
    assert(actions == seen.push(Action::Fail(BledomError::ConnectionFailed(refusals.last()))));
    assert forall|i: int| 0 <= i < attempts implies #[trigger] actions[2 * i] == Action::Connect(
        light,
    ) by {
        assert(actions[2 * i] == seen[2 * i]);
    }
    assert forall|i: int| 0 <= i < attempts - 1 implies #[trigger] actions[2 * i + 1]
        == Action::Sleep(policy.connection_interval_ms) by {
        assert(actions[2 * i + 1] == seen[2 * i + 1]);
    }
}

} // verus!
