//! The acquisition state machine: how a controller is located, connected
//! and bound, one decision at a time.
//!
//! The machine never touches the transport. It hands out an [`Action`], the
//! caller performs it and reports what happened as an [`Event`], and the
//! machine answers with the next action, until it hands out
//! [`Action::Ready`] or [`Action::Fail`].

use vstd::prelude::*;
use crate::bleuuid::LIGHT_CHARACTERISTIC_UUID;
use crate::device::BledomDevice;
use crate::error::BledomError;
use crate::error::ScanStage;

verus! {

/// Scan polls, unless set otherwise.
pub const DEFAULT_SCAN_RETRIES: u8 = 10;

/// Milliseconds between scan polls, unless set otherwise.
pub const DEFAULT_SCAN_INTERVAL_MS: u64 = 1000;

/// Connection attempts, unless set otherwise.
pub const DEFAULT_CONNECTION_RETRIES: u8 = 10;

/// Milliseconds between connection attempts, unless set otherwise.
pub const DEFAULT_CONNECTION_INTERVAL_MS: u64 = 100;

/// How often and how patiently the two retry loops run.
#[derive(Clone, Copy, Debug, PartialEq, Eq, Structural)]
pub struct RetryPolicy {
    /// Scan polls before the search is given up.
    pub scan_retries: u8,
    /// Milliseconds between scan polls.
    pub scan_interval_ms: u64,
    /// Connection attempts before the connection is given up.
    pub connection_retries: u8,
    /// Milliseconds between connection attempts.
    pub connection_interval_ms: u64,
}

impl RetryPolicy {
    /// Ten polls a second apart, ten connection attempts a tenth of a
    /// second apart.
    pub open spec fn standard() -> RetryPolicy {
        RetryPolicy {
            scan_retries: DEFAULT_SCAN_RETRIES,
            scan_interval_ms: DEFAULT_SCAN_INTERVAL_MS,
            connection_retries: DEFAULT_CONNECTION_RETRIES,
            connection_interval_ms: DEFAULT_CONNECTION_INTERVAL_MS,
        }
    }
}

/// What the transport reports of one listed peripheral.
#[derive(Clone, Debug, PartialEq, Eq)]
pub enum Advertisement {
    /// Reading the peripheral's properties failed, with the transport's
    /// error text.
    Failed(String),
    /// The peripheral has no properties to read.
    Unavailable,
    /// The peripheral's properties, of which only the advertised name
    /// matters.
    Named(Option<String>),
}

/// The characters that a controller's advertised name contains.
pub open spec fn product_name() -> Seq<char> {
    "ELK-BLEDOM"@
}

/// Whether `needle` occurs in `hay` as a contiguous run.
pub open spec fn is_substring(needle: Seq<char>, hay: Seq<char>) -> bool {
    exists|i: int|
        0 <= i && i + needle.len() <= hay.len() && #[trigger] hay.subrange(i, i + needle.len())
            == needle
}

/// Whether an advertised name is that of a controller.
pub open spec fn names_controller(name: Option<String>) -> bool {
    name matches Some(text) && is_substring(product_name(), text@)
}

/// Whether the search passes over a peripheral: it has properties, and its
/// name is not that of a controller.
pub open spec fn passed_over(seen: Advertisement) -> bool {
    seen matches Advertisement::Named(name) && !names_controller(name)
}

/// The first position at or after `from` that the search does not pass
/// over, or the length of the listing if there is none.
pub open spec fn first_decisive(listing: Seq<Advertisement>, from: int) -> int
    decreases listing.len() - from,
{
    if from < 0 || from >= listing.len() {
        listing.len() as int
    } else if passed_over(listing[from]) {
        first_decisive(listing, from + 1)
    } else {
        from
    }
}

/// What one look at a listing gives: the position of the first controller,
/// unless a peripheral before it could not be read; `DeviceNotFound` if
/// every peripheral is passed over.
pub open spec fn scan_outcome(listing: Seq<Advertisement>) -> Result<usize, BledomError> {
    let at = first_decisive(listing, 0);
    if at >= listing.len() {
        Err(BledomError::DeviceNotFound)
    } else {
        match listing[at] {
            Advertisement::Failed(text) => Err(BledomError::BluetoothManagerError(text)),
            Advertisement::Unavailable => Err(BledomError::PropertiesUnavailable),
            Advertisement::Named(_) => Ok(at as usize),
        }
    }
}

/// `first_decisive` is the least position from `from` on that is not
/// passed over.
pub proof fn lemma_first_decisive(listing: Seq<Advertisement>, from: int)
    requires
        0 <= from <= listing.len(),
    ensures
        from <= first_decisive(listing, from) <= listing.len(),
        forall|j: int|
            from <= j < first_decisive(listing, from) ==> passed_over(#[trigger] listing[j]),
        first_decisive(listing, from) < listing.len() ==> !passed_over(
            listing[first_decisive(listing, from)],
        ),
    decreases listing.len() - from,
{
    if from < listing.len() && passed_over(listing[from]) {
        lemma_first_decisive(listing, from + 1);
    }
}

/// Calls `str::contains` with a string pattern.
///
/// Trusted: std documents that it returns true exactly when the pattern
/// matches a sub-slice of the string.
#[verifier::external_body]
fn name_contains(name: &str, needle: &str) -> (found: bool)
    ensures
        found == is_substring(needle@, name@),
{
    name.contains(needle)
}

/// Whether the search ends at this peripheral, be it with the controller
/// or with an error: the peripherals listed after it need not be read.
pub fn ends_search(seen: &Advertisement) -> (stop: bool)
    ensures
        stop == !passed_over(*seen),
{
    match seen {
        Advertisement::Named(name) => match name {
            Some(text) => name_contains(text.as_str(), "ELK-BLEDOM"),
            None => false,
        },
        _ => true,
    }
}

/// What follows the peripheral at which the search ends has no say in the
/// outcome.
pub proof fn lemma_search_reads_no_further(
    listing: Seq<Advertisement>,
    rest: Seq<Advertisement>,
    from: int,
)
    requires
        0 <= from <= listing.len(),
        first_decisive(listing, from) < listing.len(),
    ensures
        first_decisive(listing + rest, from) == first_decisive(listing, from),
        from == 0 ==> scan_outcome(listing + rest) == scan_outcome(listing),
    decreases listing.len() - from,
{
    assert(from < listing.len());
    assert((listing + rest)[from] == listing[from]);
    if passed_over(listing[from]) {
        lemma_search_reads_no_further(listing, rest, from + 1);
    }
    if from == 0 {
        let at = first_decisive(listing, 0);
        lemma_first_decisive(listing, 0);
        assert((listing + rest)[at] == listing[at]);
    }
}

/// Looks through a listing for the first controller.
///
/// Peripherals are taken in order. One whose properties could not be read,
/// or that has none, ends the search with an error; one whose name holds
/// the product name ends it with its position.
pub fn find_light(listing: &Vec<Advertisement>) -> (r: Result<usize, BledomError>)
    ensures
        r == scan_outcome(listing@),
{
    let mut i: usize = 0;
    while i < listing.len()
        invariant
            0 <= i <= listing.len(),
            first_decisive(listing@, 0) == first_decisive(listing@, i as int),
        decreases listing.len() - i,
    {
        if ends_search(&listing[i]) {
            return match &listing[i] {
                Advertisement::Failed(text) => Err(
                    BledomError::BluetoothManagerError(text.clone()),
                ),
                Advertisement::Unavailable => Err(BledomError::PropertiesUnavailable),
                Advertisement::Named(_) => Ok(i),
            };
        }
        i += 1;
    }
    Err(BledomError::DeviceNotFound)
}

/// The first position at or after `from` that holds the light
/// characteristic's identifier, or the length of the list if none does.
pub open spec fn first_light(ids: Seq<u128>, from: int) -> int
    decreases ids.len() - from,
{
    if from < 0 || from >= ids.len() {
        ids.len() as int
    } else if ids[from] != LIGHT_CHARACTERISTIC_UUID {
        first_light(ids, from + 1)
    } else {
        from
    }
}

/// `first_light` is the least position from `from` on that holds the light
/// characteristic's identifier.
pub proof fn lemma_first_light(ids: Seq<u128>, from: int)
    requires
        0 <= from <= ids.len(),
    ensures
        from <= first_light(ids, from) <= ids.len(),
        forall|j: int|
            from <= j < first_light(ids, from) ==> #[trigger] ids[j] != LIGHT_CHARACTERISTIC_UUID,
        first_light(ids, from) < ids.len() ==> ids[first_light(ids, from)]
            == LIGHT_CHARACTERISTIC_UUID,
    decreases ids.len() - from,
{
    if from < ids.len() && ids[from] != LIGHT_CHARACTERISTIC_UUID {
        lemma_first_light(ids, from + 1);
    }
}

/// Finds the light characteristic among a peripheral's characteristics,
/// given by their 128-bit identifiers.
pub fn find_characteristic(ids: &Vec<u128>) -> (r: Option<usize>)
    ensures
        r is Some <==> first_light(ids@, 0) < ids.len(),
        r is Some ==> r->Some_0 == first_light(ids@, 0),
{
    let mut i: usize = 0;
    while i < ids.len()
        invariant
            0 <= i <= ids.len(),
            first_light(ids@, 0) == first_light(ids@, i as int),
        decreases ids.len() - i,
    {
        if ids[i] == LIGHT_CHARACTERISTIC_UUID {
            return Some(i);
        }
        i += 1;
    }
    None
}

/// What the machine asks its caller to do next.
#[derive(Clone, Debug, PartialEq, Eq)]
pub enum Action {
    /// Open the transport's manager.
    OpenManager,
    /// List the host's adapters and report how many there are.
    ListAdapters,
    /// Start a broadcast scan on the first adapter, unfiltered.
    StartScan,
    /// List the peripherals seen so far, with the properties of each.
    ListPeripherals,
    /// Wait for so many milliseconds.
    Sleep(u64),
    /// Stop the scan.
    StopScan,
    /// Connect to the peripheral at this position of the last listing.
    Connect(usize),
    /// Discover the services of that peripheral.
    DiscoverServices(usize),
    /// List the identifiers of that peripheral's characteristics.
    ListCharacteristics(usize),
    /// Acquisition is over: the controller is ready.
    Ready(BledomDevice),
    /// Acquisition is over: it failed.
    Fail(BledomError),
}

/// What the caller reports back after an action.
#[derive(Clone, Debug, PartialEq, Eq)]
pub enum Event {
    /// The action was carried out and has nothing to report.
    Completed,
    /// The transport refused the action, with its error text.
    Failed(String),
    /// The number of adapters listed.
    Adapters(usize),
    /// The peripherals listed, in the transport's order.
    Peripherals(Vec<Advertisement>),
    /// The identifiers of the characteristics listed, in the transport's
    /// order.
    Characteristics(Vec<u128>),
}

/// Where acquisition stands, named by the action that is under way.
#[derive(Clone, Debug, PartialEq, Eq)]
pub enum Phase {
    OpeningManager,
    ListingAdapters,
    StartingScan,
    /// A listing is under way; `polls` listings have been looked through.
    Polling { polls: u8 },
    /// The pause after the `polls`-th listing, in which `light` was found
    /// or nothing was.
    ScanPause { polls: u8, light: Option<usize> },
    /// The scan is being stopped because the search ended with `reason`.
    AbortingScan { reason: BledomError },
    /// The scan is being stopped because the controller was found.
    StoppingScan { light: usize },
    /// A connection attempt is under way; `failures` attempts have failed.
    Connecting { light: usize, failures: u8 },
    /// The pause after the `failures`-th failed attempt.
    ConnectPause { light: usize, failures: u8 },
    Discovering { light: usize },
    Resolving { light: usize },
    /// Terminal: the controller was handed out.
    Ready,
    /// Terminal: the error was handed out.
    Failed,
}

/// Whether `event` is a report that the action of `phase` can end in.
pub open spec fn expects(phase: Phase, event: Event) -> bool {
    match phase {
        Phase::OpeningManager | Phase::StartingScan | Phase::AbortingScan { .. }
        | Phase::StoppingScan { .. } | Phase::Connecting { .. } | Phase::Discovering { .. } => {
            event is Completed || event is Failed
        },
        Phase::ListingAdapters => event is Adapters || event is Failed,
        Phase::Polling { .. } => event is Peripherals || event is Failed,
        Phase::ScanPause { .. } | Phase::ConnectPause { .. } => event is Completed,
        Phase::Resolving { .. } => event is Characteristics,
        Phase::Ready | Phase::Failed => false,
    }
}

/// The head of the scan loop: give up once `polls` listings have been
/// looked through, else ask for the next.
pub open spec fn enter_poll(policy: RetryPolicy, polls: u8) -> (Phase, Action) {
    if polls >= policy.scan_retries {
        (Phase::AbortingScan { reason: BledomError::DeviceNotFound }, Action::StopScan)
    } else {
        (Phase::Polling { polls }, Action::ListPeripherals)
    }
}

/// The transition function: the phase and the action that follow `event`
/// in `phase`, for every report that the phase expects.
pub open spec fn next(policy: RetryPolicy, phase: Phase, event: Event) -> (Phase, Action) {
    match (phase, event) {
        (Phase::OpeningManager, Event::Completed) => (Phase::ListingAdapters, Action::ListAdapters),
        (Phase::OpeningManager, Event::Failed(text)) => (
            Phase::Failed,
            Action::Fail(BledomError::BluetoothManagerError(text)),
        ),
        (Phase::ListingAdapters, Event::Adapters(count)) => if count == 0 {
            (Phase::Failed, Action::Fail(BledomError::NoAdaptersFound))
        } else {
            (Phase::StartingScan, Action::StartScan)
        },
        (Phase::ListingAdapters, Event::Failed(text)) => (
            Phase::Failed,
            Action::Fail(BledomError::BluetoothManagerError(text)),
        ),
        (Phase::StartingScan, Event::Completed) => enter_poll(policy, 0),
        (Phase::StartingScan, Event::Failed(text)) => (
            Phase::Failed,
            Action::Fail(BledomError::ScanError(ScanStage::Start, text)),
        ),
        (Phase::Polling { polls }, Event::Peripherals(listing)) => match scan_outcome(listing@) {
            Ok(at) => (
                Phase::ScanPause { polls: (polls + 1) as u8, light: Some(at) },
                Action::Sleep(policy.scan_interval_ms),
            ),
            Err(BledomError::DeviceNotFound) => (
                Phase::ScanPause { polls: (polls + 1) as u8, light: None },
                Action::Sleep(policy.scan_interval_ms),
            ),
            Err(reason) => (Phase::AbortingScan { reason }, Action::StopScan),
        },
        (Phase::Polling { polls }, Event::Failed(text)) => (
            Phase::AbortingScan { reason: BledomError::BluetoothManagerError(text) },
            Action::StopScan,
        ),
        (Phase::ScanPause { polls, light: Some(at) }, Event::Completed) => (
            Phase::StoppingScan { light: at },
            Action::StopScan,
        ),
        (Phase::ScanPause { polls, light: None }, Event::Completed) => enter_poll(policy, polls),
        (Phase::AbortingScan { reason }, _) => (Phase::Failed, Action::Fail(reason)),
        (Phase::StoppingScan { light }, Event::Completed) => (
            Phase::Connecting { light, failures: 0 },
            Action::Connect(light),
        ),
        (Phase::StoppingScan { light }, Event::Failed(text)) => (
            Phase::Failed,
            Action::Fail(BledomError::ScanError(ScanStage::Stop, text)),
        ),
        (Phase::Connecting { light, failures }, Event::Completed) => (
            Phase::Discovering { light },
            Action::DiscoverServices(light),
        ),
        (Phase::Connecting { light, failures }, Event::Failed(text)) => if failures + 1
            >= policy.connection_retries {
            (Phase::Failed, Action::Fail(BledomError::ConnectionFailed(text)))
        } else {
            (
                Phase::ConnectPause { light, failures: (failures + 1) as u8 },
                Action::Sleep(policy.connection_interval_ms),
            )
        },
        (Phase::ConnectPause { light, failures }, Event::Completed) => (
            Phase::Connecting { light, failures },
            Action::Connect(light),
        ),
        (Phase::Discovering { light }, Event::Completed) => (
            Phase::Resolving { light },
            Action::ListCharacteristics(light),
        ),
        (Phase::Discovering { light }, Event::Failed(text)) => (
            Phase::Failed,
            Action::Fail(BledomError::ServiceDiscoveryError(text)),
        ),
        (Phase::Resolving { light }, Event::Characteristics(ids)) => if first_light(ids@, 0)
            < ids@.len() {
            (
                Phase::Ready,
                Action::Ready(
                    BledomDevice {
                        peripheral: light,
                        characteristic: first_light(ids@, 0) as usize,
                    },
                ),
            )
        } else {
            (Phase::Failed, Action::Fail(BledomError::CharacteristicNotFound))
        },
        // Left open: `expects` rules these pairs out.
        _ => (phase, Action::Fail(BledomError::DeviceNotFound)),
    }
}

/// An acquisition in progress: the policy it runs under and where it
/// stands.
#[derive(Clone, Debug, PartialEq, Eq)]
pub struct Acquisition {
    pub policy: RetryPolicy,
    pub phase: Phase,
}

impl Acquisition {
    /// The counters of the phase are within what the policy allows.
    pub open spec fn wf(&self) -> bool {
        match self.phase {
            Phase::Polling { polls } => polls < self.policy.scan_retries,
            Phase::ScanPause { polls, light } => 1 <= polls <= self.policy.scan_retries,
            Phase::Connecting { light, failures } => failures == 0 || failures
                < self.policy.connection_retries,
            Phase::ConnectPause { light, failures } => 1 <= failures
                < self.policy.connection_retries,
            _ => true,
        }
    }

    /// Whether the acquisition has handed out its result.
    pub open spec fn finished(&self) -> bool {
        self.phase is Ready || self.phase is Failed
    }

    /// Starts an acquisition under `policy`; the first action is to open
    /// the transport's manager.
    pub fn begin(policy: RetryPolicy) -> (r: (Acquisition, Action))
        ensures
            r.0.wf(),
            r.0.policy == policy,
            r.0.phase == Phase::OpeningManager,
            r.1 == Action::OpenManager,
    {
        (Acquisition { policy, phase: Phase::OpeningManager }, Action::OpenManager)
    }

    /// Whether the counters of the phase are within what the policy
    /// allows.
    pub fn is_wf(&self) -> (ok: bool)
        ensures
            ok == self.wf(),
    {
        match self.phase {
            Phase::Polling { polls } => polls < self.policy.scan_retries,
            Phase::ScanPause { polls, light } => 1 <= polls && polls <= self.policy.scan_retries,
            Phase::Connecting { light, failures } => failures == 0 || failures
                < self.policy.connection_retries,
            Phase::ConnectPause { light, failures } => 1 <= failures && failures
                < self.policy.connection_retries,
            _ => true,
        }
    }

    /// Whether the acquisition is over.
    pub fn is_finished(&self) -> (done: bool)
        ensures
            done == self.finished(),
    {
        match self.phase {
            Phase::Ready | Phase::Failed => true,
            _ => false,
        }
    }

    /// Whether `event` is a report that the action under way can end in.
    pub fn accepts(&self, event: &Event) -> (ok: bool)
        ensures
            ok == expects(self.phase, *event),
    {
        match self.phase {
            Phase::OpeningManager | Phase::StartingScan | Phase::AbortingScan { .. }
            | Phase::StoppingScan { .. } | Phase::Connecting { .. } | Phase::Discovering { .. } => {
                match event {
                    Event::Completed | Event::Failed(_) => true,
                    _ => false,
                }
            },
            Phase::ListingAdapters => match event {
                Event::Adapters(_) | Event::Failed(_) => true,
                _ => false,
            },
            Phase::Polling { .. } => match event {
                Event::Peripherals(_) | Event::Failed(_) => true,
                _ => false,
            },
            Phase::ScanPause { .. } | Phase::ConnectPause { .. } => match event {
                Event::Completed => true,
                _ => false,
            },
            Phase::Resolving { .. } => match event {
                Event::Characteristics(_) => true,
                _ => false,
            },
            Phase::Ready | Phase::Failed => false,
        }
    }

    fn poll_or_give_up(policy: RetryPolicy, polls: u8) -> (r: (Acquisition, Action))
        ensures
            r.0.wf(),
            r.0.policy == policy,
            (r.0.phase, r.1) == enter_poll(policy, polls),
    {
        if polls >= policy.scan_retries {
            (
                Acquisition {
                    policy,
                    phase: Phase::AbortingScan { reason: BledomError::DeviceNotFound },
                },
                Action::StopScan,
            )
        } else {
            (Acquisition { policy, phase: Phase::Polling { polls } }, Action::ListPeripherals)
        }
    }

    fn fail(policy: RetryPolicy, reason: BledomError) -> (r: (Acquisition, Action))
        ensures
            r.0.wf(),
            r.0.policy == policy,
            r.0.phase == Phase::Failed,
            r.1 == Action::Fail(reason),
    {
        (Acquisition { policy, phase: Phase::Failed }, Action::Fail(reason))
    }

    /// Takes the report of the action under way and decides what comes
    /// next.
    pub fn step(self, event: Event) -> (r: (Acquisition, Action))
        requires
            self.wf(),
            expects(self.phase, event),
        ensures
            r.0.wf(),
            r.0.policy == self.policy,
            (r.0.phase, r.1) == next(self.policy, self.phase, event),
    {
        let policy = self.policy;
        match (self.phase, event) {
            (Phase::OpeningManager, Event::Completed) => (
                Acquisition { policy, phase: Phase::ListingAdapters },
                Action::ListAdapters,
            ),
            (Phase::OpeningManager, Event::Failed(text)) => Self::fail(
                policy,
                BledomError::BluetoothManagerError(text),
            ),
            (Phase::ListingAdapters, Event::Adapters(count)) => {
                if count == 0 {
                    Self::fail(policy, BledomError::NoAdaptersFound)
                } else {
                    (Acquisition { policy, phase: Phase::StartingScan }, Action::StartScan)
                }
            },
            (Phase::ListingAdapters, Event::Failed(text)) => Self::fail(
                policy,
                BledomError::BluetoothManagerError(text),
            ),
            (Phase::StartingScan, Event::Completed) => Self::poll_or_give_up(policy, 0),
            (Phase::StartingScan, Event::Failed(text)) => Self::fail(
                policy,
                BledomError::ScanError(ScanStage::Start, text),
            ),
            (Phase::Polling { polls }, Event::Peripherals(listing)) => {
                match find_light(&listing) {
                    Ok(at) => (
                        Acquisition {
                            policy,
                            phase: Phase::ScanPause { polls: polls + 1, light: Some(at) },
                        },
                        Action::Sleep(policy.scan_interval_ms),
                    ),
                    Err(BledomError::DeviceNotFound) => (
                        Acquisition {
                            policy,
                            phase: Phase::ScanPause { polls: polls + 1, light: None },
                        },
                        Action::Sleep(policy.scan_interval_ms),
                    ),
                    Err(reason) => (
                        Acquisition { policy, phase: Phase::AbortingScan { reason } },
                        Action::StopScan,
                    ),
                }
            },
            (Phase::Polling { polls }, Event::Failed(text)) => (
                Acquisition {
                    policy,
                    phase: Phase::AbortingScan { reason: BledomError::BluetoothManagerError(text) },
                },
                Action::StopScan,
            ),
            (Phase::ScanPause { polls, light: Some(at) }, Event::Completed) => (
                Acquisition { policy, phase: Phase::StoppingScan { light: at } },
                Action::StopScan,
            ),
            (Phase::ScanPause { polls, light: None }, Event::Completed) => Self::poll_or_give_up(
                policy,
                polls,
            ),
            (Phase::AbortingScan { reason }, _) => Self::fail(policy, reason),
            (Phase::StoppingScan { light }, Event::Completed) => (
                Acquisition { policy, phase: Phase::Connecting { light, failures: 0 } },
                Action::Connect(light),
            ),
            (Phase::StoppingScan { light }, Event::Failed(text)) => Self::fail(
                policy,
                BledomError::ScanError(ScanStage::Stop, text),
            ),
            (Phase::Connecting { light, failures }, Event::Completed) => (
                Acquisition { policy, phase: Phase::Discovering { light } },
                Action::DiscoverServices(light),
            ),
            (Phase::Connecting { light, failures }, Event::Failed(text)) => {
                let failed: u8 = failures + 1;
                if failed >= policy.connection_retries {
                    Self::fail(policy, BledomError::ConnectionFailed(text))
                } else {
                    (
                        Acquisition {
                            policy,
                            phase: Phase::ConnectPause { light, failures: failed },
                        },
                        Action::Sleep(policy.connection_interval_ms),
                    )
                }
            },
            (Phase::ConnectPause { light, failures }, Event::Completed) => (
                Acquisition { policy, phase: Phase::Connecting { light, failures } },
                Action::Connect(light),
            ),
            (Phase::Discovering { light }, Event::Completed) => (
                Acquisition { policy, phase: Phase::Resolving { light } },
                Action::ListCharacteristics(light),
            ),
            (Phase::Discovering { light }, Event::Failed(text)) => Self::fail(
                policy,
                BledomError::ServiceDiscoveryError(text),
            ),
            (Phase::Resolving { light }, Event::Characteristics(ids)) => {
                match find_characteristic(&ids) {
                    Some(at) => (
                        Acquisition { policy, phase: Phase::Ready },
                        Action::Ready(BledomDevice { peripheral: light, characteristic: at }),
                    ),
                    None => Self::fail(policy, BledomError::CharacteristicNotFound),
                }
            },
            _ => unreached(),
        }
    }
}

} // verus!
