use elk_bledom_controller::acquisition::ends_search;
use elk_bledom_controller::acquisition::find_characteristic;
use elk_bledom_controller::acquisition::find_light;
use elk_bledom_controller::acquisition::Acquisition;
use elk_bledom_controller::acquisition::Action;
use elk_bledom_controller::acquisition::Advertisement;
use elk_bledom_controller::acquisition::Event;
use elk_bledom_controller::acquisition::Phase;
use elk_bledom_controller::acquisition::RetryPolicy;
use elk_bledom_controller::bleuuid::LIGHT_CHARACTERISTIC_UUID;
use elk_bledom_controller::device::BledomDevice;
use elk_bledom_controller::device::BledomDeviceBuilder;
use elk_bledom_controller::error::BledomError;
use elk_bledom_controller::error::ScanStage;

/// A scripted radio: the controller shows up on the poll `appears_on`
/// (counted from 1; 0 for never) and accepts the connection attempt
/// `connects_on` (counted from 1; 0 for never).
struct Radio {
    appears_on: u32,
    connects_on: u32,
    characteristics: Vec<u128>,
    polls: u32,
    attempts: u32,
}

impl Radio {
    fn new(appears_on: u32, connects_on: u32) -> Radio {
        Radio {
            appears_on,
            connects_on,
            characteristics: vec![0x2a00, LIGHT_CHARACTERISTIC_UUID],
            polls: 0,
            attempts: 0,
        }
    }

    fn perform(&mut self, action: &Action) -> Event {
        match action {
            Action::ListAdapters => Event::Adapters(1),
            Action::ListPeripherals => {
                self.polls += 1;
                let mut seen = vec![
                    Advertisement::Named(None),
                    Advertisement::Named(Some("Headphones".to_string())),
                ];
                if self.appears_on != 0 && self.polls >= self.appears_on {
                    seen.push(Advertisement::Named(Some("ELK-BLEDOM   ".to_string())));
                }
                Event::Peripherals(seen)
            }
            Action::Connect(_) => {
                self.attempts += 1;
                if self.connects_on != 0 && self.attempts >= self.connects_on {
                    Event::Completed
                } else {
                    Event::Failed(format!("refused {}", self.attempts))
                }
            }
            Action::ListCharacteristics(_) => Event::Characteristics(self.characteristics.clone()),
            _ => Event::Completed,
        }
    }
}

/// Runs an acquisition against the radio and returns every action handed
/// out, the last of which is `Ready` or `Fail`.
fn drive(builder: BledomDeviceBuilder, radio: &mut Radio) -> Vec<Action> {
    let (mut machine, mut action) = builder.build();
    let mut actions = vec![action.clone()];
    while !machine.is_finished() {
        let event = radio.perform(&action);
        assert!(machine.accepts(&event));
        let (next_machine, next_action) = machine.step(event);
        machine = next_machine;
        action = next_action;
        actions.push(action.clone());
        assert!(actions.len() < 10_000);
    }
    actions
}

fn count(actions: &[Action], wanted: &Action) -> usize {
    actions.iter().filter(|a| *a == wanted).count()
}

fn named(name: &str) -> Advertisement {
    Advertisement::Named(Some(name.to_string()))
}

#[test]
fn builder_defaults() {
    let (machine, first) = BledomDeviceBuilder::new().build();
    assert_eq!(
        machine.policy,
        RetryPolicy {
            scan_retries: 10,
            scan_interval_ms: 1000,
            connection_retries: 10,
            connection_interval_ms: 100
        }
    );
    assert_eq!(machine.phase, Phase::OpeningManager);
    assert_eq!(first, Action::OpenManager);
    let (same, _) = BledomDevice::builder().build();
    assert_eq!(same.policy, machine.policy);
    let (again, _) = BledomDeviceBuilder::default().build();
    assert_eq!(again.policy, machine.policy);
}

#[test]
fn builder_settings() {
    let (machine, _) = BledomDeviceBuilder::new()
        .scan_retries(3)
        .scan_interval_ms(250)
        .connection_retries(4)
        .connection_interval_ms(50)
        .build();
    assert_eq!(
        machine.policy,
        RetryPolicy {
            scan_retries: 3,
            scan_interval_ms: 250,
            connection_retries: 4,
            connection_interval_ms: 50
        }
    );
    let (partial, _) = BledomDeviceBuilder::new().connection_retries(2).build();
    assert_eq!(
        partial.policy,
        RetryPolicy {
            scan_retries: 10,
            scan_interval_ms: 1000,
            connection_retries: 2,
            connection_interval_ms: 100
        }
    );
}

#[test]
fn scan_gives_up_after_scan_retries_polls() {
    let mut radio = Radio::new(0, 1);
    let actions = drive(BledomDeviceBuilder::new().scan_retries(3).scan_interval_ms(250), &mut radio);
    assert_eq!(
        actions,
        vec![
            Action::OpenManager,
            Action::ListAdapters,
            Action::StartScan,
            Action::ListPeripherals,
            Action::Sleep(250),
            Action::ListPeripherals,
            Action::Sleep(250),
            Action::ListPeripherals,
            Action::Sleep(250),
            Action::StopScan,
            Action::Fail(BledomError::DeviceNotFound),
        ]
    );
    assert_eq!(radio.polls, 3);
    assert_eq!(radio.attempts, 0);
}

#[test]
fn scan_with_default_retries_polls_ten_times() {
    let mut radio = Radio::new(0, 1);
    let actions = drive(BledomDeviceBuilder::new(), &mut radio);
    assert_eq!(count(&actions, &Action::ListPeripherals), 10);
    assert_eq!(count(&actions, &Action::Sleep(1000)), 10);
    assert_eq!(actions.last(), Some(&Action::Fail(BledomError::DeviceNotFound)));
}

#[test]
fn scan_with_no_retries_never_polls() {
    let mut radio = Radio::new(1, 1);
    let actions = drive(BledomDeviceBuilder::new().scan_retries(0), &mut radio);
    assert_eq!(
        actions,
        vec![
            Action::OpenManager,
            Action::ListAdapters,
            Action::StartScan,
            Action::StopScan,
            Action::Fail(BledomError::DeviceNotFound),
        ]
    );
}

#[test]
fn connect_gives_up_after_connection_retries_attempts() {
    let mut radio = Radio::new(1, 0);
    let actions = drive(
        BledomDeviceBuilder::new().connection_retries(4).connection_interval_ms(50),
        &mut radio,
    );
    assert_eq!(
        actions,
        vec![
            Action::OpenManager,
            Action::ListAdapters,
            Action::StartScan,
            Action::ListPeripherals,
            Action::Sleep(1000),
            Action::StopScan,
            Action::Connect(2),
            Action::Sleep(50),
            Action::Connect(2),
            Action::Sleep(50),
            Action::Connect(2),
            Action::Sleep(50),
            Action::Connect(2),
            Action::Fail(BledomError::ConnectionFailed("refused 4".to_string())),
        ]
    );
    assert_eq!(radio.attempts, 4);
}

#[test]
fn connect_with_no_retries_still_tries_once() {
    let mut radio = Radio::new(1, 0);
    let actions = drive(BledomDeviceBuilder::new().connection_retries(0), &mut radio);
    assert_eq!(count(&actions, &Action::Connect(2)), 1);
    assert_eq!(count(&actions, &Action::Sleep(100)), 0);
    assert_eq!(
        actions.last(),
        Some(&Action::Fail(BledomError::ConnectionFailed("refused 1".to_string())))
    );
}

#[test]
fn controller_on_third_poll_connects_at_once() {
    let mut radio = Radio::new(3, 1);
    let actions = drive(BledomDeviceBuilder::new(), &mut radio);
    assert_eq!(
        actions,
        vec![
            Action::OpenManager,
            Action::ListAdapters,
            Action::StartScan,
            Action::ListPeripherals,
            Action::Sleep(1000),
            Action::ListPeripherals,
            Action::Sleep(1000),
            Action::ListPeripherals,
            Action::Sleep(1000),
            Action::StopScan,
            Action::Connect(2),
            Action::DiscoverServices(2),
            Action::ListCharacteristics(2),
            Action::Ready(BledomDevice { peripheral: 2, characteristic: 1 }),
        ]
    );
    assert_eq!(radio.polls, 3);
    assert_eq!(radio.attempts, 1);
}

#[test]
fn connection_on_a_later_attempt() {
    let mut radio = Radio::new(1, 3);
    let actions = drive(BledomDeviceBuilder::new(), &mut radio);
    assert_eq!(count(&actions, &Action::Connect(2)), 3);
    assert_eq!(count(&actions, &Action::Sleep(100)), 2);
    assert_eq!(
        actions.last(),
        Some(&Action::Ready(BledomDevice { peripheral: 2, characteristic: 1 }))
    );
}

#[test]
fn missing_characteristic_is_terminal() {
    let mut radio = Radio::new(1, 1);
    radio.characteristics = vec![0x2a00, 0x2a01];
    let actions = drive(BledomDeviceBuilder::new(), &mut radio);
    assert_eq!(actions.last(), Some(&Action::Fail(BledomError::CharacteristicNotFound)));
    assert_eq!(count(&actions, &Action::DiscoverServices(2)), 1);
}

fn at(phase: Phase) -> Acquisition {
    Acquisition { policy: BledomDeviceBuilder::new().build().0.policy, phase }
}

#[test]
fn failures_outside_the_loops_end_the_acquisition() {
    let text = "radio off".to_string();
    let (m, a) = at(Phase::OpeningManager).step(Event::Failed(text.clone()));
    assert_eq!(m.phase, Phase::Failed);
    assert!(m.is_finished());
    assert_eq!(a, Action::Fail(BledomError::BluetoothManagerError(text.clone())));
    let (_, a) = at(Phase::ListingAdapters).step(Event::Failed(text.clone()));
    assert_eq!(a, Action::Fail(BledomError::BluetoothManagerError(text.clone())));
    let (_, a) = at(Phase::ListingAdapters).step(Event::Adapters(0));
    assert_eq!(a, Action::Fail(BledomError::NoAdaptersFound));
    let (_, a) = at(Phase::StartingScan).step(Event::Failed(text.clone()));
    assert_eq!(a, Action::Fail(BledomError::ScanError(ScanStage::Start, text.clone())));
    let (_, a) = at(Phase::StoppingScan { light: 0 }).step(Event::Failed(text.clone()));
    assert_eq!(a, Action::Fail(BledomError::ScanError(ScanStage::Stop, text.clone())));
    let (_, a) = at(Phase::Discovering { light: 0 }).step(Event::Failed(text.clone()));
    assert_eq!(a, Action::Fail(BledomError::ServiceDiscoveryError(text)));
}

#[test]
fn a_failed_poll_stops_the_scan_and_reports_the_failure() {
    let text = "adapter gone".to_string();
    let (m, a) = at(Phase::Polling { polls: 4 }).step(Event::Failed(text.clone()));
    assert_eq!(a, Action::StopScan);
    let reason = BledomError::BluetoothManagerError(text);
    assert_eq!(m.phase, Phase::AbortingScan { reason: reason.clone() });
    let (m, a) = m.step(Event::Failed("cannot stop".to_string()));
    assert_eq!(a, Action::Fail(reason));
    assert_eq!(m.phase, Phase::Failed);

    let listing = vec![named("Lamp"), Advertisement::Unavailable, named("ELK-BLEDOM")];
    let (m, a) = at(Phase::Polling { polls: 0 }).step(Event::Peripherals(listing));
    assert_eq!(a, Action::StopScan);
    let (_, a) = m.step(Event::Completed);
    assert_eq!(a, Action::Fail(BledomError::PropertiesUnavailable));
}

#[test]
fn accepts_only_fitting_reports() {
    assert!(at(Phase::OpeningManager).accepts(&Event::Completed));
    assert!(!at(Phase::OpeningManager).accepts(&Event::Adapters(1)));
    assert!(at(Phase::ListingAdapters).accepts(&Event::Adapters(1)));
    assert!(!at(Phase::ListingAdapters).accepts(&Event::Completed));
    assert!(at(Phase::Polling { polls: 0 }).accepts(&Event::Peripherals(vec![])));
    assert!(!at(Phase::Polling { polls: 0 }).accepts(&Event::Completed));
    assert!(!at(Phase::ScanPause { polls: 1, light: None }).accepts(&Event::Failed(String::new())));
    assert!(at(Phase::Resolving { light: 0 }).accepts(&Event::Characteristics(vec![])));
    assert!(!at(Phase::Ready).accepts(&Event::Completed));
    assert!(!at(Phase::Failed).accepts(&Event::Completed));
}

#[test]
fn find_light_matches_by_substring() {
    assert_eq!(find_light(&vec![named("ELK-BLEDOM")]), Ok(0));
    assert_eq!(find_light(&vec![named("xxELK-BLEDOM01")]), Ok(0));
    assert_eq!(find_light(&vec![named("ELK-BLEDO")]), Err(BledomError::DeviceNotFound));
    assert_eq!(find_light(&vec![named("elk-bledom")]), Err(BledomError::DeviceNotFound));
    assert_eq!(find_light(&vec![named("")]), Err(BledomError::DeviceNotFound));
    assert_eq!(find_light(&vec![Advertisement::Named(None)]), Err(BledomError::DeviceNotFound));
    assert_eq!(find_light(&vec![]), Err(BledomError::DeviceNotFound));
}

#[test]
fn find_light_takes_the_first_decisive_peripheral() {
    let failed = Advertisement::Failed("timeout".to_string());
    assert_eq!(find_light(&vec![named("a"), named("ELK-BLEDOM"), named("ELK-BLEDOM")]), Ok(1));
    assert_eq!(find_light(&vec![named("ELK-BLEDOM"), failed.clone()]), Ok(0));
    assert_eq!(
        find_light(&vec![named("a"), failed.clone(), named("ELK-BLEDOM")]),
        Err(BledomError::BluetoothManagerError("timeout".to_string()))
    );
    assert_eq!(
        find_light(&vec![Advertisement::Unavailable, failed, named("ELK-BLEDOM")]),
        Err(BledomError::PropertiesUnavailable)
    );
}

#[test]
fn find_characteristic_takes_the_first_match() {
    assert_eq!(find_characteristic(&vec![]), None);
    assert_eq!(find_characteristic(&vec![1, 2, 3]), None);
    assert_eq!(find_characteristic(&vec![LIGHT_CHARACTERISTIC_UUID]), Some(0));
    assert_eq!(
        find_characteristic(&vec![7, LIGHT_CHARACTERISTIC_UUID, LIGHT_CHARACTERISTIC_UUID]),
        Some(1)
    );
}

#[test]
fn counters_stay_within_the_policy() {
    assert!(at(Phase::OpeningManager).is_wf());
    assert!(at(Phase::Polling { polls: 9 }).is_wf());
    assert!(!at(Phase::Polling { polls: 10 }).is_wf());
    assert!(at(Phase::ScanPause { polls: 10, light: None }).is_wf());
    assert!(!at(Phase::ScanPause { polls: 0, light: None }).is_wf());
    assert!(!at(Phase::ScanPause { polls: 11, light: Some(0) }).is_wf());
    assert!(at(Phase::Connecting { light: 0, failures: 0 }).is_wf());
    assert!(at(Phase::Connecting { light: 0, failures: 9 }).is_wf());
    assert!(!at(Phase::Connecting { light: 0, failures: 10 }).is_wf());
    assert!(at(Phase::ConnectPause { light: 0, failures: 9 }).is_wf());
    assert!(!at(Phase::ConnectPause { light: 0, failures: 0 }).is_wf());
    let mut radio = Radio::new(2, 2);
    let (mut machine, mut action) = BledomDeviceBuilder::new().build();
    while !machine.is_finished() {
        assert!(machine.is_wf());
        let event = radio.perform(&action);
        let (next_machine, next_action) = machine.step(event);
        machine = next_machine;
        action = next_action;
    }
    assert!(machine.is_wf());
    assert_eq!(machine.phase, Phase::Ready);
}

#[test]
fn the_search_ends_at_the_first_decisive_peripheral() {
    assert!(ends_search(&named("ELK-BLEDOM")));
    assert!(ends_search(&Advertisement::Unavailable));
    assert!(ends_search(&Advertisement::Failed("timeout".to_string())));
    assert!(!ends_search(&named("Lamp")));
    assert!(!ends_search(&Advertisement::Named(None)));
    let listing = vec![named("a"), Advertisement::Unavailable, named("ELK-BLEDOM")];
    let read = listing[..2].to_vec();
    assert_eq!(find_light(&read), find_light(&listing));
    let listing = vec![named("a"), named("ELK-BLEDOM"), Advertisement::Unavailable];
    let read = listing[..2].to_vec();
    assert_eq!(find_light(&read), Ok(1));
    assert_eq!(find_light(&listing), Ok(1));
}
