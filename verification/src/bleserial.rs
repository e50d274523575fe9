//! The BLE session state machine: discovery, connection, characteristic
//! resolution, caching, and transmission of the one-byte drive commands.
//!
//! The machine owns every decision of the session; the radio work itself is
//! done by the surrounding program. One send is one pass: `begin_send`
//! yields the first transport request, the program carries it out and
//! reports the outcome through `step`, which yields the next request, until
//! the pass ends in `Sent` or `Failed`. A transport error at any point is
//! reported by calling `abort`, which ends the pass and keeps the caches.
//!
//! The resolved `(peripheral, characteristic)` pair is cached: a pass that
//! finds both caches full only re-checks connectivity and then writes.
//! Discovery retries are bounded: each pass polls the visible peripherals
//! at most [`DISCOVERY_RETRIES`] times, with a fixed wait between polls,
//! before failing with a discovery timeout.

use crate::errors::CarbleuratorError;
use vstd::prelude::*;

verus! {

/// How many times one pass polls the visible peripherals for the target
/// name before giving up.
pub const DISCOVERY_RETRIES: u8 = 5;

/// How long the surrounding program is asked to wait on `SettleWait` and
/// `RetryWait`, in milliseconds.
pub const DISCOVERY_POLL_INTERVAL_MS: u64 = 1000;

/// The Bluetooth base UUID, `00000000-0000-1000-8000-00805f9b34fb`, which
/// carries a 16-bit short identifier in bits 96 to 111.
pub const BLUETOOTH_BASE_UUID: u128 = 0x00000000_0000_1000_8000_00805F9B34FB;

/// Expands a 16-bit short identifier into the full 128-bit UUID
/// `0000xxxx-0000-1000-8000-00805f9b34fb`.
pub fn uuid_from_u16(short: u16) -> (u: u128)
    ensures
        u == BLUETOOTH_BASE_UUID + (short as u128) * 0x1_0000_0000_0000_0000_0000_0000,
{
    BLUETOOTH_BASE_UUID + (short as u128) * 0x1_0000_0000_0000_0000_0000_0000
}

/// One visible peripheral as the transport reports it: an opaque handle
/// and the advertised name, if any.
#[derive(Debug)]
pub struct PeripheralInfo {
    pub handle: u64,
    pub name: Option<String>,
}

/// A transport operation the surrounding program is asked to carry out.
#[derive(Debug, Clone, Copy, PartialEq, Eq, Structural)]
pub enum LinkRequest {
    /// Bring up the BLE manager and count the adapters.
    InitAdapter,
    /// Start an unfiltered scan for advertisements.
    StartScan,
    /// Wait one poll interval for advertisements to arrive.
    SettleWait,
    /// List the currently visible peripherals.
    PollPeripherals,
    /// Wait one poll interval before polling again.
    RetryWait,
    /// Ask whether the peripheral with this handle is connected.
    CheckConnection(u64),
    /// Connect to the peripheral with this handle.
    Connect(u64),
    /// Discover the characteristics of the peripheral with this handle.
    DiscoverCharacteristics(u64),
    /// Write the byte to the characteristic, without response.
    Write(u64, u128, u8),
}

/// The successful outcome of a transport request, reported back to the
/// machine. A failed request is reported by calling `abort` instead.
#[derive(Debug)]
pub enum LinkEvent {
    /// How many BLE adapters the manager found.
    Adapters(usize),
    /// The scan was started.
    ScanStarted,
    /// The requested wait has elapsed.
    Waited,
    /// The currently visible peripherals.
    Peripherals(Vec<PeripheralInfo>),
    /// Whether the queried peripheral is connected.
    ConnectionState(bool),
    /// The connect operation succeeded.
    Connected,
    /// The characteristic identifiers the peripheral exposes.
    Characteristics(Vec<u128>),
    /// The write was issued.
    Written,
}

/// What the machine decided after an event: another transport request, a
/// finished send, or a failed pass.
#[derive(Debug)]
pub enum LinkStep {
    Next(LinkRequest),
    Sent,
    Failed(CarbleuratorError),
}

/// Where in a send pass the machine stands.
#[derive(Debug, Clone, Copy, PartialEq, Eq, Structural)]
pub enum LinkPhase {
    /// No pass is under way.
    Idle,
    /// Waiting for the adapter count.
    GettingAdapter,
    /// Waiting for the scan to start.
    Scanning,
    /// Waiting out the settle interval after starting the scan.
    Settling,
    /// Waiting for a poll of the visible peripherals.
    Polling { polls_left: u8 },
    /// Waiting out the interval before the next poll.
    RetryWaiting { polls_left: u8 },
    /// Re-checking connectivity of a fully cached session.
    CheckingCache,
    /// Checking connectivity of a peripheral without a cached
    /// characteristic.
    CheckingFresh,
    /// Waiting for the connect operation.
    Connecting,
    /// Waiting for characteristic discovery.
    Discovering,
    /// Waiting for the write to be issued.
    Writing,
}

/// The serial link to the vehicle: the configured target, the session
/// caches, and the progress of the current send pass.
#[derive(Debug)]
pub struct BleSerial {
    /// The identifier of the characteristic drive commands are written to.
    pub characteristic_uuid: u128,
    /// The advertised name of the target peripheral, matched exactly.
    pub name: String,
    /// The cached handle of the matched peripheral, kept across passes and
    /// overwritten only by a successful match.
    pub peripheral: Option<u64>,
    /// The cached characteristic, only ever the configured identifier, and
    /// only after discovery found it on the cached peripheral.
    pub characteristic: Option<u128>,
    pub phase: LinkPhase,
    /// The byte the current pass is sending.
    pub pending: u8,
}

/// Whether this peripheral advertises exactly the target name.
pub open spec fn name_matches(p: PeripheralInfo, target: Seq<char>) -> bool {
    p.name matches Some(n) && n@ == target
}

/// The handle of the first listed peripheral advertising the target name.
pub open spec fn first_match(ps: Seq<PeripheralInfo>, target: Seq<char>) -> Option<u64>
    decreases ps.len(),
{
    if ps.len() == 0 {
        None
    } else if name_matches(ps[0], target) {
        Some(ps[0].handle)
    } else {
        first_match(ps.drop_first(), target)
    }
}

impl BleSerial {
    /// The machine's invariant: a cached characteristic is the configured
    /// one and presupposes a cached peripheral, poll counters stay within
    /// the retry bound, and every mid-pass phase has the handles it needs.
    pub open spec fn wf(self) -> bool {
        &&& (self.characteristic matches Some(c) ==> self.peripheral is Some && c
            == self.characteristic_uuid)
        &&& match self.phase {
            LinkPhase::Polling { polls_left } => 1 <= polls_left <= DISCOVERY_RETRIES,
            LinkPhase::RetryWaiting { polls_left } => polls_left < DISCOVERY_RETRIES,
            LinkPhase::CheckingCache => self.peripheral is Some && self.characteristic is Some,
            LinkPhase::CheckingFresh => self.peripheral is Some,
            LinkPhase::Connecting => self.peripheral is Some,
            LinkPhase::Discovering => self.peripheral is Some,
            LinkPhase::Writing => self.peripheral is Some && self.characteristic is Some,
            _ => true,
        }
    }

    /// What `begin_send` does: with a cached peripheral the pass starts by
    /// re-checking connectivity; without one it starts from the adapter.
    pub open spec fn begin_send_model(self, message: u8) -> (BleSerial, LinkRequest) {
        let started = BleSerial { pending: message, ..self };
        match self.peripheral {
            Some(p) => if self.characteristic is Some {
                (
                    BleSerial { phase: LinkPhase::CheckingCache, ..started },
                    LinkRequest::CheckConnection(p),
                )
            } else {
                (
                    BleSerial { phase: LinkPhase::CheckingFresh, ..started },
                    LinkRequest::CheckConnection(p),
                )
            },
            None => (
                BleSerial { phase: LinkPhase::GettingAdapter, ..started },
                LinkRequest::InitAdapter,
            ),
        }
    }

    /// What `step` does with each phase/event pair; `None` for a pair the
    /// machine does not accept.
    pub open spec fn step_model(self, event: LinkEvent) -> Option<(BleSerial, LinkStep)> {
        match (self.phase, event) {
            (LinkPhase::GettingAdapter, LinkEvent::Adapters(n)) => Some(
                if n == 0 {
                    (
                        BleSerial { phase: LinkPhase::Idle, ..self },
                        LinkStep::Failed(CarbleuratorError::MissingBleAdapter),
                    )
                } else {
                    (
                        BleSerial { phase: LinkPhase::Scanning, ..self },
                        LinkStep::Next(LinkRequest::StartScan),
                    )
                },
            ),
            (LinkPhase::Scanning, LinkEvent::ScanStarted) => Some(
                (
                    BleSerial { phase: LinkPhase::Settling, ..self },
                    LinkStep::Next(LinkRequest::SettleWait),
                ),
            ),
            (LinkPhase::Settling, LinkEvent::Waited) => Some(
                (
                    BleSerial { phase: LinkPhase::Polling { polls_left: DISCOVERY_RETRIES }, ..self },
                    LinkStep::Next(LinkRequest::PollPeripherals),
                ),
            ),
            (LinkPhase::Polling { polls_left }, LinkEvent::Peripherals(ps)) => Some(
                match first_match(ps@, self.name@) {
                    Some(h) => (
                        BleSerial {
                            peripheral: Some(h),
                            phase: LinkPhase::CheckingFresh,
                            ..self
                        },
                        LinkStep::Next(LinkRequest::CheckConnection(h)),
                    ),
                    None => (
                        BleSerial {
                            phase: LinkPhase::RetryWaiting {
                                polls_left: (polls_left - 1) as u8,
                            },
                            ..self
                        },
                        LinkStep::Next(LinkRequest::RetryWait),
                    ),
                },
            ),
            (LinkPhase::RetryWaiting { polls_left }, LinkEvent::Waited) => Some(
                if polls_left == 0 {
                    (
                        BleSerial { phase: LinkPhase::Idle, ..self },
                        LinkStep::Failed(CarbleuratorError::BleAdapterDiscoveryTimeout),
                    )
                } else {
                    (
                        BleSerial { phase: LinkPhase::Polling { polls_left }, ..self },
                        LinkStep::Next(LinkRequest::PollPeripherals),
                    )
                },
            ),
            (LinkPhase::CheckingCache, LinkEvent::ConnectionState(connected)) => Some(
                if connected {
                    (
                        BleSerial { phase: LinkPhase::Writing, ..self },
                        LinkStep::Next(
                            LinkRequest::Write(
                                self.peripheral->0,
                                self.characteristic->0,
                                self.pending,
                            ),
                        ),
                    )
                } else {
                    (
                        BleSerial { phase: LinkPhase::Connecting, ..self },
                        LinkStep::Next(LinkRequest::Connect(self.peripheral->0)),
                    )
                },
            ),
            (LinkPhase::CheckingFresh, LinkEvent::ConnectionState(connected)) => Some(
                if connected {
                    (
                        BleSerial { phase: LinkPhase::Discovering, ..self },
                        LinkStep::Next(LinkRequest::DiscoverCharacteristics(self.peripheral->0)),
                    )
                } else {
                    (
                        BleSerial { phase: LinkPhase::Connecting, ..self },
                        LinkStep::Next(LinkRequest::Connect(self.peripheral->0)),
                    )
                },
            ),
            (LinkPhase::Connecting, LinkEvent::Connected) => Some(
                match self.characteristic {
                    Some(c) => (
                        BleSerial { phase: LinkPhase::Writing, ..self },
                        LinkStep::Next(
                            LinkRequest::Write(self.peripheral->0, c, self.pending),
                        ),
                    ),
                    None => (
                        BleSerial { phase: LinkPhase::Discovering, ..self },
                        LinkStep::Next(LinkRequest::DiscoverCharacteristics(self.peripheral->0)),
                    ),
                },
            ),
            (LinkPhase::Discovering, LinkEvent::Characteristics(cs)) => Some(
                if cs@.contains(self.characteristic_uuid) {
                    (
                        BleSerial {
                            characteristic: Some(self.characteristic_uuid),
                            phase: LinkPhase::Writing,
                            ..self
                        },
                        LinkStep::Next(
                            LinkRequest::Write(
                                self.peripheral->0,
                                self.characteristic_uuid,
                                self.pending,
                            ),
                        ),
                    )
                } else {
                    (
                        BleSerial { phase: LinkPhase::Idle, ..self },
                        LinkStep::Failed(CarbleuratorError::BleAdapterMissingCharacteristic),
                    )
                },
            ),
            (LinkPhase::Writing, LinkEvent::Written) => Some(
                (BleSerial { phase: LinkPhase::Idle, ..self }, LinkStep::Sent),
            ),
            _ => None,
        }
    }

    /// A fresh link with the configured characteristic identifier and
    /// target name, and empty caches.
    pub fn new(characteristic_uuid: u128, name: String) -> (l: Self)
        ensures
            l.characteristic_uuid == characteristic_uuid,
            l.name == name,
            l.peripheral is None,
            l.characteristic is None,
            l.phase is Idle,
            l.pending == 0,
            l.wf(),
    {
        BleSerial {
            characteristic_uuid,
            name,
            peripheral: None,
            characteristic: None,
            phase: LinkPhase::Idle,
            pending: 0,
        }
    }

    /// Starts a pass that sends `message`, returning the first transport
    /// request of the pass.
    pub fn begin_send(&mut self, message: u8) -> (req: LinkRequest)
        requires
            old(self).wf(),
            old(self).phase is Idle,
        ensures
            (*final(self), req) == old(self).begin_send_model(message),
            final(self).wf(),
    {
        self.pending = message;
        match self.peripheral {
            Some(p) => {
                if self.characteristic.is_some() {
                    self.phase = LinkPhase::CheckingCache;
                } else {
                    self.phase = LinkPhase::CheckingFresh;
                }
                LinkRequest::CheckConnection(p)
            },
            None => {
                self.phase = LinkPhase::GettingAdapter;
                LinkRequest::InitAdapter
            },
        }
    }

    /// Whether the machine accepts this event in its current phase. The
    /// surrounding program reports each request's outcome with exactly the
    /// matching event, so this holds on every honest reply.
    pub fn accepts(&self, event: &LinkEvent) -> (b: bool)
        ensures
            b == (self.step_model(*event) is Some),
    {
        match (self.phase, event) {
            (LinkPhase::GettingAdapter, LinkEvent::Adapters(_)) => true,
            (LinkPhase::Scanning, LinkEvent::ScanStarted) => true,
            (LinkPhase::Settling, LinkEvent::Waited) => true,
            (LinkPhase::Polling { .. }, LinkEvent::Peripherals(_)) => true,
            (LinkPhase::RetryWaiting { .. }, LinkEvent::Waited) => true,
            (LinkPhase::CheckingCache, LinkEvent::ConnectionState(_)) => true,
            (LinkPhase::CheckingFresh, LinkEvent::ConnectionState(_)) => true,
            (LinkPhase::Connecting, LinkEvent::Connected) => true,
            (LinkPhase::Discovering, LinkEvent::Characteristics(_)) => true,
            (LinkPhase::Writing, LinkEvent::Written) => true,
            _ => false,
        }
    }

    /// Feeds the outcome of the last request into the machine and returns
    /// its next decision.
    pub fn step(&mut self, event: LinkEvent) -> (s: LinkStep)
        requires
            old(self).wf(),
            old(self).step_model(event) is Some,
        ensures
            Some((*final(self), s)) == old(self).step_model(event),
            final(self).wf(),
    {
        let phase = self.phase;
        match (phase, event) {
            (LinkPhase::GettingAdapter, LinkEvent::Adapters(n)) => {
                if n == 0 {
                    self.phase = LinkPhase::Idle;
                    LinkStep::Failed(CarbleuratorError::MissingBleAdapter)
                } else {
                    self.phase = LinkPhase::Scanning;
                    LinkStep::Next(LinkRequest::StartScan)
                }
            },
            (LinkPhase::Scanning, LinkEvent::ScanStarted) => {
                self.phase = LinkPhase::Settling;
                LinkStep::Next(LinkRequest::SettleWait)
            },
            (LinkPhase::Settling, LinkEvent::Waited) => {
                self.phase = LinkPhase::Polling { polls_left: DISCOVERY_RETRIES };
                LinkStep::Next(LinkRequest::PollPeripherals)
            },
            (LinkPhase::Polling { polls_left }, LinkEvent::Peripherals(ps)) => {
                match find_target(&ps, &self.name) {
                    Some(h) => {
                        self.peripheral = Some(h);
                        self.phase = LinkPhase::CheckingFresh;
                        LinkStep::Next(LinkRequest::CheckConnection(h))
                    },
                    None => {
                        self.phase = LinkPhase::RetryWaiting { polls_left: polls_left - 1 };
                        LinkStep::Next(LinkRequest::RetryWait)
                    },
                }
            },
            (LinkPhase::RetryWaiting { polls_left }, LinkEvent::Waited) => {
                if polls_left == 0 {
                    self.phase = LinkPhase::Idle;
                    LinkStep::Failed(CarbleuratorError::BleAdapterDiscoveryTimeout)
                } else {
                    self.phase = LinkPhase::Polling { polls_left };
                    LinkStep::Next(LinkRequest::PollPeripherals)
                }
            },
            (LinkPhase::CheckingCache, LinkEvent::ConnectionState(connected)) => {
                let p = self.peripheral.unwrap();
                if connected {
                    let c = self.characteristic.unwrap();
                    self.phase = LinkPhase::Writing;
                    LinkStep::Next(LinkRequest::Write(p, c, self.pending))
                } else {
                    self.phase = LinkPhase::Connecting;
                    LinkStep::Next(LinkRequest::Connect(p))
                }
            },
            (LinkPhase::CheckingFresh, LinkEvent::ConnectionState(connected)) => {
                let p = self.peripheral.unwrap();
                if connected {
                    self.phase = LinkPhase::Discovering;
                    LinkStep::Next(LinkRequest::DiscoverCharacteristics(p))
                } else {
                    self.phase = LinkPhase::Connecting;
                    LinkStep::Next(LinkRequest::Connect(p))
                }
            },
            (LinkPhase::Connecting, LinkEvent::Connected) => {
                let p = self.peripheral.unwrap();
                match self.characteristic {
                    Some(c) => {
                        self.phase = LinkPhase::Writing;
                        LinkStep::Next(LinkRequest::Write(p, c, self.pending))
                    },
                    None => {
                        self.phase = LinkPhase::Discovering;
                        LinkStep::Next(LinkRequest::DiscoverCharacteristics(p))
                    },
                }
            },
            (LinkPhase::Discovering, LinkEvent::Characteristics(cs)) => {
                let p = self.peripheral.unwrap();
                if contains_uuid(&cs, self.characteristic_uuid) {
                    self.characteristic = Some(self.characteristic_uuid);
                    self.phase = LinkPhase::Writing;
                    LinkStep::Next(LinkRequest::Write(p, self.characteristic_uuid, self.pending))
                } else {
                    self.phase = LinkPhase::Idle;
                    LinkStep::Failed(CarbleuratorError::BleAdapterMissingCharacteristic)
                }
            },
            (LinkPhase::Writing, LinkEvent::Written) => {
                self.phase = LinkPhase::Idle;
                LinkStep::Sent
            },
            _ => {
                proof {
                    assert(false);
                }
                LinkStep::Sent
            },
        }
    }

    /// Ends the current pass after a transport failure. The caches are
    /// kept: a later pass revalidates them instead of starting over.
    pub fn abort(&mut self)
        requires
            old(self).wf(),
        ensures
            *final(self) == (BleSerial { phase: LinkPhase::Idle, ..*old(self) }),
            final(self).wf(),
    {
        self.phase = LinkPhase::Idle;
    }
}

/// What is left of a pass that stands at a poll, fed one poll result and
/// one elapsed wait per cycle: the machine's decision after the last
/// cycle, or `None` if a cycle was cut short or refused.
pub open spec fn drain_polls(l: BleSerial, polls: Seq<Vec<PeripheralInfo>>) -> Option<
    (BleSerial, LinkStep),
>
    decreases polls.len(),
{
    if polls.len() == 0 {
        None
    } else {
        match l.step_model(LinkEvent::Peripherals(polls[0])) {
            Some((l1, _)) => match l1.step_model(LinkEvent::Waited) {
                Some((l2, s2)) => if polls.len() == 1 {
                    Some((l2, s2))
                } else {
                    drain_polls(l2, polls.drop_first())
                },
                None => None,
            },
            None => None,
        }
    }
}

/// Bounded discovery: from a poll with `r` polls left, if every poll
/// reports a list without the target name, the pass consumes exactly
/// those `r` polls and then fails with the discovery timeout — and the
/// session caches are left as they were.
pub proof fn lemma_unmatched_polls_time_out(l: BleSerial, polls: Seq<Vec<PeripheralInfo>>, r: u8)
    requires
        l.wf(),
        l.phase == (LinkPhase::Polling { polls_left: r }),
        polls.len() == r as int,
        forall|k: int|
            0 <= k < polls.len() ==> first_match((#[trigger] polls[k])@, l.name@) is None,
    ensures
        drain_polls(l, polls) matches Some((l2, s)) && s == LinkStep::Failed(
            CarbleuratorError::BleAdapterDiscoveryTimeout,
        ) && l2.peripheral == l.peripheral && l2.characteristic == l.characteristic,
    decreases r,
{
    assert(first_match(polls[0]@, l.name@) is None);
    let after_poll = BleSerial {
        phase: LinkPhase::RetryWaiting { polls_left: (r - 1) as u8 },
        ..l
    };
    assert(l.step_model(LinkEvent::Peripherals(polls[0])) == Some(
        (after_poll, LinkStep::Next(LinkRequest::RetryWait)),
    ));
    if r == 1 {
        assert(after_poll.step_model(LinkEvent::Waited) == Some(
            (
                BleSerial { phase: LinkPhase::Idle, ..l },
                LinkStep::Failed(CarbleuratorError::BleAdapterDiscoveryTimeout),
            ),
        ));
    } else {
        let next = BleSerial { phase: LinkPhase::Polling { polls_left: (r - 1) as u8 }, ..l };
        assert(after_poll.step_model(LinkEvent::Waited) == Some(
            (next, LinkStep::Next(LinkRequest::PollPeripherals)),
        ));
        assert(forall|k: int|
            0 <= k < polls.drop_first().len() ==> first_match(
                (#[trigger] polls.drop_first()[k])@,
                next.name@,
            ) is None) by {
            assert(forall|k: int|
                0 <= k < polls.drop_first().len() ==> #[trigger] polls.drop_first()[k] == polls[k
                    + 1]);
        }
        lemma_unmatched_polls_time_out(next, polls.drop_first(), (r - 1) as u8);
    }
}

/// While the polls keep missing the target and retries remain, the pass
/// stays in polling — one fewer poll left per cycle, the caches
/// untouched, and no failure yet.
pub proof fn lemma_unmatched_polls_keep_polling(
    l: BleSerial,
    polls: Seq<Vec<PeripheralInfo>>,
    r: u8,
)
    requires
        l.wf(),
        l.phase == (LinkPhase::Polling { polls_left: r }),
        0 < polls.len() < r,
        forall|k: int|
            0 <= k < polls.len() ==> first_match((#[trigger] polls[k])@, l.name@) is None,
    ensures
        drain_polls(l, polls) == Some(
            (
                BleSerial {
                    phase: LinkPhase::Polling { polls_left: (r - polls.len()) as u8 },
                    ..l
                },
                LinkStep::Next(LinkRequest::PollPeripherals),
            ),
        ),
    decreases polls.len(),
{
    assert(first_match(polls[0]@, l.name@) is None);
    let after_poll = BleSerial {
        phase: LinkPhase::RetryWaiting { polls_left: (r - 1) as u8 },
        ..l
    };
    assert(l.step_model(LinkEvent::Peripherals(polls[0])) == Some(
        (after_poll, LinkStep::Next(LinkRequest::RetryWait)),
    ));
    let next = BleSerial { phase: LinkPhase::Polling { polls_left: (r - 1) as u8 }, ..l };
    assert(after_poll.step_model(LinkEvent::Waited) == Some(
        (next, LinkStep::Next(LinkRequest::PollPeripherals)),
    ));
    if polls.len() > 1 {
        assert(forall|k: int|
            0 <= k < polls.drop_first().len() ==> first_match(
                (#[trigger] polls.drop_first()[k])@,
                next.name@,
            ) is None) by {
            assert(forall|k: int|
                0 <= k < polls.drop_first().len() ==> #[trigger] polls.drop_first()[k] == polls[k
                    + 1]);
        }
        lemma_unmatched_polls_keep_polling(next, polls.drop_first(), (r - 1) as u8);
    }
}

/// A poll that lists the target ends the search at once: the machine
/// caches the first matching handle and moves on to its connectivity
/// check, whatever retries were left.
pub proof fn lemma_matching_poll_finds_target(l: BleSerial, ps: Vec<PeripheralInfo>)
    requires
        l.wf(),
        l.phase matches LinkPhase::Polling { .. },
        first_match(ps@, l.name@) is Some,
    ensures
        l.step_model(LinkEvent::Peripherals(ps)) == Some(
            (
                BleSerial {
                    peripheral: first_match(ps@, l.name@),
                    phase: LinkPhase::CheckingFresh,
                    ..l
                },
                LinkStep::Next(LinkRequest::CheckConnection(first_match(ps@, l.name@)->0)),
            ),
        ),
{
}

/// A fully cached, still-connected session transmits without any
/// discovery work: the pass is exactly a connectivity check, the write,
/// and the finished send — no scan, poll, connect or characteristic
/// discovery.
pub proof fn lemma_cached_send_skips_discovery(l: BleSerial, message: u8)
    requires
        l.wf(),
        l.phase is Idle,
        l.peripheral is Some,
        l.characteristic is Some,
    ensures
        ({
            let p = l.peripheral->0;
            let l1 = BleSerial { phase: LinkPhase::CheckingCache, pending: message, ..l };
            let l2 = BleSerial { phase: LinkPhase::Writing, pending: message, ..l };
            let l3 = BleSerial { phase: LinkPhase::Idle, pending: message, ..l };
            &&& l.begin_send_model(message) == (l1, LinkRequest::CheckConnection(p))
            &&& l1.step_model(LinkEvent::ConnectionState(true)) == Some(
                (l2, LinkStep::Next(LinkRequest::Write(p, l.characteristic_uuid, message))),
            )
            &&& l2.step_model(LinkEvent::Written) == Some((l3, LinkStep::Sent))
        }),
{
}

/// The first listed peripheral advertising exactly the target name.
fn find_target(ps: &Vec<PeripheralInfo>, target: &String) -> (r: Option<u64>)
    ensures
        r == first_match(ps@, target@),
{
    proof {
        assert(ps@.skip(0) =~= ps@);
    }
    let mut i: usize = 0;
    while i < ps.len()
        invariant
            i <= ps.len(),
            first_match(ps@, target@) == first_match(ps@.skip(i as int), target@),
        decreases ps.len() - i,
    {
        let p = &ps[i];
        let matched = match &p.name {
            Some(n) => *n == *target,
            None => false,
        };
        if matched {
            proof {
                assert(ps@.skip(i as int)[0] == ps@[i as int]);
                assert(name_matches(ps@[i as int], target@));
            }
            return Some(p.handle);
        }
        proof {
            assert(ps@.skip(i as int)[0] == ps@[i as int]);
            assert(!name_matches(ps@[i as int], target@));
            assert(ps@.skip(i as int).drop_first() =~= ps@.skip(i as int + 1));
        }
        i = i + 1;
    }
    None
}

/// Whether the discovered characteristic list holds the target identifier.
fn contains_uuid(cs: &Vec<u128>, target: u128) -> (b: bool)
    ensures
        b == cs@.contains(target),
{
    let mut i: usize = 0;
    while i < cs.len()
        invariant
            i <= cs.len(),
            forall|k: int| 0 <= k < i ==> cs@[k] != target,
        decreases cs.len() - i,
    {
        if cs[i] == target {
            return true;
        }
        i = i + 1;
    }
    false
}

} // verus!
