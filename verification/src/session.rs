//! The session controller: the Idle/Scanning state machine, the resolution
//! pipeline of one category consumer, and the cancellable countdown.
//!
//! The controller holds the decisions; the caller performs the outside work.
//! `start_scan` and `stop_scan` report whether backend setup or teardown
//! should proceed, `handle_resolved_service` turns one resolved advertisement
//! into a registry merge and an optional notification payload, and
//! `countdown_tick` advances the timer and says whether to emit a tick,
//! auto-stop, or exit silently after a cancellation.

use vstd::prelude::*;
use crate::addr::CandidateAddress;
use crate::addr::first_qualifying;
use crate::addr::select_address;
use crate::classify::resolve_device_type;
use crate::classify::spec_resolve_device_type;
use crate::dedup::DedupSet;
use crate::models::Device;
use crate::models::DeviceView;
use crate::registry::DeviceRegistry;
use crate::registry::merged_entry;
use crate::registry::merged_registry;
use crate::text::ipv4_string;
use crate::text::short_name;
use crate::text::short_name_of;

verus! {

/// The fixed duration of one scan session, in timer units.
pub const SCAN_DURATION_SECS: u64 = 30;

/// What one countdown step asks the caller to do.
#[derive(Clone, Copy, Debug, PartialEq, Eq, Structural)]
pub enum TickOutcome {
    /// Emit a tick carrying this remaining count, then wait one unit.
    Tick(u64),
    /// The countdown reached zero: invoke the stop transition.
    Elapsed,
    /// The countdown was cancelled: exit without ticking or stopping.
    Cancelled,
}

/// Mathematical model of the session state.
#[verifier::ext_equal]
pub ghost struct SessionView {
    pub scanning: bool,
    pub devices: Seq<DeviceView>,
    pub dedup: Set<(Seq<char>, Seq<char>)>,
    pub countdown: Option<u64>,
}

/// One discovery session: the scanning flag, the device registry, the
/// deduplication set, and the countdown state.
pub struct Session {
    scanning: bool,
    registry: DeviceRegistry,
    dedup: DedupSet,
    countdown_remaining: Option<u64>,
}

impl View for Session {
    type V = SessionView;

    closed spec fn view(&self) -> SessionView {
        SessionView {
            scanning: self.scanning,
            devices: self.registry@,
            dedup: self.dedup@,
            countdown: self.countdown_remaining,
        }
    }
}

/// The session state and the emitted record after one resolved advertisement
/// is processed: no change when no candidate address qualifies or when the
/// (address, category) pair was already admitted; otherwise the pair is
/// admitted and the resolution merges into the registry.
pub open spec fn resolution_outcome(
    s: SessionView,
    service_type: Seq<char>,
    fullname: Seq<char>,
    addresses: Seq<CandidateAddress>,
    port: u16,
    elapsed_ms: u128,
) -> (SessionView, Option<DeviceView>) {
    match first_qualifying(addresses) {
        None => (s, None),
        Some(octets) => {
            let ip = ipv4_string(octets.a, octets.b, octets.c, octets.d);
            if s.dedup.contains((ip, service_type)) {
                (s, None)
            } else {
                let device_type = spec_resolve_device_type(service_type, fullname);
                let name = short_name_of(fullname);
                let merged = merged_entry(
                    s.devices,
                    ip,
                    name,
                    service_type,
                    port,
                    device_type,
                    elapsed_ms,
                );
                (
                    SessionView {
                        devices: merged_registry(
                            s.devices,
                            ip,
                            name,
                            service_type,
                            port,
                            device_type,
                            elapsed_ms,
                        ),
                        dedup: s.dedup.insert((ip, service_type)),
                        ..s
                    },
                    Some(merged),
                )
            }
        },
    }
}

impl Session {
    /// The session's internal invariant.
    pub closed spec fn wf(&self) -> bool {
        self.registry.wf()
    }

    /// Creates an idle session with no devices, no admitted pairs and no
    /// countdown.
    pub fn new() -> (r: Session)
        ensures
            r.wf(),
            r@ == (SessionView {
                scanning: false,
                devices: Seq::<DeviceView>::empty(),
                dedup: Set::<(Seq<char>, Seq<char>)>::empty(),
                countdown: None::<u64>,
            }),
    {
        Session {
            scanning: false,
            registry: DeviceRegistry::new(),
            dedup: DedupSet::new(),
            countdown_remaining: None,
        }
    }

    /// Begins a session. While already scanning this is a no-op that leaves
    /// every part of the state untouched. Otherwise the registry and the
    /// deduplication set are discarded, the countdown is armed, and the
    /// caller is told to set up the discovery backend.
    pub fn start_scan(&mut self) -> (proceed: bool)
        requires
            old(self).wf(),
        ensures
            final(self).wf(),
            proceed == !old(self)@.scanning,
            old(self)@.scanning ==> final(self)@ == old(self)@,
            !old(self)@.scanning ==> final(self)@ == (SessionView {
                scanning: true,
                devices: Seq::<DeviceView>::empty(),
                dedup: Set::<(Seq<char>, Seq<char>)>::empty(),
                countdown: Some(SCAN_DURATION_SECS),
            }),
    {
        if self.scanning {
            return false;
        }
        self.scanning = true;
        self.registry.clear();
        self.dedup.clear();
        self.countdown_remaining = Some(SCAN_DURATION_SECS);
        true
    }

    /// Reverts a beginning session to idle after the discovery backend
    /// failed to initialize. Registry and deduplication set stay as the
    /// failed start left them: empty.
    pub fn abort_start(&mut self)
        requires
            old(self).wf(),
        ensures
            final(self).wf(),
            final(self)@ == (SessionView {
                scanning: false,
                countdown: None::<u64>,
                ..old(self)@
            }),
    {
        self.scanning = false;
        self.countdown_remaining = None;
    }

    /// Ends a session. While already idle this is a no-op that leaves every
    /// part of the state untouched. Otherwise the countdown is cancelled,
    /// the flag flips to idle, and the caller is told to shut the discovery
    /// backend down; discovered devices are kept until the next start.
    pub fn stop_scan(&mut self) -> (proceed: bool)
        requires
            old(self).wf(),
        ensures
            final(self).wf(),
            proceed == old(self)@.scanning,
            !old(self)@.scanning ==> final(self)@ == old(self)@,
            old(self)@.scanning ==> final(self)@ == (SessionView {
                scanning: false,
                countdown: None::<u64>,
                ..old(self)@
            }),
    {
        if !self.scanning {
            return false;
        }
        self.scanning = false;
        self.countdown_remaining = None;
        true
    }

    /// Whether a scan is in progress.
    pub fn is_scanning(&self) -> (r: bool)
        ensures
            r == self@.scanning,
    {
        self.scanning
    }

    /// Returns an independent snapshot of every discovered device: at most
    /// one record per address, at most one service entry per category within
    /// a record.
    pub fn get_discovered_devices(&self) -> (r: Vec<Device>)
        requires
            self.wf(),
        ensures
            crate::registry::views_of_devices(r@) == self@.devices,
            crate::registry::unique_ips(crate::registry::views_of_devices(r@)),
            forall|i: int|
                0 <= i < crate::registry::views_of_devices(r@).len()
                    ==> crate::models::unique_service_types(
                    #[trigger] crate::registry::views_of_devices(r@)[i].services,
                ),
    {
        self.registry.snapshot_all()
    }

    /// Advances the countdown one step: a running countdown emits its
    /// remaining count and decrements; a countdown at zero asks for the stop
    /// transition; a cancelled one asks for a silent exit. Only a running
    /// countdown changes state.
    pub fn countdown_tick(&mut self) -> (r: TickOutcome)
        requires
            old(self).wf(),
        ensures
            final(self).wf(),
            match old(self)@.countdown {
                None => r == TickOutcome::Cancelled && final(self)@ == old(self)@,
                Some(n) => if n == 0 {
                    r == TickOutcome::Elapsed && final(self)@ == old(self)@
                } else {
                    r == TickOutcome::Tick(n) && final(self)@ == (SessionView {
                        countdown: Some((n - 1) as u64),
                        ..old(self)@
                    })
                },
            },
    {
        match self.countdown_remaining {
            None => TickOutcome::Cancelled,
            Some(n) => {
                if n == 0 {
                    TickOutcome::Elapsed
                } else {
                    self.countdown_remaining = Some(n - 1);
                    TickOutcome::Tick(n)
                }
            },
        }
    }

    /// Processes one resolved advertisement: selects the first usable IPv4
    /// address, admits the (address, category) pair unless already seen,
    /// classifies the device, merges the resolution into the registry, and
    /// returns the merged record to notify with — or None when the event is
    /// dropped.
    pub fn handle_resolved_service(
        &mut self,
        service_type: &str,
        fullname: &str,
        addresses: &Vec<CandidateAddress>,
        port: u16,
        elapsed_ms: u128,
    ) -> (emitted: Option<Device>)
        requires
            old(self).wf(),
        ensures
            final(self).wf(),
            final(self)@ == resolution_outcome(
                old(self)@,
                service_type@,
                fullname@,
                addresses@,
                port,
                elapsed_ms,
            ).0,
            emitted is None <==> resolution_outcome(
                old(self)@,
                service_type@,
                fullname@,
                addresses@,
                port,
                elapsed_ms,
            ).1 is None,
            emitted matches Some(d) ==> resolution_outcome(
                old(self)@,
                service_type@,
                fullname@,
                addresses@,
                port,
                elapsed_ms,
            ).1 == Some(d@),
    {
        let selected = select_address(addresses);
        let octets = match selected {
            Some(o) => o,
            None => {
                return None;
            },
        };
        let ip_string = octets.to_dotted_decimal();
        let newly = self.dedup.insert(ip_string.as_str(), service_type);
        if !newly {
            proof {
                assert(old(self)@.dedup.insert((ip_string@, service_type@)) =~= old(self)@.dedup);
                assert(self@ =~= old(self)@);
            }
            return None;
        }
        let device_type = match resolve_device_type(service_type, fullname) {
            Some(dt) => dt,
            None => {
                return None;
            },
        };
        let name = short_name(fullname);
        let snap = self.registry.merge(
            ip_string.as_str(),
            name.as_str(),
            service_type,
            port,
            device_type,
            elapsed_ms,
        );
        proof {
            assert(self@ =~= resolution_outcome(
                old(self)@,
                service_type@,
                fullname@,
                addresses@,
                port,
                elapsed_ms,
            ).0);
        }
        Some(snap)
    }
}

} // verus!
