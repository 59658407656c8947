//! Device records and their mathematical models.
//!
//! A `Device` is keyed by its IP address and carries the list of services
//! discovered on it, one entry per service category. `discovery_time_ms` is
//! the minimum elapsed time across every resolution merged into the record.

use vstd::prelude::*;
use crate::text::str_eq;

verus! {

/// Classification of a device, derived from the advertisement's category
/// (and, for the generic web category, from the advertised name).
#[derive(Clone, Copy, Debug, PartialEq, Eq, Structural)]
pub enum DeviceType {
    /// A Bluesound device.
    Bluesound,
    /// A Volumio device.
    Volumio,
    /// A device with Spotify Connect.
    SpotifyConnect,
    /// A device with Qobuz Connect.
    QobuzConnect,
    /// A generic or unrecognized device.
    Generic,
}

/// Mathematical model of one service entry.
#[verifier::ext_equal]
pub ghost struct ServiceView {
    pub service_type: Seq<char>,
    pub port: u16,
    pub device_type: DeviceType,
    pub last_seen_ms: u128,
}

/// Mathematical model of a device record.
#[verifier::ext_equal]
pub ghost struct DeviceView {
    pub name: Seq<char>,
    pub ip: Seq<char>,
    pub discovery_time_ms: u128,
    pub services: Seq<ServiceView>,
}

/// A service discovered on a device.
pub struct DiscoveredService {
    /// The service category (e.g. `_http._tcp.local.`).
    pub service_type: String,
    /// The advertised port for the service.
    pub port: u16,
    /// The classification derived from this service.
    pub device_type: DeviceType,
    /// Elapsed milliseconds since scan start when this service was last observed.
    pub last_seen_ms: u128,
}

impl View for DiscoveredService {
    type V = ServiceView;

    open spec fn view(&self) -> ServiceView {
        ServiceView {
            service_type: self.service_type@,
            port: self.port,
            device_type: self.device_type,
            last_seen_ms: self.last_seen_ms,
        }
    }
}

impl Clone for DiscoveredService {
    fn clone(&self) -> (res: Self)
        ensures
            res@ == self@,
    {
        DiscoveredService {
            service_type: self.service_type.clone(),
            port: self.port,
            device_type: self.device_type,
            last_seen_ms: self.last_seen_ms,
        }
    }
}

/// A device discovered on the local network.
pub struct Device {
    /// The advertised short name of the device.
    pub name: String,
    /// The IPv4 address of the device, in dotted decimal form; the unique key.
    pub ip: String,
    /// Minimum elapsed milliseconds since scan start over all merged resolutions.
    pub discovery_time_ms: u128,
    /// One entry per service category discovered on this device.
    pub services: Vec<DiscoveredService>,
}

/// The models of a sequence of service entries.
pub open spec fn views_of_services(s: Seq<DiscoveredService>) -> Seq<ServiceView> {
    s.map_values(|svc: DiscoveredService| svc@)
}

/// The model of a service list indexes to the models of its entries.
pub broadcast proof fn lemma_views_of_services_index(s: Seq<DiscoveredService>, i: int)
    requires
        0 <= i < s.len(),
    ensures
        views_of_services(s).len() == s.len(),
        #[trigger] views_of_services(s)[i] == s[i]@,
{
}

impl View for Device {
    type V = DeviceView;

    open spec fn view(&self) -> DeviceView {
        DeviceView {
            name: self.name@,
            ip: self.ip@,
            discovery_time_ms: self.discovery_time_ms,
            services: views_of_services(self.services@),
        }
    }
}

/// No two service entries share a category.
pub open spec fn unique_service_types(s: Seq<ServiceView>) -> bool {
    forall|i: int, j: int| 0 <= i < j < s.len() ==> s[i].service_type != s[j].service_type
}

/// Whether some entry carries the given category.
pub open spec fn has_service(s: Seq<ServiceView>, ty: Seq<char>) -> bool {
    exists|i: int| 0 <= i < s.len() && s[i].service_type == ty
}

/// The index of the entry carrying the given category.
pub open spec fn service_index(s: Seq<ServiceView>, ty: Seq<char>) -> int {
    choose|i: int| 0 <= i < s.len() && s[i].service_type == ty
}

/// The entry one resolution contributes.
pub open spec fn service_entry(
    ty: Seq<char>,
    port: u16,
    device_type: DeviceType,
    last_seen_ms: u128,
) -> ServiceView {
    ServiceView { service_type: ty, port, device_type, last_seen_ms }
}

/// The service list after merging one resolution: overwrite the entry for the
/// same category in place, or append a new entry.
pub open spec fn merged_services(
    s: Seq<ServiceView>,
    ty: Seq<char>,
    port: u16,
    device_type: DeviceType,
    last_seen_ms: u128,
) -> Seq<ServiceView> {
    if has_service(s, ty) {
        s.update(service_index(s, ty), service_entry(ty, port, device_type, last_seen_ms))
    } else {
        s.push(service_entry(ty, port, device_type, last_seen_ms))
    }
}

impl Device {
    /// The record's internal invariant: at most one entry per category.
    pub open spec fn wf(&self) -> bool {
        unique_service_types(self@.services)
    }

    /// Adds a new service entry to the device or overwrites the entry that
    /// already carries the same category.
    #[verifier::loop_isolation(false)]
    pub fn add_or_update_service(
        &mut self,
        service_type: &str,
        port: u16,
        device_type: DeviceType,
        elapsed_ms: u128,
    )
        requires
            old(self).wf(),
        ensures
            final(self).wf(),
            final(self)@.name == old(self)@.name,
            final(self)@.ip == old(self)@.ip,
            final(self)@.discovery_time_ms == old(self)@.discovery_time_ms,
            final(self)@.services == merged_services(
                old(self)@.services,
                service_type@,
                port,
                device_type,
                elapsed_ms,
            ),
    {
        broadcast use lemma_views_of_services_index;

        let ghost svcs0 = self@.services;
        let n = self.services.len();
        let mut i: usize = 0;
        while i < n
            invariant
                i <= n,
                n == self.services.len(),
                n == svcs0.len(),
                *self == *old(self),
                forall|j: int| 0 <= j < i ==> svcs0[j].service_type != service_type@,
            decreases n - i,
        {
            proof {
                assert(svcs0[i as int] == self.services@[i as int]@);
            }
            if str_eq(self.services[i].service_type.as_str(), service_type) {
                self.services[i].port = port;
                self.services[i].device_type = device_type;
                self.services[i].last_seen_ms = elapsed_ms;
                proof {
                    let k = service_index(svcs0, service_type@);
                    assert(svcs0[i as int].service_type == service_type@);
                    assert(has_service(svcs0, service_type@));
                    assert(0 <= k < svcs0.len() && svcs0[k].service_type == service_type@);
                    assert(k == i as int);
                    assert(self@.services =~= merged_services(
                        svcs0,
                        service_type@,
                        port,
                        device_type,
                        elapsed_ms,
                    ));
                }
                return;
            }
            i += 1;
        }
        proof {
            assert(!has_service(svcs0, service_type@));
        }
        self.services.push(DiscoveredService {
            service_type: service_type.to_owned(),
            port,
            device_type,
            last_seen_ms: elapsed_ms,
        });
        proof {
            assert(self@.services =~= merged_services(
                svcs0,
                service_type@,
                port,
                device_type,
                elapsed_ms,
            ));
        }
    }

    /// Returns an independent deep copy of the record.
    #[verifier::loop_isolation(false)]
    pub fn snapshot(&self) -> (res: Device)
        ensures
            res@ == self@,
    {
        broadcast use lemma_views_of_services_index;

        let mut services: Vec<DiscoveredService> = Vec::new();
        let n = self.services.len();
        let mut i: usize = 0;
        while i < n
            invariant
                i <= n,
                n == self.services.len(),
                services@.len() == i,
                forall|j: int| 0 <= j < i ==> services@[j]@ == self.services@[j]@,
            decreases n - i,
        {
            services.push(self.services[i].clone());
            i += 1;
        }
        proof {
            assert(views_of_services(services@) =~= views_of_services(self.services@));
        }
        Device {
            name: self.name.clone(),
            ip: self.ip.clone(),
            discovery_time_ms: self.discovery_time_ms,
            services,
        }
    }
}

impl Clone for Device {
    fn clone(&self) -> (res: Self)
        ensures
            res@ == self@,
    {
        self.snapshot()
    }
}

} // verus!
