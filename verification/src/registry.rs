//! The device registry: one record per address, merge-on-write.
//!
//! A resolution merges into the record for its address: the name is
//! overwritten with the latest value, the discovery time takes the running
//! minimum of elapsed times, and the service list gains or overwrites the
//! entry for the resolution's category. A first resolution creates the
//! record.

use vstd::prelude::*;
use crate::models::Device;
use crate::models::DeviceType;
use crate::models::DeviceView;
use crate::models::DiscoveredService;
use crate::models::ServiceView;
use crate::models::lemma_views_of_services_index;
use crate::models::merged_services;
use crate::models::service_entry;
use crate::models::unique_service_types;
use crate::text::str_eq;

verus! {

/// The models of a sequence of device records.
pub open spec fn views_of_devices(s: Seq<Device>) -> Seq<DeviceView> {
    s.map_values(|d: Device| d@)
}

/// The model of a device list indexes to the models of its records.
pub broadcast proof fn lemma_views_of_devices_index(s: Seq<Device>, i: int)
    requires
        0 <= i < s.len(),
    ensures
        views_of_devices(s).len() == s.len(),
        #[trigger] views_of_devices(s)[i] == s[i]@,
{
}

/// Whether some record carries the given address.
pub open spec fn has_device(s: Seq<DeviceView>, ip: Seq<char>) -> bool {
    exists|i: int| 0 <= i < s.len() && s[i].ip == ip
}

/// The index of the record carrying the given address.
pub open spec fn device_index(s: Seq<DeviceView>, ip: Seq<char>) -> int {
    choose|i: int| 0 <= i < s.len() && s[i].ip == ip
}

/// No two records share an address.
pub open spec fn unique_ips(s: Seq<DeviceView>) -> bool {
    forall|i: int, j: int| 0 <= i < j < s.len() ==> s[i].ip != s[j].ip
}

/// An existing record after one resolution merges into it.
pub open spec fn merged_device(
    d: DeviceView,
    name: Seq<char>,
    ty: Seq<char>,
    port: u16,
    device_type: DeviceType,
    elapsed_ms: u128,
) -> DeviceView {
    DeviceView {
        name,
        ip: d.ip,
        discovery_time_ms: if elapsed_ms < d.discovery_time_ms {
            elapsed_ms
        } else {
            d.discovery_time_ms
        },
        services: merged_services(d.services, ty, port, device_type, elapsed_ms),
    }
}

/// The record a first resolution creates.
pub open spec fn new_device(
    ip: Seq<char>,
    name: Seq<char>,
    ty: Seq<char>,
    port: u16,
    device_type: DeviceType,
    elapsed_ms: u128,
) -> DeviceView {
    DeviceView {
        name,
        ip,
        discovery_time_ms: elapsed_ms,
        services: seq![service_entry(ty, port, device_type, elapsed_ms)],
    }
}

/// The record the registry holds for this address after the merge.
pub open spec fn merged_entry(
    s: Seq<DeviceView>,
    ip: Seq<char>,
    name: Seq<char>,
    ty: Seq<char>,
    port: u16,
    device_type: DeviceType,
    elapsed_ms: u128,
) -> DeviceView {
    if has_device(s, ip) {
        merged_device(s[device_index(s, ip)], name, ty, port, device_type, elapsed_ms)
    } else {
        new_device(ip, name, ty, port, device_type, elapsed_ms)
    }
}

/// The registry after one resolution merges into it.
pub open spec fn merged_registry(
    s: Seq<DeviceView>,
    ip: Seq<char>,
    name: Seq<char>,
    ty: Seq<char>,
    port: u16,
    device_type: DeviceType,
    elapsed_ms: u128,
) -> Seq<DeviceView> {
    if has_device(s, ip) {
        s.update(device_index(s, ip), merged_entry(s, ip, name, ty, port, device_type, elapsed_ms))
    } else {
        s.push(merged_entry(s, ip, name, ty, port, device_type, elapsed_ms))
    }
}

/// The registry of discovered devices, keyed by address.
pub struct DeviceRegistry {
    devices: Vec<Device>,
}

impl View for DeviceRegistry {
    type V = Seq<DeviceView>;

    closed spec fn view(&self) -> Seq<DeviceView> {
        views_of_devices(self.devices@)
    }
}

impl DeviceRegistry {
    /// The registry's internal invariant: addresses are unique and every
    /// record is well formed.
    pub open spec fn wf(&self) -> bool {
        &&& unique_ips(self@)
        &&& forall|i: int| 0 <= i < self@.len() ==> unique_service_types(#[trigger] self@[i].services)
    }

    /// Creates an empty registry.
    pub fn new() -> (r: DeviceRegistry)
        ensures
            r.wf(),
            r@ == Seq::<DeviceView>::empty(),
    {
        let r = DeviceRegistry { devices: Vec::new() };
        proof {
            assert(r@ =~= Seq::<DeviceView>::empty());
        }
        r
    }

    /// Discards every record.
    pub fn clear(&mut self)
        ensures
            final(self).wf(),
            final(self)@ == Seq::<DeviceView>::empty(),
    {
        self.devices.clear();
        proof {
            assert(self@ =~= Seq::<DeviceView>::empty());
        }
    }

    /// Merges one admitted resolution into the registry and returns a deep
    /// copy of the resulting record.
    #[verifier::loop_isolation(false)]
    pub fn merge(
        &mut self,
        ip: &str,
        name: &str,
        service_type: &str,
        port: u16,
        device_type: DeviceType,
        elapsed_ms: u128,
    ) -> (snap: Device)
        requires
            old(self).wf(),
        ensures
            final(self).wf(),
            final(self)@ == merged_registry(
                old(self)@,
                ip@,
                name@,
                service_type@,
                port,
                device_type,
                elapsed_ms,
            ),
            snap@ == merged_entry(
                old(self)@,
                ip@,
                name@,
                service_type@,
                port,
                device_type,
                elapsed_ms,
            ),
    {
        broadcast use lemma_views_of_devices_index;
        broadcast use lemma_views_of_services_index;

        let ghost devs0 = self@;
        proof {
            assert(devs0.len() == self.devices@.len());
        }
        let n = self.devices.len();
        let mut i: usize = 0;
        while i < n
            invariant
                i <= n,
                n == self.devices.len(),
                n == devs0.len(),
                *self == *old(self),
                forall|j: int| 0 <= j < i ==> devs0[j].ip != ip@,
            decreases n - i,
        {
            if str_eq(self.devices[i].ip.as_str(), ip) {
                proof {
                    let k = device_index(devs0, ip@);
                    assert(devs0[i as int].ip == ip@);
                    assert(has_device(devs0, ip@));
                    assert(0 <= k < devs0.len() && devs0[k].ip == ip@);
                    assert(k == i as int);
                }
                let mut d = self.devices.remove(i);
                proof {
                    assert(d@ == devs0[i as int]);
                    assert(unique_service_types(devs0[i as int].services));
                }
                if elapsed_ms < d.discovery_time_ms {
                    d.discovery_time_ms = elapsed_ms;
                }
                d.name = name.to_owned();
                d.add_or_update_service(service_type, port, device_type, elapsed_ms);
                let snap = d.snapshot();
                self.devices.insert(i, d);
                proof {
                    assert(self@ =~= merged_registry(
                        devs0,
                        ip@,
                        name@,
                        service_type@,
                        port,
                        device_type,
                        elapsed_ms,
                    ));
                }
                return snap;
            }
            i += 1;
        }
        proof {
            assert(!has_device(devs0, ip@));
        }
        let ghost newdev = new_device(ip@, name@, service_type@, port, device_type, elapsed_ms);
        let services: Vec<DiscoveredService> = Vec::new();
        proof {
            assert(crate::models::views_of_services(services@) =~= Seq::<ServiceView>::empty());
        }
        let mut d = Device {
            name: name.to_owned(),
            ip: ip.to_owned(),
            discovery_time_ms: elapsed_ms,
            services,
        };
        d.add_or_update_service(service_type, port, device_type, elapsed_ms);
        proof {
            assert(d@.services =~= seq![service_entry(service_type@, port, device_type, elapsed_ms)]);
            assert(d@ =~= newdev);
        }
        let snap = d.snapshot();
        self.devices.push(d);
        proof {
            assert(self@ =~= merged_registry(
                devs0,
                ip@,
                name@,
                service_type@,
                port,
                device_type,
                elapsed_ms,
            ));
        }
        snap
    }

    /// Returns an independent snapshot of every record: at most one record
    /// per address, at most one service entry per category within a record.
    #[verifier::loop_isolation(false)]
    pub fn snapshot_all(&self) -> (r: Vec<Device>)
        requires
            self.wf(),
        ensures
            views_of_devices(r@) == self@,
            unique_ips(views_of_devices(r@)),
            forall|i: int| 0 <= i < views_of_devices(r@).len() ==> unique_service_types(
                #[trigger] views_of_devices(r@)[i].services,
            ),
    {
        broadcast use lemma_views_of_devices_index;

        let mut out: Vec<Device> = Vec::new();
        let n = self.devices.len();
        let mut i: usize = 0;
        while i < n
            invariant
                i <= n,
                n == self.devices.len(),
                out@.len() == i,
                forall|j: int| 0 <= j < i ==> out@[j]@ == self.devices@[j]@,
            decreases n - i,
        {
            let snap = self.devices[i].snapshot();
            out.push(snap);
            i += 1;
        }
        proof {
            assert(views_of_devices(out@) =~= self@);
        }
        out
    }
}

} // verus!
