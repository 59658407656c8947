//! Laws of the scan: deduplication, the running minimum of discovery times,
//! and the merging of distinct categories into one record.

use vstd::prelude::*;
use vstd::math::min;
use crate::addr::CandidateAddress;
use crate::addr::first_qualifying;
use crate::models::DeviceType;
use crate::models::DeviceView;
use crate::registry::merged_device;
use crate::registry::merged_registry;
use crate::registry::has_device;
use crate::registry::device_index;
use crate::registry::new_device;
use crate::models::has_service;
use crate::models::service_entry;
use crate::session::SessionView;
use crate::session::resolution_outcome;

verus! {

/// Once a resolution for a given (address, category) pair has been
/// processed, a later resolution selecting the same address and the same
/// category is dropped entirely: the session state is unchanged and nothing
/// is emitted.
pub proof fn lemma_duplicate_resolution_dropped(
    s: SessionView,
    service_type: Seq<char>,
    fullname1: Seq<char>,
    fullname2: Seq<char>,
    addresses1: Seq<CandidateAddress>,
    addresses2: Seq<CandidateAddress>,
    port1: u16,
    port2: u16,
    elapsed1: u128,
    elapsed2: u128,
)
    requires
        first_qualifying(addresses1) is Some,
        first_qualifying(addresses2) == first_qualifying(addresses1),
    ensures
        ({
            let s1 = resolution_outcome(s, service_type, fullname1, addresses1, port1, elapsed1).0;
            resolution_outcome(s1, service_type, fullname2, addresses2, port2, elapsed2) == (
                s1,
                None::<DeviceView>,
            )
        }),
{
    let octets = first_qualifying(addresses1)->0;
    let ip = crate::text::ipv4_string(octets.a, octets.b, octets.c, octets.d);
    let s1 = resolution_outcome(s, service_type, fullname1, addresses1, port1, elapsed1).0;
    assert(s1.dedup.contains((ip, service_type)));
}

/// One merge input: the values one admitted resolution hands the registry.
pub ghost struct MergeInput {
    pub name: Seq<char>,
    pub service_type: Seq<char>,
    pub port: u16,
    pub device_type: DeviceType,
    pub elapsed_ms: u128,
}

/// A record after a run of resolutions merges into it, in order.
pub open spec fn apply_resolutions(d: DeviceView, rs: Seq<MergeInput>) -> DeviceView
    decreases rs.len(),
{
    if rs.len() == 0 {
        d
    } else {
        apply_resolutions(
            merged_device(
                d,
                rs[0].name,
                rs[0].service_type,
                rs[0].port,
                rs[0].device_type,
                rs[0].elapsed_ms,
            ),
            rs.skip(1),
        )
    }
}

/// The minimum of a starting value and every elapsed time in a run.
pub open spec fn min_elapsed(init: u128, rs: Seq<MergeInput>) -> u128
    decreases rs.len(),
{
    if rs.len() == 0 {
        init
    } else {
        min_elapsed(
            if rs[0].elapsed_ms < init {
                rs[0].elapsed_ms
            } else {
                init
            },
            rs.skip(1),
        )
    }
}

/// A device's discovery time equals the minimum elapsed time across every
/// resolution ever merged into it, and never increases as more merge.
pub proof fn lemma_discovery_time_is_min(d: DeviceView, rs: Seq<MergeInput>)
    ensures
        apply_resolutions(d, rs).discovery_time_ms == min_elapsed(d.discovery_time_ms, rs),
        apply_resolutions(d, rs).discovery_time_ms <= d.discovery_time_ms,
    decreases rs.len(),
{
    if rs.len() > 0 {
        let d1 = merged_device(
            d,
            rs[0].name,
            rs[0].service_type,
            rs[0].port,
            rs[0].device_type,
            rs[0].elapsed_ms,
        );
        lemma_discovery_time_is_min(d1, rs.skip(1));
    }
}

/// A record created by its first resolution and then merged with a run of
/// later ones carries the minimum elapsed time of all of them.
pub proof fn lemma_discovery_time_from_first(
    ip: Seq<char>,
    name: Seq<char>,
    ty: Seq<char>,
    port: u16,
    device_type: DeviceType,
    elapsed_ms: u128,
    rs: Seq<MergeInput>,
)
    ensures
        apply_resolutions(
            new_device(ip, name, ty, port, device_type, elapsed_ms),
            rs,
        ).discovery_time_ms == min_elapsed(elapsed_ms, rs),
{
    lemma_discovery_time_is_min(new_device(ip, name, ty, port, device_type, elapsed_ms), rs);
}

/// Two resolutions for the same address and two distinct categories yield
/// one record carrying both service entries, under the earlier discovery
/// time and the latest name.
pub proof fn lemma_two_categories_one_device(
    ip: Seq<char>,
    name1: Seq<char>,
    name2: Seq<char>,
    ty1: Seq<char>,
    ty2: Seq<char>,
    port1: u16,
    port2: u16,
    dt1: DeviceType,
    dt2: DeviceType,
    elapsed1: u128,
    elapsed2: u128,
)
    requires
        ty1 != ty2,
    ensures
        ({
            let r1 = merged_registry(
                Seq::<DeviceView>::empty(),
                ip,
                name1,
                ty1,
                port1,
                dt1,
                elapsed1,
            );
            let r2 = merged_registry(r1, ip, name2, ty2, port2, dt2, elapsed2);
            &&& r2.len() == 1
            &&& r2[0].ip == ip
            &&& r2[0].name == name2
            &&& r2[0].discovery_time_ms == min(elapsed1 as int, elapsed2 as int)
            &&& r2[0].services.len() == 2
            &&& r2[0].services[0] == service_entry(ty1, port1, dt1, elapsed1)
            &&& r2[0].services[1] == service_entry(ty2, port2, dt2, elapsed2)
        }),
{
    let empty = Seq::<DeviceView>::empty();
    assert(!has_device(empty, ip));
    let nd = new_device(ip, name1, ty1, port1, dt1, elapsed1);
    let r1 = merged_registry(empty, ip, name1, ty1, port1, dt1, elapsed1);
    assert(r1 =~= seq![nd]);
    assert(r1[0].ip == ip);
    assert(has_device(r1, ip));
    let k = device_index(r1, ip);
    assert(0 <= k < 1 && r1[k].ip == ip);
    assert(k == 0);
    assert(!has_service(nd.services, ty2)) by {
        assert(nd.services.len() == 1);
        assert(nd.services[0].service_type == ty1);
    }
    let md = merged_device(nd, name2, ty2, port2, dt2, elapsed2);
    assert(md.services =~= nd.services.push(service_entry(ty2, port2, dt2, elapsed2)));
    let r2 = merged_registry(r1, ip, name2, ty2, port2, dt2, elapsed2);
    assert(r2 =~= seq![md]);
}

/// In a fresh session, two resolutions selecting the same address under two
/// distinct categories are both admitted and yield one device record carrying
/// two service entries.
pub proof fn lemma_distinct_categories_one_device(
    s: SessionView,
    ty1: Seq<char>,
    ty2: Seq<char>,
    fullname1: Seq<char>,
    fullname2: Seq<char>,
    addresses1: Seq<CandidateAddress>,
    addresses2: Seq<CandidateAddress>,
    port1: u16,
    port2: u16,
    elapsed1: u128,
    elapsed2: u128,
)
    requires
        s.devices == Seq::<DeviceView>::empty(),
        s.dedup == Set::<(Seq<char>, Seq<char>)>::empty(),
        first_qualifying(addresses1) is Some,
        first_qualifying(addresses2) == first_qualifying(addresses1),
        ty1 != ty2,
    ensures
        ({
            let (s1, out1) = resolution_outcome(s, ty1, fullname1, addresses1, port1, elapsed1);
            let (s2, out2) = resolution_outcome(s1, ty2, fullname2, addresses2, port2, elapsed2);
            &&& out1 is Some
            &&& out2 is Some
            &&& s2.devices.len() == 1
            &&& s2.devices[0].services.len() == 2
            &&& s2.devices[0].services[0].service_type == ty1
            &&& s2.devices[0].services[1].service_type == ty2
        }),
{
    let octets = first_qualifying(addresses1)->0;
    let ip = crate::text::ipv4_string(octets.a, octets.b, octets.c, octets.d);
    assert(!s.dedup.contains((ip, ty1)));
    let (s1, out1) = resolution_outcome(s, ty1, fullname1, addresses1, port1, elapsed1);
    assert(out1 is Some);
    assert(s1.dedup == s.dedup.insert((ip, ty1)));
    assert(!s1.dedup.contains((ip, ty2)));
    let (s2, out2) = resolution_outcome(s1, ty2, fullname2, addresses2, port2, elapsed2);
    assert(out2 is Some);
    lemma_two_categories_one_device(
        ip,
        crate::text::short_name_of(fullname1),
        crate::text::short_name_of(fullname2),
        ty1,
        ty2,
        port1,
        port2,
        crate::classify::spec_resolve_device_type(ty1, fullname1),
        crate::classify::spec_resolve_device_type(ty2, fullname2),
        elapsed1,
        elapsed2,
    );
}

} // verus!
