use lan_scanner::addr::CandidateAddress;
use lan_scanner::addr::Ipv4Octets;
use lan_scanner::addr::select_address;
use lan_scanner::classify::resolve_device_type;
use lan_scanner::models::Device;
use lan_scanner::models::DeviceType;
use lan_scanner::session::Session;
use lan_scanner::session::TickOutcome;
use lan_scanner::session::SCAN_DURATION_SECS;
use lan_scanner::text::contains_ignore_case;
use lan_scanner::text::ipv4_to_string;
use lan_scanner::text::short_name;
use lan_scanner::text::str_eq;

const BLUESOUND: &str = "_musc._tcp.local.";
const VOLUMIO: &str = "_http._tcp.local.";
const SPOTIFY: &str = "_spotify-connect._tcp.local.";
const QOBUZ: &str = "_qobuz-connect._tcp.local.";

fn v4(a: u8, b: u8, c: u8, d: u8) -> CandidateAddress {
    CandidateAddress::V4(Ipv4Octets { a, b, c, d })
}

#[test]
fn classify_bluesound() {
    assert_eq!(
        resolve_device_type(BLUESOUND, "Den._musc._tcp.local."),
        Some(DeviceType::Bluesound)
    );
}

#[test]
fn classify_volumio_keyword_case_insensitive() {
    assert_eq!(
        resolve_device_type(VOLUMIO, "Volumio-Living._http._tcp.local."),
        Some(DeviceType::Volumio)
    );
    assert_eq!(
        resolve_device_type(VOLUMIO, "myVOLUMIObox._http._tcp.local."),
        Some(DeviceType::Volumio)
    );
}

#[test]
fn classify_web_service_without_keyword_is_generic() {
    assert_eq!(
        resolve_device_type(VOLUMIO, "Printer._http._tcp.local."),
        Some(DeviceType::Generic)
    );
}

#[test]
fn classify_spotify_and_qobuz() {
    assert_eq!(
        resolve_device_type(SPOTIFY, "Amp._spotify-connect._tcp.local."),
        Some(DeviceType::SpotifyConnect)
    );
    assert_eq!(
        resolve_device_type(QOBUZ, "Amp._qobuz-connect._tcp.local."),
        Some(DeviceType::QobuzConnect)
    );
}

#[test]
fn classify_unknown_category_is_generic() {
    assert_eq!(
        resolve_device_type("_airplay._tcp.local.", "TV._airplay._tcp.local."),
        Some(DeviceType::Generic)
    );
}

#[test]
fn str_eq_basic() {
    assert!(str_eq("abc", "abc"));
    assert!(!str_eq("abc", "abd"));
    assert!(!str_eq("abc", "abcd"));
    assert!(str_eq("", ""));
}

#[test]
fn contains_ignore_case_basic() {
    assert!(contains_ignore_case("MyVolumioBox", "volumio"));
    assert!(contains_ignore_case("volumio", "VOLUMIO"));
    assert!(!contains_ignore_case("volumi", "volumio"));
    assert!(contains_ignore_case("anything", ""));
}

#[test]
fn short_name_cuts_at_first_dot() {
    assert_eq!(short_name("Living Room._musc._tcp.local."), "Living Room");
    assert_eq!(short_name("nodots"), "nodots");
    assert_eq!(short_name(""), "");
    assert_eq!(short_name(".leading"), "");
}

#[test]
fn ipv4_rendering() {
    assert_eq!(ipv4_to_string(10, 0, 0, 5), "10.0.0.5");
    assert_eq!(ipv4_to_string(192, 168, 1, 100), "192.168.1.100");
    assert_eq!(ipv4_to_string(0, 0, 0, 0), "0.0.0.0");
    assert_eq!(ipv4_to_string(255, 255, 255, 255), "255.255.255.255");
}

#[test]
fn select_address_skips_link_local_and_non_ipv4() {
    let cands = vec![
        CandidateAddress::Other,
        v4(169, 254, 7, 7),
        v4(10, 0, 0, 5),
        v4(192, 168, 1, 2),
    ];
    assert_eq!(select_address(&cands), Some(Ipv4Octets { a: 10, b: 0, c: 0, d: 5 }));
}

#[test]
fn select_address_none_qualifies() {
    let cands = vec![CandidateAddress::Other, v4(169, 254, 1, 1)];
    assert_eq!(select_address(&cands), None);
    assert_eq!(select_address(&Vec::new()), None);
}

#[test]
fn add_or_update_service_overwrites_in_place() {
    let mut d = Device {
        name: "Den".to_string(),
        ip: "10.0.0.5".to_string(),
        discovery_time_ms: 100,
        services: Vec::new(),
    };
    d.add_or_update_service(BLUESOUND, 11000, DeviceType::Bluesound, 100);
    d.add_or_update_service(BLUESOUND, 11001, DeviceType::Bluesound, 250);
    assert_eq!(d.services.len(), 1);
    assert_eq!(d.services[0].port, 11001);
    assert_eq!(d.services[0].last_seen_ms, 250);
    d.add_or_update_service(SPOTIFY, 1234, DeviceType::SpotifyConnect, 300);
    assert_eq!(d.services.len(), 2);
    assert_eq!(d.services[1].port, 1234);
}

fn resolve(
    session: &mut Session,
    category: &str,
    fullname: &str,
    addr: (u8, u8, u8, u8),
    port: u16,
    elapsed: u128,
) -> Option<Device> {
    let cands = vec![v4(addr.0, addr.1, addr.2, addr.3)];
    session.handle_resolved_service(category, fullname, &cands, port, elapsed)
}

#[test]
fn two_categories_merge_into_one_device() {
    let mut s = Session::new();
    assert!(s.start_scan());
    let first = resolve(
        &mut s,
        BLUESOUND,
        "Den._musc._tcp.local.",
        (10, 0, 0, 5),
        11000,
        120,
    );
    assert!(first.is_some());
    let second = resolve(
        &mut s,
        SPOTIFY,
        "Den._spotify-connect._tcp.local.",
        (10, 0, 0, 5),
        1234,
        340,
    );
    assert!(second.is_some());
    let devices = s.get_discovered_devices();
    assert_eq!(devices.len(), 1);
    let d = &devices[0];
    assert_eq!(d.ip, "10.0.0.5");
    assert_eq!(d.name, "Den");
    assert_eq!(d.discovery_time_ms, 120);
    assert_eq!(d.services.len(), 2);
    assert_eq!(d.services[0].service_type, BLUESOUND);
    assert_eq!(d.services[0].port, 11000);
    assert_eq!(d.services[0].device_type, DeviceType::Bluesound);
    assert_eq!(d.services[0].last_seen_ms, 120);
    assert_eq!(d.services[1].service_type, SPOTIFY);
    assert_eq!(d.services[1].port, 1234);
    assert_eq!(d.services[1].device_type, DeviceType::SpotifyConnect);
    assert_eq!(d.services[1].last_seen_ms, 340);
}

#[test]
fn discovery_time_takes_running_minimum() {
    let mut s = Session::new();
    assert!(s.start_scan());
    resolve(&mut s, SPOTIFY, "Den._spotify-connect._tcp.local.", (10, 0, 0, 5), 1234, 340);
    resolve(&mut s, BLUESOUND, "Den._musc._tcp.local.", (10, 0, 0, 5), 11000, 120);
    let devices = s.get_discovered_devices();
    assert_eq!(devices.len(), 1);
    assert_eq!(devices[0].discovery_time_ms, 120);
}

#[test]
fn duplicate_event_is_dropped() {
    let mut s = Session::new();
    assert!(s.start_scan());
    let first = resolve(&mut s, BLUESOUND, "Den._musc._tcp.local.", (10, 0, 0, 5), 11000, 120);
    assert!(first.is_some());
    let second = resolve(&mut s, BLUESOUND, "Den._musc._tcp.local.", (10, 0, 0, 5), 11001, 200);
    assert!(second.is_none());
    let devices = s.get_discovered_devices();
    assert_eq!(devices.len(), 1);
    assert_eq!(devices[0].services.len(), 1);
    assert_eq!(devices[0].services[0].port, 11000);
    assert_eq!(devices[0].services[0].last_seen_ms, 120);
}

#[test]
fn unusable_addresses_drop_event_without_consuming_dedup() {
    let mut s = Session::new();
    assert!(s.start_scan());
    let cands = vec![CandidateAddress::Other, v4(169, 254, 3, 3)];
    let out = s.handle_resolved_service(BLUESOUND, "Den._musc._tcp.local.", &cands, 11000, 50);
    assert!(out.is_none());
    assert!(s.get_discovered_devices().is_empty());
    let later = resolve(&mut s, BLUESOUND, "Den._musc._tcp.local.", (10, 0, 0, 5), 11000, 80);
    assert!(later.is_some());
    assert_eq!(s.get_discovered_devices().len(), 1);
}

#[test]
fn start_while_scanning_is_noop() {
    let mut s = Session::new();
    assert!(s.start_scan());
    resolve(&mut s, BLUESOUND, "Den._musc._tcp.local.", (10, 0, 0, 5), 11000, 120);
    let proceed = s.start_scan();
    assert!(!proceed);
    assert!(s.is_scanning());
    assert_eq!(s.get_discovered_devices().len(), 1);
    let dup = resolve(&mut s, BLUESOUND, "Den._musc._tcp.local.", (10, 0, 0, 5), 11000, 130);
    assert!(dup.is_none());
}

#[test]
fn stop_while_idle_is_noop() {
    let mut s = Session::new();
    assert!(!s.stop_scan());
    assert!(!s.is_scanning());
    assert!(s.start_scan());
    resolve(&mut s, BLUESOUND, "Den._musc._tcp.local.", (10, 0, 0, 5), 11000, 120);
    assert!(s.stop_scan());
    assert!(!s.stop_scan());
    assert_eq!(s.get_discovered_devices().len(), 1);
}

#[test]
fn new_session_discards_prior_devices_and_dedup() {
    let mut s = Session::new();
    assert!(s.start_scan());
    resolve(&mut s, BLUESOUND, "Den._musc._tcp.local.", (10, 0, 0, 5), 11000, 120);
    assert!(s.stop_scan());
    assert!(s.start_scan());
    assert!(s.get_discovered_devices().is_empty());
    let again = resolve(&mut s, BLUESOUND, "Den._musc._tcp.local.", (10, 0, 0, 5), 11000, 40);
    assert!(again.is_some());
}

#[test]
fn backend_failure_reverts_start() {
    let mut s = Session::new();
    assert!(s.start_scan());
    s.abort_start();
    assert!(!s.is_scanning());
    assert_eq!(s.countdown_tick(), TickOutcome::Cancelled);
    assert!(s.start_scan());
}

#[test]
fn countdown_runs_to_completion() {
    let mut s = Session::new();
    assert!(s.start_scan());
    for expected in (1..=SCAN_DURATION_SECS).rev() {
        assert_eq!(s.countdown_tick(), TickOutcome::Tick(expected));
    }
    assert_eq!(s.countdown_tick(), TickOutcome::Elapsed);
    assert!(s.stop_scan());
}

#[test]
fn stop_cancels_countdown() {
    let mut s = Session::new();
    assert!(s.start_scan());
    for expected in ((SCAN_DURATION_SECS - 19)..=SCAN_DURATION_SECS).rev() {
        assert_eq!(s.countdown_tick(), TickOutcome::Tick(expected));
    }
    let mut stopped = 0;
    if s.stop_scan() {
        stopped += 1;
    }
    assert_eq!(stopped, 1);
    for _ in 0..5 {
        assert_eq!(s.countdown_tick(), TickOutcome::Cancelled);
    }
    if s.stop_scan() {
        stopped += 1;
    }
    assert_eq!(stopped, 1);
}

#[test]
fn latest_resolution_overwrites_name() {
    let mut s = Session::new();
    assert!(s.start_scan());
    resolve(&mut s, BLUESOUND, "OldName._musc._tcp.local.", (10, 0, 0, 5), 11000, 120);
    resolve(
        &mut s,
        SPOTIFY,
        "NewName._spotify-connect._tcp.local.",
        (10, 0, 0, 5),
        1234,
        340,
    );
    let devices = s.get_discovered_devices();
    assert_eq!(devices[0].name, "NewName");
}

#[test]
fn distinct_addresses_make_distinct_devices() {
    let mut s = Session::new();
    assert!(s.start_scan());
    resolve(&mut s, BLUESOUND, "Den._musc._tcp.local.", (10, 0, 0, 5), 11000, 120);
    resolve(&mut s, BLUESOUND, "Attic._musc._tcp.local.", (10, 0, 0, 6), 11000, 150);
    assert_eq!(s.get_discovered_devices().len(), 2);
}

#[test]
fn snapshot_is_independent() {
    let mut s = Session::new();
    assert!(s.start_scan());
    resolve(&mut s, BLUESOUND, "Den._musc._tcp.local.", (10, 0, 0, 5), 11000, 120);
    let mut snap = s.get_discovered_devices();
    snap[0].name = "changed".to_string();
    snap[0].services.clear();
    let fresh = s.get_discovered_devices();
    assert_eq!(fresh[0].name, "Den");
    assert_eq!(fresh[0].services.len(), 1);
}
