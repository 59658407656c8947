//! Classification of a resolved advertisement into a device type.
//!
//! The four browsed service categories are fixed. The generic web category
//! only classifies as Volumio when the advertised name carries the keyword,
//! ignoring ASCII case; every unknown category classifies as Generic.

use vstd::prelude::*;
use crate::models::DeviceType;
use crate::text::contains_ci;
use crate::text::contains_ignore_case;
use crate::text::str_eq;

verus! {

/// The Bluesound service category.
pub open spec fn spec_bluesound_service_type() -> Seq<char> {
    "_musc._tcp.local."@
}

/// The generic web service category, browsed for Volumio devices.
pub open spec fn spec_volumio_service_type() -> Seq<char> {
    "_http._tcp.local."@
}

/// The Spotify Connect service category.
pub open spec fn spec_spotify_connect_service_type() -> Seq<char> {
    "_spotify-connect._tcp.local."@
}

/// The Qobuz Connect service category.
pub open spec fn spec_qobuz_connect_service_type() -> Seq<char> {
    "_qobuz-connect._tcp.local."@
}

/// The Bluesound service category.
pub fn bluesound_service_type() -> (r: &'static str)
    ensures
        r@ == spec_bluesound_service_type(),
{
    "_musc._tcp.local."
}

/// The generic web service category, browsed for Volumio devices.
pub fn volumio_service_type() -> (r: &'static str)
    ensures
        r@ == spec_volumio_service_type(),
{
    "_http._tcp.local."
}

/// The Spotify Connect service category.
pub fn spotify_connect_service_type() -> (r: &'static str)
    ensures
        r@ == spec_spotify_connect_service_type(),
{
    "_spotify-connect._tcp.local."
}

/// The Qobuz Connect service category.
pub fn qobuz_connect_service_type() -> (r: &'static str)
    ensures
        r@ == spec_qobuz_connect_service_type(),
{
    "_qobuz-connect._tcp.local."
}

/// The classification a resolved advertisement receives, from its category
/// and its advertised full name.
pub open spec fn spec_resolve_device_type(ty_domain: Seq<char>, fullname: Seq<char>) -> DeviceType {
    if ty_domain == spec_bluesound_service_type() {
        DeviceType::Bluesound
    } else if ty_domain == spec_volumio_service_type() && contains_ci(fullname, "volumio"@) {
        DeviceType::Volumio
    } else if ty_domain == spec_spotify_connect_service_type() {
        DeviceType::SpotifyConnect
    } else if ty_domain == spec_qobuz_connect_service_type() {
        DeviceType::QobuzConnect
    } else {
        DeviceType::Generic
    }
}

/// Resolves the device type from the service category and the advertised
/// full name.
pub fn resolve_device_type(ty_domain: &str, fullname: &str) -> (r: Option<DeviceType>)
    ensures
        r == Some(spec_resolve_device_type(ty_domain@, fullname@)),
{
    proof {
        reveal_strlit("_musc._tcp.local.");
        reveal_strlit("_http._tcp.local.");
        reveal_strlit("_spotify-connect._tcp.local.");
        reveal_strlit("_qobuz-connect._tcp.local.");
        assert(spec_bluesound_service_type()[1] == 'm');
        assert(spec_volumio_service_type()[1] == 'h');
        assert(spec_bluesound_service_type() != spec_volumio_service_type());
    }
    if str_eq(ty_domain, bluesound_service_type()) {
        Some(DeviceType::Bluesound)
    } else if str_eq(ty_domain, volumio_service_type()) {
        if contains_ignore_case(fullname, "volumio") {
            Some(DeviceType::Volumio)
        } else {
            Some(DeviceType::Generic)
        }
    } else if str_eq(ty_domain, spotify_connect_service_type()) {
        Some(DeviceType::SpotifyConnect)
    } else if str_eq(ty_domain, qobuz_connect_service_type()) {
        Some(DeviceType::QobuzConnect)
    } else {
        Some(DeviceType::Generic)
    }
}

} // verus!
