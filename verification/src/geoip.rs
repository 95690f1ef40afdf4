//! What a GeoIp lookup gives back for an address.

use vstd::prelude::*;

verus! {

/// The city of an address as the GeoIp database knows it: its names, and its
/// position as the texts of latitude and longitude with the accuracy radius in km.
#[derive(Clone, Debug)]
pub struct GeoIpCity {
    pub short_name: String,
    pub long_name: String,
    pub location: String,
    pub coordinates: Option<(String, String, u16)>,
}

} // verus!
