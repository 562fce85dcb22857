//! The device model and the local narrowing of a fetched device list.
//!
//! The remote returns devices as JSON; the fields this core reasons about
//! are carried as plain optional strings. Fetching is the executor's and
//! the HTTP collaborator's concern; the filtering a `show device` command
//! applies to the fetched list happens here and is verified.

use vstd::prelude::*;

use crate::commands::{DeviceDetailFilter, DeviceListFilter};

verus! {

/// One network device, as the listing endpoint reports it.
pub struct Device {
    /// Hostname, if the device reports one.
    pub hostname: Option<String>,
    /// MAC address.
    pub mac_address: Option<String>,
    /// Ethernet MAC address of an access point.
    pub ap_ethernet_mac_address: Option<String>,
    /// Management IP address.
    pub management_ip_address: Option<String>,
    /// Serial number.
    pub serial_number: Option<String>,
    /// IP of the associated wireless controller.
    pub associated_wlc_ip: Option<String>,
    /// Software version.
    pub software_version: Option<String>,
}

/// An equal copy of an optional string.
fn clone_opt_string(o: &Option<String>) -> (r: Option<String>)
    ensures
        r == *o,
{
    match o {
        Option::Some(s) => Some(s.clone()),
        Option::None => None,
    }
}

impl Device {
    /// An equal copy of the device.
    pub fn duplicate(&self) -> (d: Device)
        ensures
            d == *self,
    {
        Device {
            hostname: clone_opt_string(&self.hostname),
            mac_address: clone_opt_string(&self.mac_address),
            ap_ethernet_mac_address: clone_opt_string(&self.ap_ethernet_mac_address),
            management_ip_address: clone_opt_string(&self.management_ip_address),
            serial_number: clone_opt_string(&self.serial_number),
            associated_wlc_ip: clone_opt_string(&self.associated_wlc_ip),
            software_version: clone_opt_string(&self.software_version),
        }
    }
}

/// `needle` occurs contiguously somewhere in `hay`.
pub open spec fn spec_contains(hay: Seq<char>, needle: Seq<char>) -> bool {
    exists|i: int|
        0 <= i && i + needle.len() <= hay.len() && #[trigger] hay.subrange(i, i + needle.len())
            == needle
}

/// Whether `needle` matches `hay` starting at position `start`.
fn match_at(hay: &str, needle: &str, start: usize, needle_len: usize) -> (r: bool)
    requires
        needle_len == needle@.len(),
        start + needle_len <= hay@.len(),
        hay@.len() <= usize::MAX,
    ensures
        r == (hay@.subrange(start as int, start as int + needle@.len()) == needle@),
{
    let mut j: usize = 0;
    while j < needle_len
        invariant
            needle_len == needle@.len(),
            start + needle_len <= hay@.len(),
            hay@.len() <= usize::MAX,
            j <= needle_len,
            forall|k: int| 0 <= k < j ==> hay@[start + k] == needle@[k],
        decreases needle_len - j,
    {
        if hay.get_char(start + j) != needle.get_char(j) {
            proof {
                assert(hay@.subrange(start as int, start as int + needle@.len())[j as int]
                    != needle@[j as int]);
            }
            return false;
        }
        j = j + 1;
    }
    proof {
        assert(hay@.subrange(start as int, start as int + needle@.len()) =~= needle@);
    }
    true
}

/// Substring search: `needle` occurs contiguously in `hay`.
pub fn contains_substring(hay: &str, needle: &str) -> (r: bool)
    ensures
        r == spec_contains(hay@, needle@),
{
    let hay_len = hay.unicode_len();
    let needle_len = needle.unicode_len();
    if needle_len > hay_len {
        return false;
    }
    if needle_len == 0 {
        proof {
            assert(hay@.subrange(0, 0 + needle@.len() as int) =~= needle@);
        }
        return true;
    }
    let mut start: usize = 0;
    while start <= hay_len - needle_len
        invariant
            needle_len == needle@.len(),
            hay_len == hay@.len(),
            0 < needle_len <= hay_len,
            start <= hay_len - needle_len + 1,
            forall|i: int|
                0 <= i < start ==> #[trigger] hay@.subrange(i, i + needle@.len()) != needle@,
        decreases hay_len - needle_len - start + 1,
    {
        if match_at(hay, needle, start, needle_len) {
            return true;
        }
        start = start + 1;
    }
    false
}

/// A present field matches a fragment when the fragment occurs in it; a
/// missing fragment keeps every present field; a missing field never
/// matches.
pub open spec fn spec_field_matches(field: Option<String>, fragment: Option<String>) -> bool {
    match field {
        Option::Some(value) => match fragment {
            Option::Some(f) => spec_contains(value@, f@),
            Option::None => true,
        },
        Option::None => false,
    }
}

/// Whether an optional field matches an optional fragment.
fn field_matches(field: &Option<String>, fragment: &Option<String>) -> (r: bool)
    ensures
        r == spec_field_matches(*field, *fragment),
{
    match field {
        Option::Some(value) => match fragment {
            Option::Some(f) => contains_substring(value.as_str(), f.as_str()),
            Option::None => true,
        },
        Option::None => false,
    }
}

/// Whether a device passes a listing filter.
pub open spec fn spec_passes_filter(d: Device, f: DeviceListFilter) -> bool {
    match f {
        DeviceListFilter::All => true,
        DeviceListFilter::Hostname { partial_hostname } => spec_field_matches(
            d.hostname,
            partial_hostname,
        ),
        DeviceListFilter::Ip { partial_ip } => spec_field_matches(
            d.management_ip_address,
            partial_ip,
        ),
        DeviceListFilter::Wlc { partial_wlc } => spec_field_matches(
            d.associated_wlc_ip,
            partial_wlc,
        ),
    }
}

/// Whether one device passes a listing filter.
pub fn passes_filter(d: &Device, f: &DeviceListFilter) -> (r: bool)
    ensures
        r == spec_passes_filter(*d, *f),
{
    match f {
        DeviceListFilter::All => true,
        DeviceListFilter::Hostname { partial_hostname } => field_matches(
            &d.hostname,
            partial_hostname,
        ),
        DeviceListFilter::Ip { partial_ip } => field_matches(&d.management_ip_address, partial_ip),
        DeviceListFilter::Wlc { partial_wlc } => field_matches(&d.associated_wlc_ip, partial_wlc),
    }
}

/// The subsequence of devices passing the filter, in their original order.
pub open spec fn spec_filter_devices(devices: Seq<Device>, f: DeviceListFilter) -> Seq<Device>
    decreases devices.len(),
{
    if devices.len() == 0 {
        Seq::empty()
    } else {
        let rest = spec_filter_devices(devices.drop_last(), f);
        if spec_passes_filter(devices.last(), f) {
            rest.push(devices.last())
        } else {
            rest
        }
    }
}

/// The devices passing the filter, in their original order.
pub fn filter_devices(devices: &Vec<Device>, filter: &DeviceListFilter) -> (r: Vec<Device>)
    ensures
        r@ == spec_filter_devices(devices@, *filter),
{
    let mut r: Vec<Device> = Vec::new();
    let mut i: usize = 0;
    proof {
        assert(devices@.subrange(0, 0).len() == 0);
    }
    while i < devices.len()
        invariant
            i <= devices@.len(),
            r@ == spec_filter_devices(devices@.subrange(0, i as int), *filter),
        decreases devices@.len() - i,
    {
        proof {
            let s = devices@.subrange(0, i as int);
            let s1 = devices@.subrange(0, i as int + 1);
            assert(s1.drop_last() =~= s);
            assert(s1.last() == devices@[i as int]);
            assert(spec_filter_devices(s1, *filter) == if spec_passes_filter(
                devices@[i as int],
                *filter,
            ) {
                spec_filter_devices(s, *filter).push(devices@[i as int])
            } else {
                spec_filter_devices(s, *filter)
            });
        }
        if passes_filter(&devices[i], filter) {
            r.push(devices[i].duplicate());
        }
        i = i + 1;
    }
    proof {
        assert(devices@.subrange(0, devices@.len() as int) =~= devices@);
    }
    r
}

/// Whether a device is the one a detail filter picks: the named field is
/// present and equals the filter's value exactly.
pub open spec fn spec_detail_matches(d: Device, f: DeviceDetailFilter) -> bool {
    match f {
        DeviceDetailFilter::Hostname { hostname } => d.hostname matches Some(h) && h@ == hostname@,
        DeviceDetailFilter::Mac { mac_address } => d.mac_address matches Some(m) && m@
            == mac_address@,
        DeviceDetailFilter::Ip { ip_address } => d.management_ip_address matches Some(ip) && ip@
            == ip_address@,
    }
}

/// Whether one device matches a detail filter.
fn detail_matches(d: &Device, f: &DeviceDetailFilter) -> (r: bool)
    ensures
        r == spec_detail_matches(*d, *f),
{
    match f {
        DeviceDetailFilter::Hostname { hostname } => match &d.hostname {
            Option::Some(h) => *h == *hostname,
            Option::None => false,
        },
        DeviceDetailFilter::Mac { mac_address } => match &d.mac_address {
            Option::Some(m) => *m == *mac_address,
            Option::None => false,
        },
        DeviceDetailFilter::Ip { ip_address } => match &d.management_ip_address {
            Option::Some(ip) => *ip == *ip_address,
            Option::None => false,
        },
    }
}

/// The first device a detail filter picks, if any.
pub fn find_device<'a>(devices: &'a Vec<Device>, filter: &DeviceDetailFilter) -> (r: Option<
    &'a Device,
>)
    ensures
        r matches Some(d) ==> exists|i: int|
            0 <= i < devices@.len() && *d == devices@[i] && spec_detail_matches(devices@[i], *filter)
                && (forall|j: int| 0 <= j < i ==> !spec_detail_matches(devices@[j], *filter)),
        r is None ==> forall|i: int|
            0 <= i < devices@.len() ==> !spec_detail_matches(devices@[i], *filter),
{
    let mut i: usize = 0;
    while i < devices.len()
        invariant
            i <= devices@.len(),
            forall|j: int| 0 <= j < i ==> !spec_detail_matches(devices@[j], *filter),
        decreases devices@.len() - i,
    {
        if detail_matches(&devices[i], filter) {
            return Some(&devices[i]);
        }
        i = i + 1;
    }
    None
}

} // verus!
