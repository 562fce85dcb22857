use catalysh::commands::{DeviceDetailFilter, DeviceListFilter};
use catalysh::devices::{contains_substring, filter_devices, find_device, Device};

fn device(hostname: Option<&str>, ip: Option<&str>, wlc: Option<&str>, mac: Option<&str>) -> Device {
    Device {
        hostname: hostname.map(|s| s.to_string()),
        mac_address: mac.map(|s| s.to_string()),
        ap_ethernet_mac_address: None,
        management_ip_address: ip.map(|s| s.to_string()),
        serial_number: None,
        associated_wlc_ip: wlc.map(|s| s.to_string()),
        software_version: None,
    }
}

#[test]
fn substring_search_finds_and_rejects() {
    assert!(contains_substring("edge-switch-01", "switch"));
    assert!(contains_substring("edge-switch-01", "edge-switch-01"));
    assert!(contains_substring("edge-switch-01", ""));
    assert!(!contains_substring("edge-switch-01", "router"));
    assert!(!contains_substring("ab", "abc"));
    assert!(contains_substring("aaab", "aab"));
}

#[test]
fn hostname_filter_keeps_matching_devices() {
    let devices = vec![
        device(Some("edge-1"), Some("10.0.0.1"), None, None),
        device(Some("core-1"), Some("10.0.0.2"), None, None),
        device(None, Some("10.0.0.3"), None, None),
    ];
    let kept = filter_devices(
        &devices,
        &DeviceListFilter::Hostname {
            partial_hostname: Some("edge".to_string()),
        },
    );
    assert_eq!(kept.len(), 1);
    assert_eq!(kept[0].hostname.as_deref(), Some("edge-1"));
}

#[test]
fn hostname_filter_without_fragment_keeps_named_devices() {
    let devices = vec![
        device(Some("edge-1"), None, None, None),
        device(None, Some("10.0.0.3"), None, None),
    ];
    let kept = filter_devices(
        &devices,
        &DeviceListFilter::Hostname {
            partial_hostname: None,
        },
    );
    assert_eq!(kept.len(), 1);
}

#[test]
fn all_filter_keeps_everything_in_order() {
    let devices = vec![
        device(Some("b"), None, None, None),
        device(Some("a"), None, None, None),
    ];
    let kept = filter_devices(&devices, &DeviceListFilter::All);
    assert_eq!(kept.len(), 2);
    assert_eq!(kept[0].hostname.as_deref(), Some("b"));
    assert_eq!(kept[1].hostname.as_deref(), Some("a"));
}

#[test]
fn ip_and_wlc_filters_look_at_their_fields() {
    let devices = vec![
        device(Some("edge-1"), Some("10.1.2.3"), Some("10.9.9.9"), None),
        device(Some("edge-2"), Some("10.4.5.6"), Some("10.8.8.8"), None),
    ];
    let by_ip = filter_devices(
        &devices,
        &DeviceListFilter::Ip {
            partial_ip: Some("4.5".to_string()),
        },
    );
    assert_eq!(by_ip.len(), 1);
    assert_eq!(by_ip[0].hostname.as_deref(), Some("edge-2"));
    let by_wlc = filter_devices(
        &devices,
        &DeviceListFilter::Wlc {
            partial_wlc: Some("9.9".to_string()),
        },
    );
    assert_eq!(by_wlc.len(), 1);
    assert_eq!(by_wlc[0].hostname.as_deref(), Some("edge-1"));
}

#[test]
fn find_device_picks_first_exact_match() {
    let devices = vec![
        device(Some("edge-1"), Some("10.0.0.1"), None, Some("aa:bb")),
        device(Some("edge-2"), Some("10.0.0.2"), None, Some("cc:dd")),
    ];
    let found = find_device(
        &devices,
        &DeviceDetailFilter::Mac {
            mac_address: "cc:dd".to_string(),
        },
    )
    .unwrap();
    assert_eq!(found.hostname.as_deref(), Some("edge-2"));
    // An exact filter does not match partially.
    assert!(find_device(
        &devices,
        &DeviceDetailFilter::Hostname {
            hostname: "edge".to_string()
        }
    )
    .is_none());
}
