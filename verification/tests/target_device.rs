use usbip_macos::attach::{busid_equals, find_target_device, matches_config, AttachConfig};
use usbip_macos::usbip::{parse_imported_device, Device};

fn device(busid: &[u8], devnum: u32, vendor: u16, product: u16) -> Device {
    let mut v = vec![0u8; 312];
    v[256..256 + busid.len()].copy_from_slice(busid);
    v[292..296].copy_from_slice(&devnum.to_be_bytes());
    v[300..302].copy_from_slice(&vendor.to_be_bytes());
    v[302..304].copy_from_slice(&product.to_be_bytes());
    parse_imported_device(&v).unwrap()
}

fn config(busid: Option<&str>, device: Option<u32>, vendor: Option<u16>, product: Option<u16>) -> AttachConfig {
    AttachConfig { busid: busid.map(|s| s.to_string()), device, vendor_id: vendor, product_id: product }
}

#[test]
fn finds_by_device_number() {
    let devs = vec![device(b"1-1", 1, 1, 1), device(b"1-2", 2, 1, 1), device(b"1-3", 2, 5, 5)];
    let d = find_target_device(&devs, &config(None, Some(2), None, None)).unwrap();
    assert_eq!(&d.get_busid()[..3], b"1-2");
}

#[test]
fn finds_by_vendor_and_product() {
    let devs = vec![device(b"1-1", 1, 0x1234, 1), device(b"1-2", 2, 0x1234, 0x5678)];
    let d = find_target_device(&devs, &config(None, None, Some(0x1234), Some(0x5678))).unwrap();
    assert_eq!(d.get_devnum(), 2);
    assert!(find_target_device(&devs, &config(None, None, Some(0x1234), None)).is_none());
}

#[test]
fn busid_matches_up_to_first_nul() {
    let full = "abcdefghijklmnopqrstuvwxyz012345";
    let devs = vec![device(b"1-1", 1, 1, 1), device(full.as_bytes(), 9, 1, 1), device(b"1-10", 10, 1, 1)];
    let d = find_target_device(&devs, &config(Some("1-1"), None, None, None)).unwrap();
    assert_eq!(d.get_devnum(), 1);
    let d = find_target_device(&devs, &config(Some(full), None, None, None)).unwrap();
    assert_eq!(d.get_devnum(), 9);
    let d = find_target_device(&devs, &config(Some("1-10"), None, None, None)).unwrap();
    assert_eq!(d.get_devnum(), 10);
    assert!(find_target_device(&devs, &config(Some("1-"), None, None, None)).is_none());
    assert!(find_target_device(&devs, &config(Some("1-1\0"), None, None, None)).is_none());
    assert!(find_target_device(&devs, &config(Some("abcdefghijklmnopqrstuvwxyz0123456"), None, None, None)).is_none());
}

#[test]
fn busid_equals_reads_nul_padded_field() {
    let mut field = [0u8; 32];
    field[..3].copy_from_slice(b"2-4");
    assert!(busid_equals(&field, b"2-4"));
    assert!(!busid_equals(&field, b"2-"));
    assert!(!busid_equals(&field, b"2-4.1"));
    assert!(busid_equals(&[0u8; 32], b""));
    assert!(!busid_equals(&field, b""));
}

#[test]
fn busid_takes_precedence_over_device_number() {
    let devs = vec![device(b"1-1", 1, 1, 1)];
    assert!(find_target_device(&devs, &config(Some("9-9"), Some(1), None, None)).is_none());
    assert!(matches_config(&devs[0], &config(None, Some(1), Some(2), Some(2))));
}

#[test]
fn empty_config_matches_nothing() {
    let devs = vec![device(b"1-1", 1, 1, 1)];
    assert!(find_target_device(&devs, &config(None, None, None, None)).is_none());
    assert!(find_target_device(&[], &config(None, Some(1), None, None)).is_none());
}
