use mac_touchpad_core::hid::device::{
    compute_md5, device_name_from_buffer, is_precision_touchpad, touchpad_device_info,
};
use mac_touchpad_core::hid::parser::{
    max_link_collection, parse_reports, read_report, touchpad_ranges, ValueCap, USAGE_CONTACT_COUNT,
    USAGE_CONTACT_ID, USAGE_PAGE_DIGITIZER, USAGE_PAGE_GENERIC, USAGE_X, USAGE_Y,
};
use mac_touchpad_core::hid::types::{TouchpadContact, TouchpadContactCreator, TouchpadDeviceInfo};

fn cap(link: u16, page: u16, usage: u16, min: i32, max: i32) -> ValueCap {
    ValueCap { usage_page: page, link_collection: link, usage, logical_min: min, logical_max: max }
}

/// Two contact slots plus the contact count, as a precision touchpad describes them.
fn caps() -> Vec<ValueCap> {
    vec![
        cap(0, USAGE_PAGE_DIGITIZER, USAGE_CONTACT_COUNT, 0, 5),
        cap(1, USAGE_PAGE_DIGITIZER, USAGE_CONTACT_ID, 0, 15),
        cap(1, USAGE_PAGE_GENERIC, USAGE_X, 0, 1200),
        cap(1, USAGE_PAGE_GENERIC, USAGE_Y, 0, 800),
        cap(2, USAGE_PAGE_DIGITIZER, USAGE_CONTACT_ID, 0, 15),
        cap(2, USAGE_PAGE_GENERIC, USAGE_X, 0, 1300),
        cap(2, USAGE_PAGE_GENERIC, USAGE_Y, 0, 900),
    ]
}

#[test]
fn ranges_come_from_link_collection_one() {
    let c = caps();
    assert_eq!(touchpad_ranges(&c), ((0, 1200), (0, 800)));
    assert_eq!(touchpad_ranges(&vec![]), ((0, 0), (0, 0)));
    assert_eq!(max_link_collection(&c), 2);
    assert_eq!(max_link_collection(&vec![]), 0);
}

#[test]
fn read_report_emits_complete_nonzero_slots() {
    let c = caps();
    let vals = vec![Some(2), Some(7), Some(100), Some(200), Some(8), Some(300), Some(400)];
    let (contacts, count) = read_report(&c, &vals, 2);
    assert_eq!(count, Some(2));
    assert_eq!(contacts, vec![TouchpadContact::new(7, 100, 200), TouchpadContact::new(8, 300, 400)]);

    // Slot 2 at (0, 0) is an empty slot; slot 1 with a failed X read is incomplete.
    let vals = vec![None, Some(7), None, Some(200), Some(8), Some(0), Some(0)];
    let (contacts, count) = read_report(&c, &vals, 2);
    assert_eq!(count, None);
    assert!(contacts.is_empty());
}

#[test]
fn parse_reports_concatenates_reports() {
    let c = caps();
    let reports = vec![
        vec![Some(0), Some(1), Some(10), Some(20), None, None, None],
        vec![Some(3), Some(2), Some(30), Some(40), Some(5), Some(50), Some(60)],
    ];
    let r = parse_reports(99, &c, &reports);
    assert_eq!(r.device, 99);
    assert_eq!(
        r.contacts,
        vec![
            TouchpadContact::new(1, 10, 20),
            TouchpadContact::new(2, 30, 40),
            TouchpadContact::new(5, 50, 60),
        ]
    );
    assert_eq!(r.contact_count, 3);
    assert_eq!(r.x_range, (0, 1200));
    assert_eq!(r.y_range, (0, 800));
}

#[test]
fn parse_reports_count_falls_back_to_contacts_found() {
    let c = caps();
    let reports = vec![vec![Some(0), Some(4), Some(11), Some(12), None, None, None]];
    let r = parse_reports(1, &c, &reports);
    assert_eq!(r.contacts, vec![TouchpadContact::new(4, 11, 12)]);
    assert_eq!(r.contact_count, 1);

    let r = parse_reports(1, &c, &vec![]);
    assert!(r.contacts.is_empty());
    assert_eq!(r.contact_count, 0);
}

#[test]
fn contact_creator_needs_all_fields() {
    let mut cr = TouchpadContactCreator::default();
    assert_eq!(cr.try_create(), None);
    cr.contact_id = Some(3);
    cr.x = Some(4);
    assert_eq!(cr.try_create(), None);
    cr.y = Some(5);
    assert_eq!(cr.try_create(), Some(TouchpadContact::new(3, 4, 5)));
    cr.clear();
    assert_eq!((cr.contact_id, cr.x, cr.y), (None, None, None));
}

#[test]
fn device_info_defaults() {
    let d = TouchpadDeviceInfo::new(17);
    assert_eq!(d.device_id, "default");
    assert_eq!(d.vendor_id, "");
    assert_eq!(d.product_id, "");
    assert_eq!(d.handle, 17);
}

#[test]
fn md5_is_lower_hex() {
    assert_eq!(compute_md5(""), "d41d8cd98f00b204e9800998ecf8427e");
    assert_eq!(compute_md5("abc"), "900150983cd24fb0d6963f7d28e17f72");
}

#[test]
fn touchpad_device_info_from_name() {
    let d = touchpad_device_info(5, 1118, 2336, Some("abc"));
    assert_eq!(d.device_id, "900150983cd24fb0d6963f7d28e17f72");
    assert_eq!(d.vendor_id, "1118");
    assert_eq!(d.product_id, "2336");
    assert_eq!(d.handle, 5);
    let d = touchpad_device_info(6, 0, 7, None);
    assert_eq!(d.device_id, "default");
    assert_eq!(d.vendor_id, "0");
    assert_eq!(d.product_id, "7");
}

#[test]
fn device_name_stops_at_nul() {
    assert_eq!(device_name_from_buffer(b"\\\\?\\HID#VID_1\0junk"), Some("\\\\?\\HID#VID_1".to_string()));
    assert_eq!(device_name_from_buffer(b"abc"), Some("abc".to_string()));
    assert_eq!(device_name_from_buffer(b"\0abc"), Some(String::new()));
    assert_eq!(device_name_from_buffer(&[0xff, 0xfe, 0]), None);
}

#[test]
fn precision_touchpad_usage() {
    assert!(is_precision_touchpad(0x0D, 0x05));
    assert!(!is_precision_touchpad(0x0D, 0x04));
    assert!(!is_precision_touchpad(0x01, 0x05));
}
