use vstd::prelude::*;

use crate::hid::types::{TouchpadContact, TouchpadContactCreator};

verus! {

/// HID usage page of generic desktop controls (X, Y).
pub const USAGE_PAGE_GENERIC: u16 = 0x01;
/// HID usage page of digitizers (contact id, contact count, scan time).
pub const USAGE_PAGE_DIGITIZER: u16 = 0x0D;
/// Generic desktop X usage.
pub const USAGE_X: u16 = 0x30;
/// Generic desktop Y usage.
pub const USAGE_Y: u16 = 0x31;
/// Digitizer contact identifier usage.
pub const USAGE_CONTACT_ID: u16 = 0x51;
/// Digitizer contact count usage.
pub const USAGE_CONTACT_COUNT: u16 = 0x54;

/// The part of a HID value capability that frame assembly reads.
#[derive(Debug, Clone, Copy)]
pub struct ValueCap {
    pub usage_page: u16,
    pub link_collection: u16,
    pub usage: u16,
    pub logical_min: i32,
    pub logical_max: i32,
}

/// Result of parsing a raw input report into touchpad contacts.
pub struct ParseResult {
    /// Handle value of the device the report came from.
    pub device: isize,
    pub contacts: Vec<TouchpadContact>,
    pub contact_count: u32,
    /// Touchpad logical X range [min, max].
    pub x_range: (i32, i32),
    /// Touchpad logical Y range [min, max].
    pub y_range: (i32, i32),
}

pub open spec fn cap_matches(c: ValueCap, link: u16, page: u16, usage: u16) -> bool {
    c.link_collection == link && c.usage_page == page && c.usage == usage
}

/// The value read for the last of the first `n` caps that matches
/// (link, page, usage) and whose read succeeded.
pub open spec fn last_value(
    caps: Seq<ValueCap>,
    vals: Seq<Option<u32>>,
    n: int,
    link: u16,
    page: u16,
    usage: u16,
) -> Option<u32>
    decreases n,
{
    if n <= 0 {
        None
    } else if cap_matches(caps[n - 1], link, page, usage) && vals[n - 1] is Some {
        vals[n - 1]
    } else {
        last_value(caps, vals, n - 1, link, page, usage)
    }
}

/// Logical (min, max) of the last of the first `n` caps that describes
/// `usage` on the generic page in link collection 1, or (0, 0).
pub open spec fn last_range(caps: Seq<ValueCap>, n: int, usage: u16) -> (i32, i32)
    decreases n,
{
    if n <= 0 {
        (0, 0)
    } else if cap_matches(caps[n - 1], 1, USAGE_PAGE_GENERIC, usage) {
        (caps[n - 1].logical_min, caps[n - 1].logical_max)
    } else {
        last_range(caps, n - 1, usage)
    }
}

/// Largest link collection among the first `n` caps (0 when there is none).
pub open spec fn max_link(caps: Seq<ValueCap>, n: int) -> u16
    decreases n,
{
    if n <= 0 {
        0
    } else {
        let m = max_link(caps, n - 1);
        if caps[n - 1].link_collection > m {
            caps[n - 1].link_collection
        } else {
            m
        }
    }
}

pub open spec fn as_i32(v: Option<u32>) -> Option<i32> {
    match v {
        Some(u) => Some(u as i32),
        None => None,
    }
}

/// The contact that contact slot `s` describes in one report, if its id,
/// X and Y were all read.
pub open spec fn slot_contact(caps: Seq<ValueCap>, vals: Seq<Option<u32>>, s: u16) -> Option<TouchpadContact> {
    let n = caps.len() as int;
    match (
        last_value(caps, vals, n, s, USAGE_PAGE_DIGITIZER, USAGE_CONTACT_ID),
        last_value(caps, vals, n, s, USAGE_PAGE_GENERIC, USAGE_X),
        last_value(caps, vals, n, s, USAGE_PAGE_GENERIC, USAGE_Y),
    ) {
        (Some(id), Some(x), Some(y)) => Some(
            TouchpadContact { contact_id: id as i32, x: x as i32, y: y as i32 },
        ),
        _ => None,
    }
}

/// Contacts emitted by slots 1..=m of one report: complete slots whose
/// position is not (0, 0), in slot order.
pub open spec fn slot_contacts(caps: Seq<ValueCap>, vals: Seq<Option<u32>>, m: int) -> Seq<TouchpadContact>
    decreases m,
{
    if m <= 0 {
        Seq::empty()
    } else {
        let prev = slot_contacts(caps, vals, m - 1);
        match slot_contact(caps, vals, m as u16) {
            Some(c) => if c.x != 0 || c.y != 0 {
                prev.push(c)
            } else {
                prev
            },
            None => prev,
        }
    }
}

/// Contacts of all reports, report after report.
pub open spec fn frame_contacts(caps: Seq<ValueCap>, reports: Seq<Seq<Option<u32>>>, m: int) -> Seq<TouchpadContact>
    decreases reports.len(),
{
    if reports.len() == 0 {
        Seq::empty()
    } else {
        frame_contacts(caps, reports.drop_last(), m) + slot_contacts(caps, reports.last(), m)
    }
}

/// The contact count read last over all reports, if any read succeeded.
pub open spec fn reported_count(caps: Seq<ValueCap>, reports: Seq<Seq<Option<u32>>>) -> Option<u32>
    decreases reports.len(),
{
    if reports.len() == 0 {
        None
    } else {
        match last_value(caps, reports.last(), caps.len() as int, 0, USAGE_PAGE_DIGITIZER, USAGE_CONTACT_COUNT) {
            Some(v) => Some(v),
            None => reported_count(caps, reports.drop_last()),
        }
    }
}

/// Whether every report holds one read result per value cap.
pub open spec fn reports_aligned(caps: Seq<ValueCap>, reports: Seq<Seq<Option<u32>>>) -> bool {
    forall|r: int| 0 <= r < reports.len() ==> (#[trigger] reports[r]).len() == caps.len()
}


/// Read results of every report, as plain sequences.
pub open spec fn report_views(reports: Seq<Vec<Option<u32>>>) -> Seq<Seq<Option<u32>>> {
    reports.map_values(|v: Vec<Option<u32>>| v@)
}

/// The contact count a frame reports: the count read from the device when it
/// is positive, otherwise the number of contacts found.
pub open spec fn final_count(read: Option<u32>, found: nat) -> u32 {
    match read {
        Some(v) => if v > 0 {
            v
        } else {
            found as u32
        },
        None => found as u32,
    }
}

/// Whether no contact of `s` sits at position (0, 0).
pub open spec fn none_at_origin(s: Seq<TouchpadContact>) -> bool {
    forall|i: int| 0 <= i < s.len() ==> !((#[trigger] s[i]).x == 0 && s[i].y == 0)
}

proof fn lemma_slot_contacts_off_origin(caps: Seq<ValueCap>, vals: Seq<Option<u32>>, m: int)
    ensures
        none_at_origin(slot_contacts(caps, vals, m)),
    decreases m,
{
    if m > 0 {
        lemma_slot_contacts_off_origin(caps, vals, m - 1);
        let prev = slot_contacts(caps, vals, m - 1);
        match slot_contact(caps, vals, m as u16) {
            Some(c) => if c.x != 0 || c.y != 0 {
                let s = prev.push(c);
                assert forall|i: int| 0 <= i < s.len() implies !((#[trigger] s[i]).x == 0 && s[i].y == 0) by {
                    if i < prev.len() {
                        assert(s[i] == prev[i]);
                    }
                }
            },
            None => {},
        }
    }
}

/// A frame never holds a contact at position (0, 0): a slot that reports
/// that position is an empty slot, whatever the reports and slot count.
pub proof fn lemma_frame_has_no_contact_at_origin(caps: Seq<ValueCap>, reports: Seq<Seq<Option<u32>>>, m: int)
    ensures
        none_at_origin(frame_contacts(caps, reports, m)),
    decreases reports.len(),
{
    if reports.len() > 0 {
        lemma_frame_has_no_contact_at_origin(caps, reports.drop_last(), m);
        lemma_slot_contacts_off_origin(caps, reports.last(), m);
        let a = frame_contacts(caps, reports.drop_last(), m);
        let b = slot_contacts(caps, reports.last(), m);
        let s = a + b;
        assert forall|i: int| 0 <= i < s.len() implies !((#[trigger] s[i]).x == 0 && s[i].y == 0) by {
            if i < a.len() {
                assert(s[i] == a[i]);
            } else {
                assert(s[i] == b[i - a.len()]);
            }
        }
    }
}

/// Touchpad logical X and Y ranges described by the caps of link collection 1.
pub fn touchpad_ranges(caps: &Vec<ValueCap>) -> (r: ((i32, i32), (i32, i32)))
    ensures
        r.0 == last_range(caps@, caps@.len() as int, USAGE_X),
        r.1 == last_range(caps@, caps@.len() as int, USAGE_Y),
{
    let mut x_range: (i32, i32) = (0, 0);
    let mut y_range: (i32, i32) = (0, 0);
    let mut k: usize = 0;
    while k < caps.len()
        invariant
            0 <= k <= caps@.len(),
            x_range == last_range(caps@, k as int, USAGE_X),
            y_range == last_range(caps@, k as int, USAGE_Y),
        decreases caps@.len() - k,
    {
        let vc = caps[k];
        if vc.link_collection == 1 && vc.usage_page == USAGE_PAGE_GENERIC {
            if vc.usage == USAGE_X {
                x_range = (vc.logical_min, vc.logical_max);
            } else if vc.usage == USAGE_Y {
                y_range = (vc.logical_min, vc.logical_max);
            }
        }
        k += 1;
    }
    (x_range, y_range)
}

/// Largest link collection of the caps: the number of contact slots.
pub fn max_link_collection(caps: &Vec<ValueCap>) -> (m: u16)
    ensures
        m == max_link(caps@, caps@.len() as int),
{
    let mut m: u16 = 0;
    let mut k: usize = 0;
    while k < caps.len()
        invariant
            0 <= k <= caps@.len(),
            m == max_link(caps@, k as int),
        decreases caps@.len() - k,
    {
        if caps[k].link_collection > m {
            m = caps[k].link_collection;
        }
        k += 1;
    }
    m
}

/// Contacts of one report (slots 1..=`slots`) and the contact count it read.
pub fn read_report(caps: &Vec<ValueCap>, vals: &Vec<Option<u32>>, slots: u16) -> (r: (
    Vec<TouchpadContact>,
    Option<u32>,
))
    requires
        vals@.len() == caps@.len(),
    ensures
        r.0@ == slot_contacts(caps@, vals@, slots as int),
        r.1 == last_value(caps@, vals@, caps@.len() as int, 0, USAGE_PAGE_DIGITIZER, USAGE_CONTACT_COUNT),
{
    let n_slots: usize = slots as usize + 1;
    let mut creators: Vec<TouchpadContactCreator> = Vec::new();
    while creators.len() < n_slots
        invariant
            creators@.len() <= n_slots,
            forall|s: int| 0 <= s < creators@.len() ==> (#[trigger] creators@[s]).contact_id is None
                && creators@[s].x is None && creators@[s].y is None,
        decreases n_slots - creators@.len(),
    {
        creators.push(TouchpadContactCreator { contact_id: None, x: None, y: None });
    }
    let mut count: Option<u32> = None;
    let mut k: usize = 0;
    while k < caps.len()
        invariant
            vals@.len() == caps@.len(),
            0 <= k <= caps@.len(),
            creators@.len() == n_slots,
            n_slots == slots as usize + 1,
            forall|s: int|
                1 <= s < n_slots ==> {
                    &&& (#[trigger] creators@[s]).contact_id == as_i32(
                        last_value(caps@, vals@, k as int, s as u16, USAGE_PAGE_DIGITIZER, USAGE_CONTACT_ID),
                    )
                    &&& creators@[s].x == as_i32(
                        last_value(caps@, vals@, k as int, s as u16, USAGE_PAGE_GENERIC, USAGE_X),
                    )
                    &&& creators@[s].y == as_i32(
                        last_value(caps@, vals@, k as int, s as u16, USAGE_PAGE_GENERIC, USAGE_Y),
                    )
                },
            count == last_value(caps@, vals@, k as int, 0, USAGE_PAGE_DIGITIZER, USAGE_CONTACT_COUNT),
        decreases caps@.len() - k,
    {
        let cap = caps[k];
        match vals[k] {
            Some(v) => {
                if cap.link_collection == 0 {
                    if cap.usage_page == USAGE_PAGE_DIGITIZER && cap.usage == USAGE_CONTACT_COUNT {
                        count = Some(v);
                    }
                } else {
                    let idx = cap.link_collection as usize;
                    if idx < creators.len() {
                        let mut cr = creators[idx];
                        if cap.usage_page == USAGE_PAGE_DIGITIZER && cap.usage == USAGE_CONTACT_ID {
                            cr.contact_id = Some(v as i32);
                        } else if cap.usage_page == USAGE_PAGE_GENERIC && cap.usage == USAGE_X {
                            cr.x = Some(v as i32);
                        } else if cap.usage_page == USAGE_PAGE_GENERIC && cap.usage == USAGE_Y {
                            cr.y = Some(v as i32);
                        }
                        creators.set(idx, cr);
                    }
                }
            },
            None => {},
        }
        k += 1;
    }
    let mut out: Vec<TouchpadContact> = Vec::new();
    let mut s: usize = 1;
    while s < n_slots
        invariant
            vals@.len() == caps@.len(),
            1 <= s <= n_slots,
            creators@.len() == n_slots,
            n_slots == slots as usize + 1,
            forall|t: int|
                1 <= t < n_slots ==> (#[trigger] creators@[t]).spec_contact() == slot_contact(
                    caps@,
                    vals@,
                    t as u16,
                ),
            out@ == slot_contacts(caps@, vals@, s as int - 1),
        decreases n_slots - s,
    {
        if let Some(contact) = creators[s].try_create() {
            // Skip empty contact slots at (0, 0).
            if contact.x != 0 || contact.y != 0 {
                out.push(contact);
            }
        }
        s += 1;
    }
    (out, count)
}

/// Assemble the contacts of a raw input packet.
///
/// `caps` are the input value capabilities of the device and
/// `reports[r][k]` the value read for `caps[k]` in the packet's report `r`
/// (`None` where the read failed). Within each report, a contact slot
/// (link collection >= 1) yields a contact once its id, X and Y were read,
/// unless its position is (0, 0); the last successful read of a field wins.
/// Conflicting reads only ever come from caps of the same link collection,
/// so the order of caps across link collections does not matter.
pub fn parse_reports(device: isize, caps: &Vec<ValueCap>, reports: &Vec<Vec<Option<u32>>>) -> (r: ParseResult)
    requires
        reports_aligned(caps@, report_views(reports@)),
    ensures
        ({
            let views = report_views(reports@);
            let m = max_link(caps@, caps@.len() as int) as int;
            &&& r.device == device
            &&& r.contacts@ == frame_contacts(caps@, views, m)
            &&& r.contact_count == final_count(reported_count(caps@, views), r.contacts@.len())
            &&& r.x_range == last_range(caps@, caps@.len() as int, USAGE_X)
            &&& r.y_range == last_range(caps@, caps@.len() as int, USAGE_Y)
        }),
        forall|i: int| 0 <= i < r.contacts@.len() ==> !((#[trigger] r.contacts@[i]).x == 0 && r.contacts@[i].y == 0),
{
    let ghost views = report_views(reports@);
    let (x_range, y_range) = touchpad_ranges(caps);
    let slots = max_link_collection(caps);
    let mut contacts: Vec<TouchpadContact> = Vec::new();
    let mut count: Option<u32> = None;
    let mut r: usize = 0;
    while r < reports.len()
        invariant
            views == report_views(reports@),
            reports_aligned(caps@, views),
            0 <= r <= reports@.len(),
            contacts@ == frame_contacts(caps@, views.take(r as int), slots as int),
            count == reported_count(caps@, views.take(r as int)),
        decreases reports@.len() - r,
    {
        assert(views[r as int] == reports@[r as int]@);
        let (mut found, read) = read_report(caps, &reports[r], slots);
        proof {
            assert(views.take(r as int + 1).drop_last() == views.take(r as int));
            assert(views.take(r as int + 1).last() == reports@[r as int]@);
        }
        contacts.append(&mut found);
        if read.is_some() {
            count = read;
        }
        r += 1;
    }
    proof {
        assert(views.take(reports@.len() as int) == views);
        lemma_frame_has_no_contact_at_origin(caps@, views, slots as int);
    }
    let read_count: u32 = match count {
        Some(v) => v,
        None => 0,
    };
    let contact_count = if read_count > 0 {
        read_count
    } else {
        contacts.len() as u32
    };
    ParseResult { device, contacts, contact_count, x_range, y_range }
}

} // verus!
