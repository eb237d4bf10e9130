use vstd::prelude::*;

verus! {

/// A single touchpad contact (finger) with ID and position.
#[derive(Debug, Clone, Copy, PartialEq, Eq, Structural)]
pub struct TouchpadContact {
    pub contact_id: i32,
    pub x: i32,
    pub y: i32,
}

impl TouchpadContact {
    pub fn new(contact_id: i32, x: i32, y: i32) -> (c: Self)
        ensures
            c.contact_id == contact_id,
            c.x == x,
            c.y == y,
    {
        TouchpadContact { contact_id, x, y }
    }
}

/// Accumulates partial contact fields (id, x, y) from HID value caps.
/// Emits a complete `TouchpadContact` once all three fields are set.
#[derive(Debug, Clone, Copy, Default)]
pub struct TouchpadContactCreator {
    pub contact_id: Option<i32>,
    pub x: Option<i32>,
    pub y: Option<i32>,
}

impl TouchpadContactCreator {
    /// The contact this creator describes, if every field is set.
    pub open spec fn spec_contact(self) -> Option<TouchpadContact> {
        match (self.contact_id, self.x, self.y) {
            (Some(id), Some(x), Some(y)) => Some(TouchpadContact { contact_id: id, x, y }),
            _ => None,
        }
    }

    /// Try to create a complete contact if all fields are present.
    pub fn try_create(&self) -> (r: Option<TouchpadContact>)
        ensures
            r == self.spec_contact(),
    {
        match (self.contact_id, self.x, self.y) {
            (Some(id), Some(x), Some(y)) => Some(TouchpadContact::new(id, x, y)),
            _ => None,
        }
    }

    /// Reset all fields to None.
    pub fn clear(&mut self)
        ensures
            final(self).contact_id is None,
            final(self).x is None,
            final(self).y is None,
    {
        self.contact_id = None;
        self.x = None;
        self.y = None;
    }
}

/// Information about a detected touchpad device.
#[derive(Debug, Clone)]
pub struct TouchpadDeviceInfo {
    /// MD5 hash of the device name string, used as stable identifier.
    pub device_id: String,
    /// USB Vendor ID as a decimal string.
    pub vendor_id: String,
    /// USB Product ID as a decimal string.
    pub product_id: String,
    /// Raw HID device handle.
    pub handle: isize,
}

impl TouchpadDeviceInfo {
    pub fn new(handle: isize) -> (info: Self)
        ensures
            info.device_id@ == "default"@,
            info.vendor_id@ == Seq::<char>::empty(),
            info.product_id@ == Seq::<char>::empty(),
            info.handle == handle,
    {
        TouchpadDeviceInfo {
            device_id: String::from_str("default"),
            vendor_id: String::new(),
            product_id: String::new(),
            handle,
        }
    }
}

} // verus!
