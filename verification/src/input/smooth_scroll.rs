use vstd::prelude::*;

verus! {

/// Parameters for creating a synthetic pointer device (the fields of the
/// Windows structure of that name, in order).
#[allow(non_camel_case_types)]
#[derive(Debug, Clone, Copy)]
pub struct SYNTHETIC_DEVICE_CREATION_PARAMS {
    pub pointer_type: u32,
    pub max_count: u32,
    pub feedback_mode: u32,
    pub h_monitor: isize,
    pub device_width: u32,
    pub device_height: u32,
    pub options: u32,
}

/// Parameters of the synthetic touchpad the smooth scroller creates: a
/// touchpad (pointer type 5) with two contacts, no visual feedback (3), a
/// physical size of 100 x 70 mm in himetric, and physical-size plus
/// gesture-only options (3).
pub fn touchpad_device_params() -> (p: SYNTHETIC_DEVICE_CREATION_PARAMS)
    ensures
        p == (SYNTHETIC_DEVICE_CREATION_PARAMS {
            pointer_type: 5,
            max_count: 2,
            feedback_mode: 3,
            h_monitor: 0,
            device_width: 10000,
            device_height: 7000,
            options: 3,
        }),
{
    SYNTHETIC_DEVICE_CREATION_PARAMS {
        pointer_type: 5,
        max_count: 2,
        feedback_mode: 3,
        h_monitor: 0,
        device_width: 10000,
        device_height: 7000,
        options: 3,
    }
}

} // verus!
