//! Debug mode: a bounded in-memory log of recent events and the latest
//! device diagnostics.

use vstd::prelude::*;

use std::collections::VecDeque;

use crate::text::{digits, digits_exec, push_char, zero_pad, zero_pad_exec};

verus! {

/// Most log entries kept; older entries are dropped first.
pub const MAX_DEBUG_LOGS: usize = 500;

/// One debug log line.
#[derive(Debug)]
pub struct DebugLogEntry {
    pub time: String,
    pub level: String,
    pub message: String,
}

impl Clone for DebugLogEntry {
    fn clone(&self) -> (c: Self)
        ensures
            c == *self,
    {
        DebugLogEntry { time: self.time.clone(), level: self.level.clone(), message: self.message.clone() }
    }
}

/// What is known of the touchpad device, for the diagnostics page.
#[derive(Debug)]
pub struct DeviceDiagnostics {
    pub device_detected: bool,
    pub device_id: String,
    pub vendor_id: String,
    pub product_id: String,
    pub x_range: (i32, i32),
    pub y_range: (i32, i32),
    pub last_contact_count: u32,
    pub last_contacts_str: String,
}

impl Clone for DeviceDiagnostics {
    fn clone(&self) -> (c: Self)
        ensures
            c == *self,
    {
        DeviceDiagnostics {
            device_detected: self.device_detected,
            device_id: self.device_id.clone(),
            vendor_id: self.vendor_id.clone(),
            product_id: self.product_id.clone(),
            x_range: self.x_range,
            y_range: self.y_range,
            last_contact_count: self.last_contact_count,
            last_contacts_str: self.last_contacts_str.clone(),
        }
    }
}

/// Diagnostics before any device was seen.
pub open spec fn no_diagnostics(d: DeviceDiagnostics) -> bool {
    &&& !d.device_detected
    &&& d.device_id@ == Seq::<char>::empty()
    &&& d.vendor_id@ == Seq::<char>::empty()
    &&& d.product_id@ == Seq::<char>::empty()
    &&& d.x_range == (0i32, 0i32)
    &&& d.y_range == (0i32, 0i32)
    &&& d.last_contact_count == 0
    &&& d.last_contacts_str@ == Seq::<char>::empty()
}

impl Default for DeviceDiagnostics {
    fn default() -> (d: Self)
        ensures
            no_diagnostics(d),
    {
        DeviceDiagnostics {
            device_detected: false,
            device_id: String::new(),
            vendor_id: String::new(),
            product_id: String::new(),
            x_range: (0, 0),
            y_range: (0, 0),
            last_contact_count: 0,
            last_contacts_str: String::new(),
        }
    }
}

/// Debug mode switch, recent log entries and latest device diagnostics.
pub struct DebugState {
    enabled: bool,
    logs: VecDeque<DebugLogEntry>,
    device: Option<DeviceDiagnostics>,
}

impl DebugState {
    pub closed spec fn enabled(self) -> bool {
        self.enabled
    }

    pub closed spec fn logs(self) -> Seq<DebugLogEntry> {
        self.logs@
    }

    pub closed spec fn device(self) -> Option<DeviceDiagnostics> {
        self.device
    }

    /// The log never holds more than `MAX_DEBUG_LOGS` entries.
    pub open spec fn wf(self) -> bool {
        self.logs().len() <= MAX_DEBUG_LOGS
    }

    pub fn new() -> (s: Self)
        ensures
            !s.enabled(),
            s.logs() == Seq::<DebugLogEntry>::empty(),
            s.device() is None,
            s.wf(),
    {
        DebugState { enabled: false, logs: VecDeque::new(), device: None }
    }
}

/// Switch debug mode; switching it off forgets the collected logs.
pub fn set_debug_mode_enabled(state: &mut DebugState, enabled: bool)
    requires
        old(state).wf(),
    ensures
        final(state).wf(),
        final(state).enabled() == enabled,
        final(state).logs() == (if enabled {
            old(state).logs()
        } else {
            Seq::<DebugLogEntry>::empty()
        }),
        final(state).device() == old(state).device(),
{
    state.enabled = enabled;
    if !enabled {
        clear_debug_logs(state);
    }
}

pub fn is_debug_mode_enabled(state: &DebugState) -> (r: bool)
    ensures
        r == state.enabled(),
{
    state.enabled
}

/// The log after recording `entry`: unchanged while debug mode is off,
/// otherwise `entry` appended, dropping the oldest entry when full.
pub open spec fn logged(logs: Seq<DebugLogEntry>, enabled: bool, entry: DebugLogEntry) -> Seq<
    DebugLogEntry,
> {
    if !enabled {
        logs
    } else if logs.len() >= MAX_DEBUG_LOGS {
        logs.drop_first().push(entry)
    } else {
        logs.push(entry)
    }
}

/// Record a log entry, if debug mode is on, stamped with the time of day
/// (`HH:MM:SS.mmm`) of the clock reading `secs` seconds since the epoch
/// and `millis` milliseconds.
pub fn log_debug(state: &mut DebugState, secs: u64, millis: u64, level: &str, message: String)
    requires
        old(state).wf(),
        millis < 1000,
    ensures
        final(state).wf(),
        final(state).enabled() == old(state).enabled(),
        final(state).device() == old(state).device(),
        !old(state).enabled() ==> final(state).logs() == old(state).logs(),
        old(state).enabled() ==> {
            let e = final(state).logs().last();
            &&& final(state).logs() == logged(old(state).logs(), true, e)
            &&& e.time@ == log_time(secs, millis)
            &&& e.level@ == level@
            &&& e.message == message
        },
{
    if !state.enabled {
        return;
    }
    let time = format_log_time(secs, millis);
    let entry = DebugLogEntry { time, level: String::from_str(level), message };
    if state.logs.len() >= MAX_DEBUG_LOGS {
        state.logs.pop_front();
    }
    state.logs.push_back(entry);
}

pub fn update_device_diagnostics(state: &mut DebugState, diag: DeviceDiagnostics)
    ensures
        final(state).device() == Some(diag),
        final(state).enabled() == old(state).enabled(),
        final(state).logs() == old(state).logs(),
{
    state.device = Some(diag);
}

/// The latest diagnostics, or empty diagnostics before any update.
pub fn get_device_diagnostics(state: &DebugState) -> (d: DeviceDiagnostics)
    ensures
        state.device() matches Some(x) ==> d == x,
        state.device() is None ==> no_diagnostics(d),
{
    match &state.device {
        Some(d) => d.clone(),
        None => DeviceDiagnostics::default(),
    }
}

/// The collected log entries, oldest first.
pub fn get_debug_logs(state: &DebugState) -> (r: Vec<DebugLogEntry>)
    ensures
        r@ == state.logs(),
{
    let mut r: Vec<DebugLogEntry> = Vec::new();
    let mut i: usize = 0;
    while i < state.logs.len()
        invariant
            0 <= i <= state.logs@.len(),
            r@ == state.logs@.take(i as int),
        decreases state.logs@.len() - i,
    {
        r.push(state.logs[i].clone());
        proof {
            assert(state.logs@.take(i as int + 1) == state.logs@.take(i as int).push(state.logs@[i as int]));
        }
        i += 1;
    }
    proof {
        assert(state.logs@.take(state.logs@.len() as int) == state.logs@);
    }
    r
}

pub fn clear_debug_logs(state: &mut DebugState)
    ensures
        final(state).logs() == Seq::<DebugLogEntry>::empty(),
        final(state).enabled() == old(state).enabled(),
        final(state).device() == old(state).device(),
{
    state.logs.clear();
}

/// Wall-clock time of day `HH:MM:SS.mmm` (UTC+8) for a log entry, from
/// seconds since the epoch and the milliseconds within the second.
pub open spec fn log_time(secs: u64, millis: u64) -> Seq<char> {
    let hours = ((secs / 3600 + 8) % 24) as nat;
    let mins = ((secs / 60) % 60) as nat;
    let s = (secs % 60) as nat;
    zero_pad(digits(hours, 10), 2) + seq![':'] + zero_pad(digits(mins, 10), 2) + seq![':']
        + zero_pad(digits(s, 10), 2) + seq!['.'] + zero_pad(digits(millis as nat, 10), 3)
}

fn append_chars(s: &mut String, v: &Vec<char>)
    ensures
        final(s)@ == old(s)@ + v@,
{
    let ghost start = s@;
    let mut i: usize = 0;
    while i < v.len()
        invariant
            0 <= i <= v@.len(),
            s@ == start + v@.take(i as int),
        decreases v@.len() - i,
    {
        push_char(s, v[i]);
        proof {
            assert(v@.take(i as int + 1) == v@.take(i as int).push(v@[i as int]));
        }
        i += 1;
    }
    proof {
        assert(v@.take(v@.len() as int) == v@);
    }
}

/// Format the time of day of a log entry.
pub fn format_log_time(secs: u64, millis: u64) -> (r: String)
    requires
        millis < 1000,
    ensures
        r@ == log_time(secs, millis),
{
    let hours = ((secs / 3600 + 8) % 24) as u32;
    let mins = ((secs / 60) % 60) as u32;
    let s = (secs % 60) as u32;
    let mut out = String::new();
    append_chars(&mut out, &zero_pad_exec(digits_exec(hours, 10), 2));
    push_char(&mut out, ':');
    append_chars(&mut out, &zero_pad_exec(digits_exec(mins, 10), 2));
    push_char(&mut out, ':');
    append_chars(&mut out, &zero_pad_exec(digits_exec(s, 10), 2));
    push_char(&mut out, '.');
    append_chars(&mut out, &zero_pad_exec(digits_exec(millis as u32, 10), 3));
    out
}

/// The log keeps the newest entries: recording an entry in debug mode makes
/// it the last one, keeps everything logged before it except (when full)
/// the oldest entry, and never lets the log grow past `MAX_DEBUG_LOGS`.
pub proof fn lemma_log_keeps_newest(logs: Seq<DebugLogEntry>, entry: DebugLogEntry)
    requires
        logs.len() <= MAX_DEBUG_LOGS,
    ensures
        logged(logs, true, entry).len() <= MAX_DEBUG_LOGS,
        logged(logs, true, entry).last() == entry,
        logs.len() < MAX_DEBUG_LOGS ==> logged(logs, true, entry).drop_last() == logs,
        logs.len() == MAX_DEBUG_LOGS ==> logged(logs, true, entry).drop_last() == logs.drop_first(),
        logged(logs, false, entry) == logs,
{
    assert(logs.push(entry).drop_last() == logs);
    if logs.len() > 0 {
        assert(logs.drop_first().push(entry).drop_last() == logs.drop_first());
    }
}

} // verus!
