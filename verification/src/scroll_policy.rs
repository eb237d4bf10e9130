//! Scroll policy: decides whether smooth scrolling applies to the current
//! foreground window.
//!
//! The filter chain is evaluated in priority order and the first rule that
//! vetoes decides:
//!   1. fullscreen windows, when "disable in fullscreen" is on;
//!   2. blacklisted applications;
//!   3. non-browsers, when "browsers only" is on;
//!   4. applications missing from a non-empty whitelist.
//! A window that passes every enabled rule gets smooth scrolling.

use vstd::prelude::*;

use crate::config::AppPolicyItem;
use crate::text::{
    chars_eq, chars_of, is_single, lowercase, string_of, to_lowercase, trim, trim_spec,
};

verus! {

/// Tolerance (px) for fullscreen detection: window borders may slightly
/// overshoot or undershoot the monitor rect.
pub const FULLSCREEN_TOLERANCE: i32 = 2;

/// Policy configuration snapshot.
#[derive(Debug, Clone)]
pub struct PolicyConfig {
    pub enabled: bool,
    pub fullscreen_disabled: bool,
    pub blacklist_enabled: bool,
    pub browser_only: bool,
    pub whitelist_enabled: bool,
    pub blacklist: Vec<AppPolicyItem>,
    pub whitelist: Vec<AppPolicyItem>,
}

impl Default for PolicyConfig {
    fn default() -> (c: Self)
        ensures
            !c.enabled && !c.fullscreen_disabled && !c.blacklist_enabled && !c.browser_only
                && !c.whitelist_enabled,
            c.blacklist@.len() == 0 && c.whitelist@.len() == 0,
    {
        PolicyConfig {
            enabled: false,
            fullscreen_disabled: false,
            blacklist_enabled: false,
            browser_only: false,
            whitelist_enabled: false,
            blacklist: Vec::new(),
            whitelist: Vec::new(),
        }
    }
}

/// Geometry and identity of the foreground window at evaluation time.
#[derive(Debug)]
pub struct ForegroundInfo {
    /// Process base name, lowercased, without `.exe` (e.g. `"chrome"`);
    /// empty if the process name could not be resolved.
    pub process_name: String,
    /// Process full image path, lowercased.
    pub process_path: String,
    /// Window rect: (left, top, right, bottom).
    pub rect: (i32, i32, i32, i32),
    /// Full monitor rect of the monitor nearest the window.
    pub monitor_rect: (i32, i32, i32, i32),
    /// Working-area rect of the same monitor.
    pub monitor_work: (i32, i32, i32, i32),
}

impl Clone for ForegroundInfo {
    fn clone(&self) -> (c: Self)
        ensures
            c == *self,
    {
        ForegroundInfo {
            process_name: self.process_name.clone(),
            process_path: self.process_path.clone(),
            rect: self.rect,
            monitor_rect: self.monitor_rect,
            monitor_work: self.monitor_work,
        }
    }
}

/// The monitor rect leaves room for the tolerance without leaving `i32`.
pub open spec fn tolerance_fits(m: (i32, i32, i32, i32)) -> bool {
    &&& m.0 + FULLSCREEN_TOLERANCE <= i32::MAX
    &&& m.1 + FULLSCREEN_TOLERANCE <= i32::MAX
    &&& m.2 - FULLSCREEN_TOLERANCE >= i32::MIN
    &&& m.3 - FULLSCREEN_TOLERANCE >= i32::MIN
}

/// The window rect covers the monitor rect, up to the tolerance.
pub open spec fn covers(rect: (i32, i32, i32, i32), m: (i32, i32, i32, i32)) -> bool {
    &&& rect.0 <= m.0 + FULLSCREEN_TOLERANCE
    &&& rect.1 <= m.1 + FULLSCREEN_TOLERANCE
    &&& rect.2 >= m.2 - FULLSCREEN_TOLERANCE
    &&& rect.3 >= m.3 - FULLSCREEN_TOLERANCE
}

/// Whether the window rect covers the full monitor rect (within tolerance).
/// Borderless fullscreen windows count; maximized windows, which stop short
/// of the taskbar, do not.
pub fn is_fullscreen(info: &ForegroundInfo) -> (r: bool)
    requires
        tolerance_fits(info.monitor_rect),
    ensures
        r == covers(info.rect, info.monitor_rect),
{
    is_fullscreen_internal(info.rect, info.monitor_rect)
}

/// Fullscreen check on plain rects.
pub fn is_fullscreen_internal(rect: (i32, i32, i32, i32), monitor: (i32, i32, i32, i32)) -> (r: bool)
    requires
        tolerance_fits(monitor),
    ensures
        r == covers(rect, monitor),
{
    rect.0 <= monitor.0 + FULLSCREEN_TOLERANCE && rect.1 <= monitor.1 + FULLSCREEN_TOLERANCE
        && rect.2 >= monitor.2 - FULLSCREEN_TOLERANCE && rect.3 >= monitor.3
        - FULLSCREEN_TOLERANCE
}

pub open spec fn is_path_sep(c: char) -> bool {
    c == '\\' || c == '/'
}

/// The part of `s` after its last path separator.
pub open spec fn base_name(s: Seq<char>) -> Seq<char>
    decreases s.len(),
{
    if s.len() == 0 {
        s
    } else if is_path_sep(s.last()) {
        Seq::empty()
    } else {
        base_name(s.drop_last()).push(s.last())
    }
}

/// `s` ends in `.exe` (ASCII case-insensitive) after at least one more character.
pub open spec fn has_exe_suffix(s: Seq<char>) -> bool {
    let n = s.len() as int;
    &&& n > 4
    &&& s[n - 4] == '.'
    &&& (s[n - 3] == 'e' || s[n - 3] == 'E')
    &&& (s[n - 2] == 'x' || s[n - 2] == 'X')
    &&& (s[n - 1] == 'e' || s[n - 1] == 'E')
}

pub open spec fn strip_exe(s: Seq<char>) -> Seq<char> {
    if has_exe_suffix(s) {
        s.take(s.len() - 4)
    } else {
        s
    }
}

/// Comparable base name of a process path or name: path stripped, `.exe`
/// removed, lowercased.
pub open spec fn normalize_spec(s: Seq<char>) -> Seq<char> {
    lowercase(strip_exe(base_name(s)))
}

/// Bytes `c` takes in UTF-8.
pub open spec fn utf8_len(c: char) -> nat {
    let u = c as u32;
    if u < 0x80 {
        1
    } else if u < 0x800 {
        2
    } else if u < 0x10000 {
        3
    } else {
        4
    }
}

/// Bytes `s` takes in UTF-8.
pub open spec fn utf8_len_of(s: Seq<char>) -> nat
    decreases s.len(),
{
    if s.len() == 0 {
        0
    } else {
        utf8_len_of(s.drop_last()) + utf8_len(s.last())
    }
}

/// Whether some suffix of `s` takes exactly `n` bytes in UTF-8.
pub open spec fn suffix_of_bytes(s: Seq<char>, n: nat) -> bool
    decreases s.len(),
{
    if n == 0 {
        true
    } else if s.len() == 0 || utf8_len(s.last()) > n {
        false
    } else {
        suffix_of_bytes(s.drop_last(), (n - utf8_len(s.last())) as nat)
    }
}

/// Whether the `.exe` test of `normalize_process` can read the last four
/// bytes of the base name: it cannot when the name is longer than four
/// bytes and those bytes start inside a character.
pub open spec fn exe_test_ok(s: Seq<char>) -> bool {
    let b = base_name(s);
    utf8_len_of(b) <= 4 || suffix_of_bytes(b, 4)
}

/// The characters after the last path separator.
fn base_name_chars(v: &Vec<char>) -> (b: Vec<char>)
    ensures
        b@ == base_name(v@),
{
    let n = v.len();
    let mut start: usize = 0;
    let mut i: usize = 0;
    while i < n
        invariant
            n == v@.len(),
            0 <= start <= i <= n,
            base_name(v@.take(i as int)) == v@.subrange(start as int, i as int),
        decreases n - i,
    {
        proof {
            assert(v@.take(i as int + 1).drop_last() == v@.take(i as int));
            assert(v@.take(i as int + 1).last() == v@[i as int]);
            assert(v@.subrange(start as int, i as int + 1) == v@.subrange(start as int, i as int).push(
                v@[i as int],
            ));
        }
        if v[i] == '\\' || v[i] == '/' {
            start = i + 1;
            proof {
                assert(v@.subrange(start as int, start as int) == Seq::<char>::empty());
            }
        }
        i += 1;
    }
    proof {
        assert(v@.take(n as int) == v@);
    }
    let mut b: Vec<char> = Vec::new();
    let mut j: usize = start;
    while j < n
        invariant
            n == v@.len(),
            start <= j <= n,
            b@ == v@.subrange(start as int, j as int),
        decreases n - j,
    {
        b.push(v[j]);
        proof {
            assert(v@.subrange(start as int, j as int + 1) == v@.subrange(start as int, j as int).push(
                v@[j as int],
            ));
        }
        j += 1;
    }
    b
}

fn utf8_len_exec(c: char) -> (l: u64)
    ensures
        l == utf8_len(c),
{
    let u = c as u32;
    if u < 0x80 {
        1
    } else if u < 0x800 {
        2
    } else if u < 0x10000 {
        3
    } else {
        4
    }
}

proof fn lemma_utf8_len_positive(c: char)
    ensures
        utf8_len(c) >= 1,
{
}

/// Whether `v` takes at most four bytes or ends in characters taking
/// exactly four bytes.
fn four_byte_tail_ok(v: &Vec<char>) -> (r: bool)
    ensures
        r == (utf8_len_of(v@) <= 4 || suffix_of_bytes(v@, 4)),
{
    let n = v.len();
    let mut k: usize = 0;
    let mut acc: u64 = 0;
    assert(v@.take(n as int) == v@);
    while k < n
        invariant
            n == v@.len(),
            0 <= k <= n,
            acc < 4,
            utf8_len_of(v@) == utf8_len_of(v@.take(n - k)) + acc,
            suffix_of_bytes(v@, 4) == suffix_of_bytes(v@.take(n - k), (4 - acc) as nat),
        decreases n - k,
    {
        let c = v[n - 1 - k];
        let l = utf8_len_exec(c);
        let ghost t = v@.take(n - k);
        proof {
            assert(t.last() == c);
            assert(t.drop_last() == v@.take(n - k - 1));
            lemma_utf8_len_positive(c);
            assert(utf8_len_of(t) == utf8_len_of(t.drop_last()) + l);
        }
        if l > 4 - acc {
            assert(!suffix_of_bytes(t, (4 - acc) as nat));
            return false;
        }
        proof {
            assert(suffix_of_bytes(t, (4 - acc) as nat) == suffix_of_bytes(t.drop_last(), (4 - acc - l) as nat));
        }
        acc = acc + l;
        k += 1;
        if acc == 4 {
            assert(suffix_of_bytes(v@.take(n - k), 0));
            return true;
        }
    }
    proof {
        assert(v@.take(0) == Seq::<char>::empty());
    }
    true
}

/// Whether `normalize_process` accepts `name` (see `exe_test_ok`).
pub fn can_normalize(name: &str) -> (r: bool)
    ensures
        r == exe_test_ok(name@),
{
    let v = chars_of(name);
    let b = base_name_chars(&v);
    four_byte_tail_ok(&b)
}

/// Normalize a process image path/name to a comparable base name:
/// lowercase, extension removed, path stripped
/// (e.g. `C:\...\Chrome.EXE` becomes `chrome`). The extension test reads
/// the last four bytes of the base name, so names whose last four bytes
/// start inside a character are not accepted.
pub fn normalize_process(name: &str) -> (r: String)
    requires
        exe_test_ok(name@),
    ensures
        r@ == normalize_spec(name@),
{
    let v = chars_of(name);
    let mut base = base_name_chars(&v);
    let b = base.len();
    if b > 4 && base[b - 4] == '.' && (base[b - 3] == 'e' || base[b - 3] == 'E') && (base[b - 2]
        == 'x' || base[b - 2] == 'X') && (base[b - 1] == 'e' || base[b - 1] == 'E') {
        base.truncate(b - 4);
    }
    let stem = string_of(&base);
    to_lowercase(stem.as_str())
}

/// Whether a policy entry matches a process, given the lowercased process
/// name and path: the wildcard `*` as name or path, the same non-empty path,
/// or the same non-empty normalized name.
pub open spec fn entry_matches(entry: AppPolicyItem, p_name: Seq<char>, p_path: Seq<char>) -> bool {
    let e_name = lowercase(trim_spec(entry.name@));
    let e_path = lowercase(trim_spec(entry.path@));
    let norm = normalize_spec(e_name);
    ||| e_name == seq!['*']
    ||| e_path == seq!['*']
    ||| (e_path.len() > 0 && p_path.len() > 0 && e_path == p_path)
    ||| (norm.len() > 0 && norm == p_name)
}

pub open spec fn in_app_list_spec(info: ForegroundInfo, list: Seq<AppPolicyItem>) -> bool {
    exists|i: int|
        0 <= i < list.len() && entry_matches(
            #[trigger] list[i],
            lowercase(info.process_name@),
            lowercase(info.process_path@),
        )
}

/// Whether matching `entry` stays within what the name normalization
/// accepts: it does when the wildcard or the path decides, or when the
/// entry's name can be normalized.
pub open spec fn entry_checkable(entry: AppPolicyItem, p_path: Seq<char>) -> bool {
    let e_name = lowercase(trim_spec(entry.name@));
    let e_path = lowercase(trim_spec(entry.path@));
    ||| e_name == seq!['*']
    ||| e_path == seq!['*']
    ||| (e_path.len() > 0 && p_path.len() > 0 && e_path == p_path)
    ||| exe_test_ok(e_name)
}

/// Matching walks the list from entry `i` up to the first match; every
/// entry it reaches must be checkable.
pub open spec fn list_checkable(list: Seq<AppPolicyItem>, p_name: Seq<char>, p_path: Seq<char>, i: int) -> bool
    decreases list.len() - i,
{
    if i < 0 || i >= list.len() {
        true
    } else {
        entry_checkable(list[i], p_path) && (entry_matches(list[i], p_name, p_path) || list_checkable(
            list,
            p_name,
            p_path,
            i + 1,
        ))
    }
}

/// What `in_app_list` needs: every entry it reaches can be normalized.
pub open spec fn in_app_list_ok(info: ForegroundInfo, list: Seq<AppPolicyItem>) -> bool {
    list_checkable(list, lowercase(info.process_name@), lowercase(info.process_path@), 0)
}

/// Case-insensitive match of the foreground process against a policy list:
/// exact executable path, executable stem name, or wildcard `*`.
pub fn in_app_list(info: &ForegroundInfo, list: &[AppPolicyItem]) -> (r: bool)
    requires
        in_app_list_ok(*info, list@),
    ensures
        r == in_app_list_spec(*info, list@),
{
    match in_app_list_walk(info, list, true) {
        Some(r) => r,
        None => false,
    }
}

/// Whether `in_app_list` accepts this process and list.
pub fn in_app_list_checkable(info: &ForegroundInfo, list: &[AppPolicyItem]) -> (r: bool)
    ensures
        r == in_app_list_ok(*info, list@),
{
    in_app_list_walk(info, list, false).is_some()
}

/// Walk the list up to the first match: `Some(matched)`, or `None` where an
/// entry reached cannot be normalized. With `trusted_ok` the caller knows
/// every reached entry can be.
fn in_app_list_walk(info: &ForegroundInfo, list: &[AppPolicyItem], trusted_ok: bool) -> (r: Option<bool>)
    requires
        trusted_ok ==> in_app_list_ok(*info, list@),
    ensures
        r is Some <==> in_app_list_ok(*info, list@),
        r matches Some(b) ==> b == in_app_list_spec(*info, list@),
{
    let p_name_s = to_lowercase(info.process_name.as_str());
    let p_path_s = to_lowercase(info.process_path.as_str());
    let p_name = chars_of(p_name_s.as_str());
    let p_path = chars_of(p_path_s.as_str());
    let ghost pn = lowercase(info.process_name@);
    let ghost pp = lowercase(info.process_path@);
    let mut i: usize = 0;
    while i < list.len()
        invariant
            0 <= i <= list@.len(),
            p_name@ == pn,
            p_path@ == pp,
            pn == lowercase(info.process_name@),
            pp == lowercase(info.process_path@),
            forall|j: int| 0 <= j < i ==> !entry_matches(#[trigger] list@[j], pn, pp),
            list_checkable(list@, pn, pp, 0) == list_checkable(list@, pn, pp, i as int),
            trusted_ok ==> list_checkable(list@, pn, pp, i as int),
        decreases list@.len() - i,
    {
        let entry = &list[i];
        let e_name_s = to_lowercase(trim(entry.name.as_str()).as_str());
        let e_path_s = to_lowercase(trim(entry.path.as_str()).as_str());
        let e_name = chars_of(e_name_s.as_str());
        let e_path = chars_of(e_path_s.as_str());
        if is_single(&e_name, '*') || is_single(&e_path, '*') {
            proof {
                assert(in_app_list_spec(*info, list@)) by {
                    assert(entry_matches(list@[i as int], pn, pp));
                }
            }
            return Some(true);
        }
        if e_path.len() != 0 && p_path.len() != 0 && chars_eq(&e_path, &p_path) {
            proof {
                assert(in_app_list_spec(*info, list@)) by {
                    assert(entry_matches(list@[i as int], pn, pp));
                }
            }
            return Some(true);
        }
        if !trusted_ok && !can_normalize(e_name_s.as_str()) {
            return None;
        }
        let norm_s = normalize_process(e_name_s.as_str());
        let norm = chars_of(norm_s.as_str());
        if norm.len() != 0 && chars_eq(&norm, &p_name) {
            proof {
                assert(in_app_list_spec(*info, list@)) by {
                    assert(entry_matches(list@[i as int], pn, pp));
                }
            }
            return Some(true);
        }
        i += 1;
    }
    proof {
        assert(!in_app_list_spec(*info, list@)) by {
            if in_app_list_spec(*info, list@) {
                let j = choose|j: int|
                    0 <= j < list@.len() && entry_matches(#[trigger] list@[j], pn, pp);
                assert(!entry_matches(list@[j], pn, pp));
            }
        }
    }
    Some(false)
}

pub open spec fn in_list_spec(process: Seq<char>, list: Seq<String>) -> bool {
    exists|i: int|
        0 <= i < list.len() && ({
            let e = lowercase(trim_spec((#[trigger] list[i])@));
            e == seq!['*'] || e == lowercase(process)
        })
}

/// Case-insensitive membership test on plain process names; `*` matches
/// everything.
pub fn in_list(process: &str, list: &[String]) -> (r: bool)
    ensures
        r == in_list_spec(process@, list@),
{
    let p_s = to_lowercase(process);
    let p = chars_of(p_s.as_str());
    let mut i: usize = 0;
    while i < list.len()
        invariant
            0 <= i <= list@.len(),
            p@ == lowercase(process@),
            forall|j: int|
                0 <= j < i ==> !({
                    let e = lowercase(trim_spec((#[trigger] list@[j])@));
                    e == seq!['*'] || e == p@
                }),
        decreases list@.len() - i,
    {
        let e_s = to_lowercase(trim(list[i].as_str()).as_str());
        let e = chars_of(e_s.as_str());
        if is_single(&e, '*') || chars_eq(&e, &p) {
            return true;
        }
        i += 1;
    }
    false
}

/// Built-in browser process names (base names, lowercase, no `.exe`).
pub open spec fn browser_names() -> Seq<&'static str> {
    seq![
        "chrome",
        "msedge",
        "edge",
        "firefox",
        "brave",
        "opera",
        "vivaldi",
        "iexplore",
        "360chrome",
        "360se",
        "qqbrowser",
        "centbrowser",
        "sogouexplorer",
        "maxthon",
        "seamonkey",
        "waterfox",
        "palemoon",
        "chromium",
        "arc",
    ]
}

pub open spec fn is_browser_spec(process: Seq<char>) -> bool {
    exists|i: int| 0 <= i < browser_names().len() && (#[trigger] browser_names()[i])@ == lowercase(process)
}

/// Whether the process name is a known browser.
pub fn is_browser(process: &str) -> (r: bool)
    ensures
        r == is_browser_spec(process@),
{
    let names: [&'static str; 19] = [
        "chrome",
        "msedge",
        "edge",
        "firefox",
        "brave",
        "opera",
        "vivaldi",
        "iexplore",
        "360chrome",
        "360se",
        "qqbrowser",
        "centbrowser",
        "sogouexplorer",
        "maxthon",
        "seamonkey",
        "waterfox",
        "palemoon",
        "chromium",
        "arc",
    ];
    assert(names@ == browser_names());
    let p_s = to_lowercase(process);
    let p = chars_of(p_s.as_str());
    let mut i: usize = 0;
    while i < 19
        invariant
            0 <= i <= 19,
            names@ == browser_names(),
            p@ == lowercase(process@),
            forall|j: int| 0 <= j < i ==> (#[trigger] browser_names()[j])@ != p@,
        decreases 19 - i,
    {
        let w = chars_of(names[i]);
        if chars_eq(&w, &p) {
            return true;
        }
        i += 1;
    }
    false
}


/// Outcome of the filter chain: whether to apply smooth scrolling, and the
/// deciding layer.
pub open spec fn evaluate_spec(cfg: PolicyConfig, info: ForegroundInfo) -> (bool, &'static str) {
    if !cfg.enabled {
        (true, "disabled")
    } else if info.process_name@.len() == 0 {
        (true, "fail")
    } else if cfg.fullscreen_disabled && covers(info.rect, info.monitor_rect) {
        (false, "fullscreen")
    } else if cfg.blacklist_enabled && cfg.blacklist@.len() > 0 && in_app_list_spec(
        info,
        cfg.blacklist@,
    ) {
        (false, "blacklist")
    } else if cfg.browser_only && !is_browser_spec(info.process_name@) {
        (false, "browser")
    } else if cfg.whitelist_enabled && cfg.whitelist@.len() > 0 && !in_app_list_spec(
        info,
        cfg.whitelist@,
    ) {
        (false, "whitelist")
    } else {
        (true, "pass")
    }
}

/// What `evaluate` needs: room for the tolerance around the monitor rect
/// whenever the fullscreen rule is consulted, and lists whose reached
/// entries can be normalized whenever a list rule is consulted.
pub open spec fn evaluate_ok(cfg: PolicyConfig, info: ForegroundInfo) -> bool {
    let consulted = cfg.enabled && info.process_name@.len() > 0;
    let past_fullscreen = consulted && !(cfg.fullscreen_disabled && covers(info.rect, info.monitor_rect));
    let black = cfg.blacklist_enabled && cfg.blacklist@.len() > 0;
    let past_browser = past_fullscreen && !(black && in_app_list_spec(info, cfg.blacklist@)) && !(
    cfg.browser_only && !is_browser_spec(info.process_name@));
    &&& consulted && cfg.fullscreen_disabled ==> tolerance_fits(info.monitor_rect)
    &&& past_fullscreen && black ==> in_app_list_ok(info, cfg.blacklist@)
    &&& past_browser && cfg.whitelist_enabled && cfg.whitelist@.len() > 0 ==> in_app_list_ok(
        info,
        cfg.whitelist@,
    )
}

/// Whether `evaluate` accepts this configuration and window.
pub fn evaluate_checkable(cfg: &PolicyConfig, info: &ForegroundInfo) -> (r: bool)
    ensures
        r == evaluate_ok(*cfg, *info),
{
    if !cfg.enabled || info.process_name.as_str().is_empty() {
        return true;
    }
    if cfg.fullscreen_disabled {
        let m = info.monitor_rect;
        if !(m.0 <= i32::MAX - FULLSCREEN_TOLERANCE && m.1 <= i32::MAX - FULLSCREEN_TOLERANCE && m.2
            >= i32::MIN + FULLSCREEN_TOLERANCE && m.3 >= i32::MIN + FULLSCREEN_TOLERANCE) {
            return false;
        }
        if is_fullscreen(info) {
            return true;
        }
    }
    if cfg.blacklist_enabled && cfg.blacklist.len() != 0 {
        match in_app_list_walk(info, cfg.blacklist.as_slice(), false) {
            None => {
                return false;
            },
            Some(true) => {
                return true;
            },
            Some(false) => {},
        }
    }
    if cfg.browser_only && !is_browser(info.process_name.as_str()) {
        return true;
    }
    if cfg.whitelist_enabled && cfg.whitelist.len() != 0 {
        return in_app_list_checkable(info, cfg.whitelist.as_slice());
    }
    true
}

/// Evaluate the filter chain where `evaluate` accepts its inputs; `None`
/// where it does not.
pub fn evaluate_checked(cfg: &PolicyConfig, info: &ForegroundInfo) -> (r: Option<(bool, &'static str)>)
    ensures
        r is Some <==> evaluate_ok(*cfg, *info),
        r matches Some(x) ==> x == evaluate_spec(*cfg, *info),
{
    if evaluate_checkable(cfg, info) {
        Some(evaluate(cfg, info))
    } else {
        None
    }
}

/// Evaluate the filter chain; the first vetoing rule decides.
///
/// Returns `(apply, layer)` where `layer` names the deciding step:
/// `"disabled" | "fail" | "fullscreen" | "blacklist" | "browser" | "whitelist" | "pass"`.
/// An unknown process keeps smooth scrolling on: a transient lookup error
/// must never silently disable scrolling.
pub fn evaluate(cfg: &PolicyConfig, info: &ForegroundInfo) -> (r: (bool, &'static str))
    requires
        evaluate_ok(*cfg, *info),
    ensures
        r == evaluate_spec(*cfg, *info),
{
    if !cfg.enabled {
        return (true, "disabled");
    }
    if info.process_name.as_str().is_empty() {
        return (true, "fail");
    }
    if cfg.fullscreen_disabled && is_fullscreen(info) {
        return (false, "fullscreen");
    }
    if cfg.blacklist_enabled && cfg.blacklist.len() != 0 && in_app_list(info, cfg.blacklist.as_slice()) {
        return (false, "blacklist");
    }
    if cfg.browser_only && !is_browser(info.process_name.as_str()) {
        return (false, "browser");
    }
    if cfg.whitelist_enabled && cfg.whitelist.len() != 0 && !in_app_list(info, cfg.whitelist.as_slice()) {
        return (false, "whitelist");
    }
    (true, "pass")
}

/// What the policy poller does next for the current foreground window.
#[derive(Debug)]
pub enum PolicyStep {
    /// No foreground window: keep the current gate and wait.
    Wait,
    /// Same window, same geometry: nothing to re-evaluate.
    Unchanged,
    /// A new foreground window: resolve its process, then evaluate with this rect.
    ResolveProcess((i32, i32, i32, i32)),
    /// Same window with new geometry: evaluate with this rect.
    Evaluate((i32, i32, i32, i32)),
}

/// What the policy poller remembers of the last foreground window, to skip
/// the expensive process lookups when nothing changed.
pub struct PolicyTracker {
    last_hwnd: Option<isize>,
    last_process: String,
    last_path: String,
    last_rect: (i32, i32, i32, i32),
    last_monitor_rect: (i32, i32, i32, i32),
    last_layer: &'static str,
}

/// The step the poller takes for a window handle and its rect (`None`
/// when the rect could not be read, in which case the last rect stands).
pub open spec fn poll_spec(
    last_hwnd: Option<isize>,
    last_rect: (i32, i32, i32, i32),
    last_monitor: (i32, i32, i32, i32),
    last_layer: Seq<char>,
    hwnd: isize,
    rect: Option<(i32, i32, i32, i32)>,
) -> PolicyStep {
    if hwnd == 0 {
        PolicyStep::Wait
    } else {
        let r = match rect {
            Some(x) => x,
            None => last_rect,
        };
        if last_hwnd == Some(hwnd) {
            if r == last_rect && covers(r, last_monitor) == (last_layer == "fullscreen"@) {
                PolicyStep::Unchanged
            } else {
                PolicyStep::Evaluate(r)
            }
        } else {
            PolicyStep::ResolveProcess(r)
        }
    }
}

impl PolicyTracker {
    pub closed spec fn hwnd(self) -> Option<isize> {
        self.last_hwnd
    }

    pub closed spec fn process(self) -> Seq<char> {
        self.last_process@
    }

    pub closed spec fn path(self) -> Seq<char> {
        self.last_path@
    }

    pub closed spec fn rect(self) -> (i32, i32, i32, i32) {
        self.last_rect
    }

    pub closed spec fn monitor(self) -> (i32, i32, i32, i32) {
        self.last_monitor_rect
    }

    pub closed spec fn layer(self) -> Seq<char> {
        self.last_layer@
    }

    /// The foreground information evaluated for the remembered process with
    /// the given geometry.
    pub closed spec fn window_info(
        self,
        rect: (i32, i32, i32, i32),
        monitor_rect: (i32, i32, i32, i32),
        monitor_work: (i32, i32, i32, i32),
    ) -> ForegroundInfo {
        ForegroundInfo {
            process_name: self.last_process,
            process_path: self.last_path,
            rect,
            monitor_rect,
            monitor_work,
        }
    }

    /// The remembered process name and path are those of `window_info`.
    pub proof fn lemma_window_info(
        self,
        rect: (i32, i32, i32, i32),
        monitor_rect: (i32, i32, i32, i32),
        monitor_work: (i32, i32, i32, i32),
    )
        ensures
            self.window_info(rect, monitor_rect, monitor_work).process_name@ == self.process(),
            self.window_info(rect, monitor_rect, monitor_work).process_path@ == self.path(),
            self.window_info(rect, monitor_rect, monitor_work).rect == rect,
            self.window_info(rect, monitor_rect, monitor_work).monitor_rect == monitor_rect,
            self.window_info(rect, monitor_rect, monitor_work).monitor_work == monitor_work,
    {
    }

    pub fn new() -> (t: Self)
        ensures
            t.hwnd() is None,
            t.process() == Seq::<char>::empty(),
            t.path() == Seq::<char>::empty(),
            t.rect() == (0i32, 0i32, 0i32, 0i32),
            t.monitor() == (0i32, 0i32, 0i32, 0i32),
            t.layer() == ""@,
    {
        PolicyTracker {
            last_hwnd: None,
            last_process: String::new(),
            last_path: String::new(),
            last_rect: (0, 0, 0, 0),
            last_monitor_rect: (0, 0, 0, 0),
            last_layer: "",
        }
    }

    /// Decide what to do for the current foreground window.
    pub fn poll(&self, hwnd: isize, rect: Option<(i32, i32, i32, i32)>) -> (r: PolicyStep)
        requires
            tolerance_fits(self.monitor()),
        ensures
            r == poll_spec(self.hwnd(), self.rect(), self.monitor(), self.layer(), hwnd, rect),
    {
        if hwnd == 0 {
            return PolicyStep::Wait;
        }
        let r = match rect {
            Some(x) => x,
            None => self.last_rect,
        };
        let same_window = match self.last_hwnd {
            Some(h) => h == hwnd,
            None => false,
        };
        if same_window {
            let fullscreen = is_fullscreen_internal(r, self.last_monitor_rect);
            let prev_fullscreen = chars_eq(&chars_of(self.last_layer), &chars_of("fullscreen"));
            if r.0 == self.last_rect.0 && r.1 == self.last_rect.1 && r.2 == self.last_rect.2 && r.3
                == self.last_rect.3 && fullscreen == prev_fullscreen {
                PolicyStep::Unchanged
            } else {
                PolicyStep::Evaluate(r)
            }
        } else {
            PolicyStep::ResolveProcess(r)
        }
    }

    /// Remember the process of a new foreground window (`None` when its
    /// image path could not be resolved: the process then counts as unknown).
    pub fn set_process(&mut self, hwnd: isize, path: Option<&str>)
        requires
            path matches Some(p) ==> exe_test_ok(p@),
        ensures
            final(self).hwnd() == Some(hwnd),
            final(self).path() == (match path {
                Some(p) => lowercase(p@),
                None => Seq::<char>::empty(),
            }),
            final(self).process() == (match path {
                Some(p) => normalize_spec(p@),
                None => Seq::<char>::empty(),
            }),
            final(self).rect() == old(self).rect(),
            final(self).monitor() == old(self).monitor(),
            final(self).layer() == old(self).layer(),
    {
        match path {
            Some(p) => {
                self.last_path = to_lowercase(p);
                self.last_process = normalize_process(p);
            },
            None => {
                self.last_path = String::new();
                self.last_process = String::new();
            },
        }
        self.last_hwnd = Some(hwnd);
    }

    /// Evaluate the policy for the remembered process with the given
    /// geometry and remember the outcome. Returns `Some((apply, layer,
    /// layer_changed))`, or `None`, changing nothing, where `evaluate` does
    /// not accept the remembered process and settings.
    pub fn record(
        &mut self,
        cfg: &PolicyConfig,
        rect: (i32, i32, i32, i32),
        monitor_rect: (i32, i32, i32, i32),
        monitor_work: (i32, i32, i32, i32),
    ) -> (r: Option<(bool, &'static str, bool)>)
        requires
            tolerance_fits(monitor_rect),
        ensures
            r is Some <==> evaluate_ok(*cfg, old(self).window_info(rect, monitor_rect, monitor_work)),
            r matches Some(x) ==> ({
                let (apply, layer) = evaluate_spec(
                    *cfg,
                    old(self).window_info(rect, monitor_rect, monitor_work),
                );
                &&& x.0 == apply
                &&& x.1 == layer
                &&& x.2 == (layer@ != old(self).layer())
                &&& final(self).rect() == rect
                &&& final(self).monitor() == monitor_rect
                &&& final(self).layer() == x.1@
            }),
            r is None ==> final(self).rect() == old(self).rect() && final(self).monitor() == old(
                self,
            ).monitor() && final(self).layer() == old(self).layer(),
            final(self).hwnd() == old(self).hwnd(),
            final(self).process() == old(self).process(),
            final(self).path() == old(self).path(),
    {
        let info = ForegroundInfo {
            process_name: self.last_process.clone(),
            process_path: self.last_path.clone(),
            rect,
            monitor_rect,
            monitor_work,
        };
        let (apply, layer) = match evaluate_checked(cfg, &info) {
            Some(x) => x,
            None => {
                return None;
            },
        };
        self.last_monitor_rect = monitor_rect;
        self.last_rect = rect;
        let changed = !chars_eq(&chars_of(layer), &chars_of(self.last_layer));
        self.last_layer = layer;
        Some((apply, layer, changed))
    }
}


/// With the master switch off, smooth scrolling always applies.
pub proof fn lemma_disabled_always_applies(cfg: PolicyConfig, info: ForegroundInfo)
    requires
        !cfg.enabled,
    ensures
        evaluate_spec(cfg, info) == (true, "disabled"),
{
}

/// A process whose name could not be resolved never loses smooth scrolling.
pub proof fn lemma_unknown_process_applies(cfg: PolicyConfig, info: ForegroundInfo)
    requires
        info.process_name@.len() == 0,
    ensures
        evaluate_spec(cfg, info).0,
{
}

/// Scrolling is withheld exactly when one of the four vetoing rules decided.
pub proof fn lemma_blocked_iff_vetoed(cfg: PolicyConfig, info: ForegroundInfo)
    ensures
        !evaluate_spec(cfg, info).0 <==> (evaluate_spec(cfg, info).1 == "fullscreen"
            || evaluate_spec(cfg, info).1 == "blacklist" || evaluate_spec(cfg, info).1
            == "browser" || evaluate_spec(cfg, info).1 == "whitelist"),
{
    reveal_strlit("disabled");
    reveal_strlit("fail");
    reveal_strlit("pass");
    reveal_strlit("fullscreen");
    reveal_strlit("blacklist");
    reveal_strlit("browser");
    reveal_strlit("whitelist");
    let l = evaluate_spec(cfg, info).1;
    if l == "disabled" || l == "fail" || l == "pass" {
        assert(l@.len() != "fullscreen"@.len() || l@[0] != "fullscreen"@[0]);
        assert(l@.len() != "blacklist"@.len() || l@[0] != "blacklist"@[0]);
        assert(l@.len() != "browser"@.len() || l@[0] != "browser"@[0]);
        assert(l@.len() != "whitelist"@.len() || l@[0] != "whitelist"@[0]);
    }
}

/// The blacklist vetoes before the browser and whitelist rules: a
/// blacklisted application never scrolls smoothly, even when it is a browser
/// or whitelisted; only the fullscreen rule may decide first.
pub proof fn lemma_blacklist_veto(cfg: PolicyConfig, info: ForegroundInfo)
    requires
        cfg.enabled,
        info.process_name@.len() > 0,
        cfg.blacklist_enabled,
        in_app_list_spec(info, cfg.blacklist@),
        !(cfg.fullscreen_disabled && covers(info.rect, info.monitor_rect)),
    ensures
        evaluate_spec(cfg, info) == (false, "blacklist"),
{
}

/// A window that passes every enabled rule gets smooth scrolling.
pub proof fn lemma_passing_all_rules_applies(cfg: PolicyConfig, info: ForegroundInfo)
    requires
        cfg.enabled,
        info.process_name@.len() > 0,
        cfg.fullscreen_disabled ==> !covers(info.rect, info.monitor_rect),
        cfg.blacklist_enabled ==> !in_app_list_spec(info, cfg.blacklist@),
        cfg.browser_only ==> is_browser_spec(info.process_name@),
        cfg.whitelist_enabled && cfg.whitelist@.len() > 0 ==> in_app_list_spec(info, cfg.whitelist@),
    ensures
        evaluate_spec(cfg, info) == (true, "pass"),
{
}

/// A policy entry whose (trimmed, lowercased) name or path is `*` matches
/// every process.
pub proof fn lemma_wildcard_matches_all(entry: AppPolicyItem, p_name: Seq<char>, p_path: Seq<char>)
    requires
        lowercase(trim_spec(entry.name@)) == seq!['*'] || lowercase(trim_spec(entry.path@))
            == seq!['*'],
    ensures
        entry_matches(entry, p_name, p_path),
{
}

} // verus!
