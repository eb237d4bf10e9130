//! Update checks: version comparison, choice of the best published release
//! and the installer to fetch.

use vstd::prelude::*;

use crate::text::{chars_eq, chars_of, is_white_space, string_of, trim, trim_end_spec, trim_spec, trim_start_spec};

verus! {

/// `s` without leading copies of `c`.
pub open spec fn strip_leading(s: Seq<char>, c: char) -> Seq<char>
    decreases s.len(),
{
    if s.len() > 0 && s[0] == c {
        strip_leading(s.drop_first(), c)
    } else {
        s
    }
}

/// A version string without surrounding white space and leading `v`s,
/// then leading `V`s.
pub open spec fn clean_version(s: Seq<char>) -> Seq<char> {
    strip_leading(strip_leading(trim_spec(s), 'v'), 'V')
}

/// The pieces of `s` between dots (`""` gives one empty piece).
pub open spec fn split_dots(s: Seq<char>) -> Seq<Seq<char>>
    decreases s.len(),
{
    if s.len() == 0 {
        seq![Seq::empty()]
    } else {
        let p = split_dots(s.drop_last());
        if s.last() == '.' {
            p.push(Seq::empty())
        } else {
            p.update(p.len() - 1, p.last().push(s.last()))
        }
    }
}

pub open spec fn is_digit(c: char) -> bool {
    '0' <= c && c <= '9'
}

pub open spec fn all_digits(s: Seq<char>) -> bool {
    forall|i: int| 0 <= i < s.len() ==> is_digit(#[trigger] s[i])
}

/// Decimal value of a digit string.
pub open spec fn digits_value(s: Seq<char>) -> nat
    decreases s.len(),
{
    if s.len() == 0 {
        0
    } else {
        digits_value(s.drop_last()) * 10 + ((s.last() as u32) - ('0' as u32)) as nat
    }
}

/// What `str::parse::<u32>` gives: an optional `+` followed by at least one
/// ASCII digit, with a value that fits in `u32`.
pub open spec fn parse_u32_spec(s: Seq<char>) -> Option<u32> {
    let d = if s.len() > 0 && s[0] == '+' {
        s.drop_first()
    } else {
        s
    };
    if d.len() > 0 && all_digits(d) && digits_value(d) <= u32::MAX {
        Some(digits_value(d) as u32)
    } else {
        None
    }
}

/// Numeric components of a version string; unparsable components count as 0.
pub open spec fn version_parts(s: Seq<char>) -> Seq<u32> {
    split_dots(clean_version(s)).map_values(
        |p: Seq<char>|
            match parse_u32_spec(p) {
                Some(v) => v,
                None => 0u32,
            },
    )
}

/// Component `i` of a version, 0 past its end.
pub open spec fn part_at(v: Seq<u32>, i: int) -> u32 {
    if 0 <= i < v.len() {
        v[i]
    } else {
        0
    }
}

pub open spec fn max_len(a: Seq<u32>, b: Seq<u32>) -> int {
    if a.len() >= b.len() {
        a.len() as int
    } else {
        b.len() as int
    }
}

/// Whether `l` is newer than `c`, comparing components from index `i` on.
pub open spec fn newer_from(c: Seq<u32>, l: Seq<u32>, i: int) -> bool
    decreases max_len(c, l) - i,
{
    if i < 0 || i >= max_len(c, l) {
        false
    } else if part_at(l, i) > part_at(c, i) {
        true
    } else if part_at(c, i) > part_at(l, i) {
        false
    } else {
        newer_from(c, l, i + 1)
    }
}

/// Whether version `latest` is newer than version `current`.
pub open spec fn is_newer_spec(current: Seq<char>, latest: Seq<char>) -> bool {
    newer_from(version_parts(current), version_parts(latest), 0)
}

fn strip_leading_chars(v: &Vec<char>, c: char) -> (r: Vec<char>)
    ensures
        r@ == strip_leading(v@, c),
{
    let mut i: usize = 0;
    assert(v@.skip(0) == v@);
    while i < v.len() && v[i] == c
        invariant
            0 <= i <= v@.len(),
            strip_leading(v@.skip(i as int), c) == strip_leading(v@, c),
        decreases v@.len() - i,
    {
        proof {
            assert(v@.skip(i as int).drop_first() == v@.skip(i as int + 1));
        }
        i += 1;
    }
    proof {
        if i < v@.len() {
            assert(v@.skip(i as int)[0] == v@[i as int]);
        }
    }
    let mut r: Vec<char> = Vec::new();
    let mut j: usize = i;
    while j < v.len()
        invariant
            i <= j <= v@.len(),
            r@ == v@.subrange(i as int, j as int),
        decreases v@.len() - j,
    {
        r.push(v[j]);
        proof {
            assert(v@.subrange(i as int, j as int + 1) == v@.subrange(i as int, j as int).push(v@[j as int]));
        }
        j += 1;
    }
    proof {
        assert(v@.subrange(i as int, v@.len() as int) == v@.skip(i as int));
    }
    r
}

/// Split characters at dots.
pub fn split_at_dots(s: &Vec<char>) -> (parts: Vec<Vec<char>>)
    ensures
        parts@.map_values(|p: Vec<char>| p@) == split_dots(s@),
{
    let mut parts: Vec<Vec<char>> = Vec::new();
    let mut cur: Vec<char> = Vec::new();
    let mut i: usize = 0;
    while i < s.len()
        invariant
            0 <= i <= s@.len(),
            parts@.map_values(|p: Vec<char>| p@).push(cur@) == split_dots(s@.take(i as int)),
        decreases s@.len() - i,
    {
        let ghost before = parts@.map_values(|p: Vec<char>| p@).push(cur@);
        proof {
            assert(s@.take(i as int + 1).drop_last() == s@.take(i as int));
            assert(s@.take(i as int + 1).last() == s@[i as int]);
        }
        if s[i] == '.' {
            let done = cur;
            parts.push(done);
            cur = Vec::new();
            proof {
                assert(parts@.map_values(|p: Vec<char>| p@).push(cur@) == before.push(Seq::<char>::empty()));
            }
        } else {
            cur.push(s[i]);
            proof {
                assert(parts@.map_values(|p: Vec<char>| p@).push(cur@) == before.update(
                    before.len() - 1,
                    before.last().push(s@[i as int]),
                ));
            }
        }
        i += 1;
    }
    proof {
        assert(s@.take(s@.len() as int) == s@);
    }
    parts.push(cur);
    parts
}

/// Parse a decimal `u32` the way `str::parse::<u32>` does.
pub fn parse_u32(s: &Vec<char>) -> (r: Option<u32>)
    ensures
        r == parse_u32_spec(s@),
{
    let start: usize = if s.len() > 0 && s[0] == '+' {
        1
    } else {
        0
    };
    let ghost d = if s@.len() > 0 && s@[0] == '+' {
        s@.drop_first()
    } else {
        s@
    };
    assert(d == s@.skip(start as int));
    if start >= s.len() {
        return None;
    }
    let mut value: u64 = 0;
    let mut i: usize = start;
    while i < s.len()
        invariant
            start <= i <= s@.len(),
            d == s@.skip(start as int),
            d == (if s@.len() > 0 && s@[0] == '+' {
                s@.drop_first()
            } else {
                s@
            }),
            all_digits(s@.subrange(start as int, i as int)),
            value == digits_value(s@.subrange(start as int, i as int)),
            value <= u32::MAX,
        decreases s@.len() - i,
    {
        let c = s[i];
        proof {
            assert(s@.subrange(start as int, i as int + 1).drop_last() == s@.subrange(
                start as int,
                i as int,
            ));
        }
        if c < '0' || c > '9' {
            proof {
                assert(d[i - start] == c);
                assert(!is_digit(d[i - start]));
                assert(!all_digits(d));
            }
            return None;
        }
        let digit = (c as u32 - '0' as u32) as u64;
        value = value * 10 + digit;
        if value > u32::MAX as u64 {
            proof {
                if all_digits(d) {
                    lemma_digits_value_prefix_bound(d, (i + 1 - start) as int);
                    assert(d.take((i + 1 - start) as int) == s@.subrange(start as int, i as int + 1));
                }
            }
            return None;
        }
        i += 1;
    }
    proof {
        assert(s@.subrange(start as int, s@.len() as int) == d);
    }
    Some(value as u32)
}

/// The value of a digit string is at least the value of any of its prefixes.
proof fn lemma_digits_value_prefix_bound(s: Seq<char>, k: int)
    requires
        0 <= k <= s.len(),
        all_digits(s),
    ensures
        digits_value(s.take(k)) <= digits_value(s),
    decreases s.len() - k,
{
    if k < s.len() {
        lemma_digits_value_prefix_bound(s, k + 1);
        assert(s.take(k + 1).drop_last() == s.take(k));
        assert(is_digit(s[k]));
        assert(s.take(k + 1).last() == s[k]);
    } else {
        assert(s.take(k) == s);
    }
}


/// Numeric components of a version string.
pub fn version_values(s: &str) -> (v: Vec<u32>)
    ensures
        v@ == version_parts(s@),
{
    let t = chars_of(trim(s).as_str());
    let t1 = strip_leading_chars(&t, 'v');
    let t2 = strip_leading_chars(&t1, 'V');
    let parts = split_at_dots(&t2);
    let ghost pv = parts@.map_values(|p: Vec<char>| p@);
    let mut v: Vec<u32> = Vec::new();
    let mut i: usize = 0;
    while i < parts.len()
        invariant
            0 <= i <= parts@.len(),
            pv == parts@.map_values(|p: Vec<char>| p@),
            pv == split_dots(clean_version(s@)),
            v@.len() == i,
            forall|j: int|
                0 <= j < i ==> v@[j] == (match parse_u32_spec(#[trigger] pv[j]) {
                    Some(x) => x,
                    None => 0u32,
                }),
        decreases parts@.len() - i,
    {
        let x = match parse_u32(&parts[i]) {
            Some(x) => x,
            None => 0,
        };
        v.push(x);
        i += 1;
    }
    proof {
        assert(v@ =~= version_parts(s@));
    }
    v
}

/// Whether version `latest` is newer than version `current`: components are
/// compared numerically from the left, missing or unparsable components
/// counting as 0, after surrounding white space and a leading `v`/`V` are
/// dropped.
pub fn is_newer_version(current: &str, latest: &str) -> (r: bool)
    ensures
        r == is_newer_spec(current@, latest@),
{
    let c = version_values(current);
    let l = version_values(latest);
    let n = if c.len() >= l.len() {
        c.len()
    } else {
        l.len()
    };
    let mut i: usize = 0;
    while i < n
        invariant
            n == max_len(c@, l@),
            c@ == version_parts(current@),
            l@ == version_parts(latest@),
            0 <= i <= n,
            newer_from(c@, l@, 0) == newer_from(c@, l@, i as int),
        decreases n - i,
    {
        let c_val: u32 = if i < c.len() {
            c[i]
        } else {
            0
        };
        let l_val: u32 = if i < l.len() {
            l[i]
        } else {
            0
        };
        assert(c_val == part_at(c@, i as int) && l_val == part_at(l@, i as int));
        if l_val > c_val {
            return true;
        } else if c_val > l_val {
            return false;
        }
        i += 1;
    }
    false
}

/// A comparison that reports "newer" was decided inside both versions' range.
proof fn lemma_newer_in_range(c: Seq<u32>, l: Seq<u32>, i: int)
    requires
        newer_from(c, l, i),
    ensures
        0 <= i < max_len(c, l),
{
}

/// No version is newer than itself.
pub proof fn lemma_newer_irreflexive(v: Seq<u32>, i: int)
    ensures
        !newer_from(v, v, i),
    decreases max_len(v, v) - i,
{
    if 0 <= i < max_len(v, v) {
        lemma_newer_irreflexive(v, i + 1);
    }
}

/// Of two versions at most one is newer than the other.
pub proof fn lemma_newer_asymmetric(a: Seq<u32>, b: Seq<u32>, i: int)
    requires
        newer_from(a, b, i),
    ensures
        !newer_from(b, a, i),
    decreases max_len(a, b) - i,
{
    if part_at(a, i) == part_at(b, i) {
        lemma_newer_asymmetric(a, b, i + 1);
    }
}

/// "Newer" is transitive.
pub proof fn lemma_newer_transitive(a: Seq<u32>, b: Seq<u32>, c: Seq<u32>, i: int)
    requires
        newer_from(a, b, i),
        newer_from(b, c, i),
    ensures
        newer_from(a, c, i),
    decreases max_len(a, b) + max_len(b, c) - 2 * i,
{
    lemma_newer_in_range(a, b, i);
    lemma_newer_in_range(b, c, i);
    if part_at(b, i) == part_at(a, i) && part_at(c, i) == part_at(b, i) {
        lemma_newer_transitive(a, b, c, i + 1);
        lemma_newer_in_range(a, c, i + 1);
    }
}

/// Version comparison is a strict order: irreflexive, asymmetric and
/// transitive on version strings.
pub proof fn lemma_is_newer_strict_order(a: Seq<char>, b: Seq<char>, c: Seq<char>)
    ensures
        !is_newer_spec(a, a),
        is_newer_spec(a, b) ==> !is_newer_spec(b, a),
        is_newer_spec(a, b) && is_newer_spec(b, c) ==> is_newer_spec(a, c),
{
    lemma_newer_irreflexive(version_parts(a), 0);
    if is_newer_spec(a, b) {
        lemma_newer_asymmetric(version_parts(a), version_parts(b), 0);
        if is_newer_spec(b, c) {
            lemma_newer_transitive(version_parts(a), version_parts(b), version_parts(c), 0);
        }
    }
}


/// Trailing white space is dropped the same way after a leading
/// non-white-space character.
proof fn lemma_trim_end_after(c: char, s: Seq<char>)
    requires
        !is_white_space(c),
    ensures
        trim_end_spec(seq![c] + s) == seq![c] + trim_end_spec(s),
    decreases s.len(),
{
    if s.len() > 0 && is_white_space(s.last()) {
        assert((seq![c] + s).drop_last() == seq![c] + s.drop_last());
        lemma_trim_end_after(c, s.drop_last());
    } else {
        assert((seq![c] + s).last() == if s.len() > 0 { s.last() } else { c });
    }
}

/// A `v` or `V` written before a version does not change it: `v0.1.3`,
/// `V0.1.3` and `0.1.3` compare alike (for versions that start with
/// neither white space nor, after a `V`, a lowercase `v`).
pub proof fn lemma_version_prefix_ignored(s: Seq<char>, other: Seq<char>)
    requires
        s.len() == 0 || !is_white_space(s[0]),
    ensures
        version_parts(seq!['v'] + s) == version_parts(s),
        is_newer_spec(seq!['v'] + s, other) == is_newer_spec(s, other),
        is_newer_spec(other, seq!['v'] + s) == is_newer_spec(other, s),
        (s.len() == 0 || s[0] != 'v') ==> version_parts(seq!['V'] + s) == version_parts(s),
{
    assert(trim_start_spec(s) == s);
    lemma_trim_end_after('v', s);
    lemma_trim_end_after('V', s);
    let t = trim_end_spec(s);
    assert(trim_start_spec(seq!['v'] + s) == seq!['v'] + s);
    assert(trim_start_spec(seq!['V'] + s) == seq!['V'] + s);
    assert((seq!['v'] + t).drop_first() == t);
    assert((seq!['V'] + t).drop_first() == t);
    assert(clean_version(seq!['v'] + s) == clean_version(s));
    if s.len() == 0 || s[0] != 'v' {
        lemma_trim_end_prefix(s);
        assert(strip_leading(seq!['V'] + t, 'v') == seq!['V'] + t);
        assert(strip_leading(t, 'v') == t);
        assert(clean_version(seq!['V'] + s) == clean_version(s));
    }
}

/// Trimming the end keeps the first character of a string that does not
/// vanish.
proof fn lemma_trim_end_prefix(s: Seq<char>)
    ensures
        trim_end_spec(s).len() <= s.len(),
        trim_end_spec(s).len() > 0 ==> trim_end_spec(s)[0] == s[0],
    decreases s.len(),
{
    if s.len() > 0 && is_white_space(s.last()) {
        lemma_trim_end_prefix(s.drop_last());
    }
}

/// A published release, as the update servers describe it.
#[derive(Debug, Clone)]
pub struct RawRelease {
    pub tag_name: String,
    pub html_url: String,
    pub body: Option<String>,
    pub asset_url: Option<String>,
}

/// A downloadable file attached to a release.
#[derive(Debug, Clone)]
pub struct ReleaseAsset {
    pub name: String,
    pub browser_download_url: String,
}

/// What the settings UI is told about updates.
#[derive(Debug, Clone)]
pub struct UpdateInfo {
    pub has_update: bool,
    pub current_version: String,
    pub latest_version: String,
    pub download_url: String,
    pub asset_url: String,
    pub body: String,
}

pub open spec fn ends_with(s: Seq<char>, suffix: Seq<char>) -> bool {
    s.len() >= suffix.len() && s.skip(s.len() - suffix.len()) == suffix
}

/// Whether the characters of `s` end with those of `suffix`.
pub fn ends_with_chars(s: &Vec<char>, suffix: &Vec<char>) -> (r: bool)
    ensures
        r == ends_with(s@, suffix@),
{
    if s.len() < suffix.len() {
        return false;
    }
    let off = s.len() - suffix.len();
    let mut i: usize = 0;
    while i < suffix.len()
        invariant
            off == s@.len() - suffix@.len(),
            off + suffix@.len() == s@.len(),
            s@.len() <= usize::MAX,
            0 <= i <= suffix@.len(),
            forall|j: int| 0 <= j < i ==> s@[off + j] == suffix@[j],
        decreases suffix@.len() - i,
    {
        if s[off + i] != suffix[i] {
            proof {
                assert(s@.skip(off as int)[i as int] == s@[off + i]);
            }
            return false;
        }
        i += 1;
    }
    proof {
        assert(s@.skip(off as int) =~= suffix@);
    }
    true
}

/// Whether `s` ends with the literal `suffix`.
pub fn str_ends_with(s: &str, suffix: &str) -> (r: bool)
    ensures
        r == ends_with(s@, suffix@),
{
    let a = chars_of(s);
    let b = chars_of(suffix);
    ends_with_chars(&a, &b)
}

/// Index of the first asset whose name ends with `suffix`.
pub open spec fn first_with_suffix(assets: Seq<ReleaseAsset>, suffix: Seq<char>, from: int) -> Option<int>
    decreases assets.len() - from,
{
    if from < 0 || from >= assets.len() {
        None
    } else if ends_with(assets[from].name@, suffix) {
        Some(from)
    } else {
        first_with_suffix(assets, suffix, from + 1)
    }
}

/// Download URL of the installer to fetch: the first `.msi` asset, or else
/// the first `.exe` asset.
pub open spec fn installer_url_spec(assets: Seq<ReleaseAsset>) -> Option<Seq<char>> {
    match first_with_suffix(assets, ".msi"@, 0) {
        Some(i) => Some(assets[i].browser_download_url@),
        None => match first_with_suffix(assets, ".exe"@, 0) {
            Some(i) => Some(assets[i].browser_download_url@),
            None => None,
        },
    }
}

fn find_with_suffix(assets: &Vec<ReleaseAsset>, suffix: &str) -> (r: Option<usize>)
    ensures
        r matches Some(i) ==> first_with_suffix(assets@, suffix@, 0) == Some(i as int) && i
            < assets@.len(),
        r is None ==> first_with_suffix(assets@, suffix@, 0) is None,
{
    let mut i: usize = 0;
    while i < assets.len()
        invariant
            0 <= i <= assets@.len(),
            first_with_suffix(assets@, suffix@, 0) == first_with_suffix(assets@, suffix@, i as int),
        decreases assets@.len() - i,
    {
        if str_ends_with(assets[i].name.as_str(), suffix) {
            return Some(i);
        }
        i += 1;
    }
    None
}

/// Pick the installer of a release: the first `.msi` asset, else the first
/// `.exe` asset.
pub fn pick_installer_url(assets: &Vec<ReleaseAsset>) -> (r: Option<String>)
    ensures
        r matches Some(u) ==> installer_url_spec(assets@) == Some(u@),
        r is None ==> installer_url_spec(assets@) is None,
{
    match find_with_suffix(assets, ".msi") {
        Some(i) => Some(assets[i].browser_download_url.clone()),
        None => match find_with_suffix(assets, ".exe") {
            Some(i) => Some(assets[i].browser_download_url.clone()),
            None => None,
        },
    }
}

/// Web page of a Gitee release.
pub open spec fn gitee_release_page(tag: Seq<char>) -> Seq<char> {
    "https://gitee.com/lu52/Mac-touchpad/releases/tag/"@ + tag
}

/// A release as published on Gitee: its page is derived from the tag.
pub fn release_from_gitee(tag_name: String, body: Option<String>, assets: &Vec<ReleaseAsset>) -> (r: RawRelease)
    ensures
        r.tag_name@ == tag_name@,
        r.html_url@ == gitee_release_page(tag_name@),
        r.body == body,
        r.asset_url matches Some(u) ==> installer_url_spec(assets@) == Some(u@),
        r.asset_url is None ==> installer_url_spec(assets@) is None,
{
    let asset_url = pick_installer_url(assets);
    let mut html_url = String::from_str("https://gitee.com/lu52/Mac-touchpad/releases/tag/");
    html_url.append(tag_name.as_str());
    RawRelease { tag_name, html_url, body, asset_url }
}

/// A release as published on GitHub, with the page it names.
pub fn release_from_github(
    tag_name: String,
    html_url: String,
    body: Option<String>,
    assets: &Vec<ReleaseAsset>,
) -> (r: RawRelease)
    ensures
        r.tag_name == tag_name,
        r.html_url == html_url,
        r.body == body,
        r.asset_url matches Some(u) ==> installer_url_spec(assets@) == Some(u@),
        r.asset_url is None ==> installer_url_spec(assets@) is None,
{
    let asset_url = pick_installer_url(assets);
    RawRelease { tag_name, html_url, body, asset_url }
}

/// Releases that could be fetched, Gitee first.
pub open spec fn candidates(gitee: Result<RawRelease, String>, github: Result<RawRelease, String>) -> Seq<RawRelease> {
    let a: Seq<RawRelease> = match gitee {
        Ok(r) => seq![r],
        Err(_) => Seq::empty(),
    };
    let b: Seq<RawRelease> = match github {
        Ok(r) => seq![r],
        Err(_) => Seq::empty(),
    };
    a + b
}

/// The release to offer: going through the candidates in order, a candidate
/// newer than `current` replaces the choice so far when there is none yet
/// or when it is newer than that choice.
pub open spec fn best_from(current: Seq<char>, cands: Seq<RawRelease>) -> Option<RawRelease>
    decreases cands.len(),
{
    if cands.len() == 0 {
        None
    } else {
        let prev = best_from(current, cands.drop_last());
        let u = cands.last();
        if is_newer_spec(current, u.tag_name@) {
            match prev {
                None => Some(u),
                Some(b) => if is_newer_spec(b.tag_name@, u.tag_name@) {
                    Some(u)
                } else {
                    prev
                },
            }
        } else {
            prev
        }
    }
}

/// Message given when no update server answered.
pub open spec fn unreachable_message(gitee_err: Seq<char>, github_err: Seq<char>) -> Seq<char> {
    "无法连接到更新服务器。\nGitee 错误: "@ + gitee_err + "\nGitHub 错误: "@ + github_err
}

pub open spec fn text_or_empty(s: Option<String>) -> Seq<char> {
    match s {
        Some(t) => t@,
        None => Seq::empty(),
    }
}

/// The update report for the releases fetched from both servers.
pub open spec fn update_report_ok(current: Seq<char>, best: Option<RawRelease>, info: UpdateInfo) -> bool {
    &&& info.current_version@ == current
    &&& match best {
        Some(raw) => {
            &&& info.has_update
            &&& info.latest_version@ == raw.tag_name@
            &&& info.download_url@ == raw.html_url@
            &&& info.asset_url@ == text_or_empty(raw.asset_url)
            &&& info.body@ == text_or_empty(raw.body)
        },
        None => {
            &&& !info.has_update
            &&& info.latest_version@ == current
            &&& info.download_url@ == Seq::<char>::empty()
            &&& info.asset_url@ == Seq::<char>::empty()
            &&& info.body@ == Seq::<char>::empty()
        },
    }
}

fn take_text(s: Option<String>) -> (r: String)
    ensures
        r@ == text_or_empty(s),
{
    match s {
        Some(t) => t,
        None => String::new(),
    }
}

/// Decide what to report from the answers of both update servers: an error
/// when neither answered, otherwise the newest release that is newer than
/// `current`, if any.
pub fn select_update(
    current: &str,
    gitee: Result<RawRelease, String>,
    github: Result<RawRelease, String>,
) -> (r: Result<UpdateInfo, String>)
    ensures
        (gitee is Err && github is Err) <==> r is Err,
        r matches Err(msg) ==> msg@ == unreachable_message(gitee->Err_0@, github->Err_0@),
        r matches Ok(info) ==> update_report_ok(current@, best_from(current@, candidates(gitee, github)), info),
{
    let ghost cands_spec = candidates(gitee, github);
    let mut cands: Vec<RawRelease> = Vec::new();
    let mut errors: Vec<String> = Vec::new();
    match gitee {
        Ok(rel) => cands.push(rel),
        Err(e) => errors.push(e),
    }
    match github {
        Ok(rel) => cands.push(rel),
        Err(e) => errors.push(e),
    }
    proof {
        assert(cands@ =~= cands_spec);
    }
    if errors.len() == 2 {
        let mut msg = String::from_str("无法连接到更新服务器。\nGitee 错误: ");
        msg.append(errors[0].as_str());
        msg.append("\nGitHub 错误: ");
        msg.append(errors[1].as_str());
        return Err(msg);
    }
    let mut best: Option<usize> = None;
    let mut i: usize = 0;
    while i < cands.len()
        invariant
            0 <= i <= cands@.len(),
            best matches Some(b) ==> b < i,
            (match best {
                Some(b) => Some(cands@[b as int]),
                None => None,
            }) == best_from(current@, cands@.take(i as int)),
        decreases cands@.len() - i,
    {
        proof {
            assert(cands@.take(i as int + 1).drop_last() == cands@.take(i as int));
            assert(cands@.take(i as int + 1).last() == cands@[i as int]);
        }
        if is_newer_version(current, cands[i].tag_name.as_str()) {
            match best {
                None => {
                    best = Some(i);
                },
                Some(b) => {
                    if is_newer_version(cands[b].tag_name.as_str(), cands[i].tag_name.as_str()) {
                        best = Some(i);
                    }
                },
            }
        }
        i += 1;
    }
    proof {
        assert(cands@.take(cands@.len() as int) == cands@);
    }
    match best {
        Some(b) => {
            let raw = cands.remove(b);
            Ok(
                UpdateInfo {
                    has_update: true,
                    current_version: String::from_str(current),
                    latest_version: raw.tag_name,
                    download_url: raw.html_url,
                    asset_url: take_text(raw.asset_url),
                    body: take_text(raw.body),
                },
            )
        },
        None => Ok(
            UpdateInfo {
                has_update: false,
                current_version: String::from_str(current),
                latest_version: String::from_str(current),
                download_url: String::new(),
                asset_url: String::new(),
                body: String::new(),
            },
        ),
    }
}

/// The offered release is newer than the running version and no fetched
/// release is newer than it; nothing is offered exactly when no fetched
/// release is newer than the running version.
pub proof fn lemma_best_is_newest(current: Seq<char>, cands: Seq<RawRelease>)
    ensures
        best_from(current, cands) matches Some(b) ==> {
            &&& is_newer_spec(current, b.tag_name@)
            &&& exists|k: int| 0 <= k < cands.len() && cands[k] == b
            &&& forall|i: int|
                0 <= i < cands.len() && is_newer_spec(current, (#[trigger] cands[i]).tag_name@)
                    ==> !is_newer_spec(b.tag_name@, cands[i].tag_name@)
        },
        best_from(current, cands) is None <==> forall|i: int|
            0 <= i < cands.len() ==> !is_newer_spec(current, (#[trigger] cands[i]).tag_name@),
    decreases cands.len(),
{
    if cands.len() > 0 {
        let init = cands.drop_last();
        let u = cands.last();
        lemma_best_is_newest(current, init);
        lemma_is_newer_strict_order(u.tag_name@, u.tag_name@, u.tag_name@);
        assert forall|i: int| 0 <= i < init.len() implies #[trigger] init[i] == cands[i] by {}
        match best_from(current, init) {
            Some(b) => {
                let k = choose|k: int| 0 <= k < init.len() && init[k] == b;
                assert(cands[k] == b);
                if is_newer_spec(current, u.tag_name@) && is_newer_spec(b.tag_name@, u.tag_name@) {
                    assert(cands[cands.len() - 1] == u);
                    assert forall|i: int|
                        0 <= i < cands.len() && is_newer_spec(current, (#[trigger] cands[i]).tag_name@)
                            implies !is_newer_spec(u.tag_name@, cands[i].tag_name@) by {
                        if i < init.len() {
                            assert(init[i] == cands[i]);
                            lemma_is_newer_strict_order(b.tag_name@, u.tag_name@, cands[i].tag_name@);
                        }
                    }
                } else {
                    assert forall|i: int|
                        0 <= i < cands.len() && is_newer_spec(current, (#[trigger] cands[i]).tag_name@)
                            implies !is_newer_spec(b.tag_name@, cands[i].tag_name@) by {
                        if i < init.len() {
                            assert(init[i] == cands[i]);
                        }
                    }
                }
            },
            None => {
                if is_newer_spec(current, u.tag_name@) {
                    assert(cands[cands.len() - 1] == u);
                    assert forall|i: int|
                        0 <= i < cands.len() && is_newer_spec(current, (#[trigger] cands[i]).tag_name@)
                            implies !is_newer_spec(u.tag_name@, cands[i].tag_name@) by {
                        if i < init.len() {
                            assert(init[i] == cands[i]);
                        }
                    }
                } else {
                    assert forall|i: int|
                        0 <= i < cands.len() implies !is_newer_spec(current, (#[trigger] cands[i]).tag_name@) by {
                        if i < init.len() {
                            assert(init[i] == cands[i]);
                        }
                    }
                }
            },
        }
    }
}

/// The part of `s` after its last `/`.
pub open spec fn last_segment(s: Seq<char>) -> Seq<char>
    decreases s.len(),
{
    if s.len() == 0 {
        s
    } else if s.last() == '/' {
        Seq::empty()
    } else {
        last_segment(s.drop_last()).push(s.last())
    }
}

/// File name under which a downloaded installer is stored: the last path
/// segment of its URL.
pub fn download_file_name(url: &str) -> (r: String)
    ensures
        r@ == last_segment(url@),
{
    let mut v = chars_of(url);
    let n = v.len();
    let mut start: usize = 0;
    let mut i: usize = 0;
    while i < n
        invariant
            n == v@.len(),
            0 <= start <= i <= n,
            last_segment(v@.take(i as int)) == v@.subrange(start as int, i as int),
        decreases n - i,
    {
        proof {
            assert(v@.take(i as int + 1).drop_last() == v@.take(i as int));
            assert(v@.take(i as int + 1).last() == v@[i as int]);
            assert(v@.subrange(start as int, i as int + 1) == v@.subrange(start as int, i as int).push(
                v@[i as int],
            ));
        }
        if v[i] == '/' {
            start = i + 1;
            proof {
                assert(v@.subrange(start as int, start as int) == Seq::<char>::empty());
            }
        }
        i += 1;
    }
    proof {
        assert(v@.take(n as int) == v@);
    }
    let tail = v.split_off(start);
    string_of(&tail)
}

/// Whether an installer is a Windows Installer package (run through
/// `msiexec`) rather than an executable.
pub fn is_msi_installer(path: &str) -> (r: bool)
    ensures
        r == ends_with(path@, ".msi"@),
{
    str_ends_with(path, ".msi")
}

} // verus!
