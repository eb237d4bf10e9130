use vstd::prelude::*;

verus! {

/// Unicode lowercase mapping of a string, as `str::to_lowercase` computes it.
pub uninterp spec fn lowercase(s: Seq<char>) -> Seq<char>;

/// Calls `str::to_lowercase`.
/// Trusted: the result is the fixed Unicode lowercase mapping of `s`,
/// named `lowercase`; nothing more is claimed of it.
#[verifier::external_body]
pub(crate) fn to_lowercase(s: &str) -> (r: String)
    ensures
        r@ == lowercase(s@),
{
    s.to_lowercase()
}

/// Characters with the Unicode `White_Space` property.
pub open spec fn is_white_space(c: char) -> bool {
    let u = c as u32;
    ||| 0x09 <= u <= 0x0D
    ||| u == 0x20
    ||| u == 0x85
    ||| u == 0xA0
    ||| u == 0x1680
    ||| 0x2000 <= u <= 0x200A
    ||| u == 0x2028
    ||| u == 0x2029
    ||| u == 0x202F
    ||| u == 0x205F
    ||| u == 0x3000
}

/// `s` without its leading white space.
pub open spec fn trim_start_spec(s: Seq<char>) -> Seq<char>
    decreases s.len(),
{
    if s.len() > 0 && is_white_space(s[0]) {
        trim_start_spec(s.drop_first())
    } else {
        s
    }
}

/// `s` without its trailing white space.
pub open spec fn trim_end_spec(s: Seq<char>) -> Seq<char>
    decreases s.len(),
{
    if s.len() > 0 && is_white_space(s.last()) {
        trim_end_spec(s.drop_last())
    } else {
        s
    }
}

/// `s` without leading and trailing white space.
pub open spec fn trim_spec(s: Seq<char>) -> Seq<char> {
    trim_end_spec(trim_start_spec(s))
}

/// Whether `c` has the Unicode `White_Space` property.
fn is_white_space_exec(c: char) -> (r: bool)
    ensures
        r == is_white_space(c),
{
    let u = c as u32;
    (0x09 <= u && u <= 0x0D) || u == 0x20 || u == 0x85 || u == 0xA0 || u == 0x1680 || (0x2000 <= u && u
        <= 0x200A) || u == 0x2028 || u == 0x2029 || u == 0x202F || u == 0x205F || u == 0x3000
}

/// `s` without leading and trailing white space (the characters with the
/// Unicode `White_Space` property), as `str::trim` documents it.
pub(crate) fn trim(s: &str) -> (r: String)
    ensures
        r@ == trim_spec(s@),
{
    let v = chars_of(s);
    let n = v.len();
    let ghost w = v@;
    let mut i: usize = 0;
    proof {
        assert(w.subrange(0, n as int) =~= w);
    }
    while i < n && is_white_space_exec(v[i])
        invariant
            w == v@,
            n == w.len(),
            0 <= i <= n,
            trim_start_spec(w) == trim_start_spec(w.subrange(i as int, n as int)),
        decreases n - i,
    {
        proof {
            assert(w.subrange(i as int, n as int).drop_first() =~= w.subrange(i as int + 1, n as int));
        }
        i += 1;
    }
    proof {
        if i == n {
            assert(w.subrange(i as int, n as int) =~= Seq::<char>::empty());
        }
    }
    let mut j: usize = n;
    while j > i && is_white_space_exec(v[j - 1])
        invariant
            w == v@,
            n == w.len(),
            0 <= i <= j <= n,
            trim_start_spec(w) == w.subrange(i as int, n as int),
            trim_end_spec(w.subrange(i as int, n as int)) == trim_end_spec(w.subrange(i as int, j as int)),
        decreases j,
    {
        proof {
            assert(w.subrange(i as int, j as int).drop_last() =~= w.subrange(i as int, j as int - 1));
        }
        j -= 1;
    }
    let mut kept: Vec<char> = Vec::new();
    let mut k: usize = i;
    while k < j
        invariant
            w == v@,
            n == w.len(),
            0 <= i <= k <= j <= n,
            kept@ == w.subrange(i as int, k as int),
        decreases j - k,
    {
        kept.push(v[k]);
        proof {
            assert(w.subrange(i as int, k as int + 1) =~= w.subrange(i as int, k as int).push(w[k as int]));
        }
        k += 1;
    }
    string_of(&kept)
}

/// Calls `String::push`.
/// Trusted: appends `c` at the end of `s`, as its documentation states.
#[verifier::external_body]
pub(crate) fn push_char(s: &mut String, c: char)
    ensures
        final(s)@ == old(s)@.push(c),
{
    s.push(c);
}

/// The characters of `s`.
pub fn chars_of(s: &str) -> (v: Vec<char>)
    ensures
        v@ == s@,
{
    let n = s.unicode_len();
    let mut v: Vec<char> = Vec::new();
    let mut i: usize = 0;
    while i < n
        invariant
            n == s@.len(),
            0 <= i <= n,
            v@ == s@.take(i as int),
        decreases n - i,
    {
        let c = s.get_char(i);
        proof {
            assert(s@.take(i as int + 1) == s@.take(i as int).push(c));
        }
        v.push(c);
        i += 1;
    }
    proof {
        assert(s@.take(n as int) == s@);
    }
    v
}

/// A string holding the characters of `v`.
pub fn string_of(v: &Vec<char>) -> (s: String)
    ensures
        s@ == v@,
{
    let mut s = String::new();
    let mut i: usize = 0;
    while i < v.len()
        invariant
            0 <= i <= v@.len(),
            s@ == v@.take(i as int),
        decreases v@.len() - i,
    {
        push_char(&mut s, v[i]);
        proof {
            assert(v@.take(i as int + 1) == v@.take(i as int).push(v@[i as int]));
        }
        i += 1;
    }
    proof {
        assert(v@.take(v@.len() as int) == v@);
    }
    s
}

/// Whether `a` and `b` hold the same characters.
pub fn chars_eq(a: &Vec<char>, b: &Vec<char>) -> (r: bool)
    ensures
        r == (a@ == b@),
{
    if a.len() != b.len() {
        return false;
    }
    let mut i: usize = 0;
    while i < a.len()
        invariant
            a@.len() == b@.len(),
            0 <= i <= a@.len(),
            forall|j: int| 0 <= j < i ==> a@[j] == b@[j],
        decreases a@.len() - i,
    {
        if a[i] != b[i] {
            return false;
        }
        i += 1;
    }
    proof {
        assert(a@ =~= b@);
    }
    true
}

/// Whether `s` is exactly the single character `c`.
pub fn is_single(s: &Vec<char>, c: char) -> (r: bool)
    ensures
        r == (s@ == seq![c]),
{
    let r = s.len() == 1 && s[0] == c;
    proof {
        if s@.len() == 1 && s@[0] == c {
            assert(s@ =~= seq![c]);
        }
    }
    r
}


/// The digit character for `d` in base 16 (`0-9`, then `A-F`).
pub open spec fn digit_char(d: nat) -> char {
    if d < 10 {
        ((48 + d) as u8) as char
    } else {
        ((55 + d) as u8) as char
    }
}

/// Digits of `n` in `base` (10 or 16), most significant first, without
/// leading zeros (`0` is written as one digit).
pub open spec fn digits(n: nat, base: nat) -> Seq<char>
    decreases n,
{
    if base < 2 || n < base {
        seq![digit_char(n)]
    } else {
        proof {
            assert(n / base < n) by (nonlinear_arith)
                requires
                    base >= 2,
                    n >= base,
            ;
        }
        digits(n / base, base).push(digit_char(n % base))
    }
}

/// `s` padded on the left with `0` to at least `width` characters.
pub open spec fn zero_pad(s: Seq<char>, width: nat) -> Seq<char>
    decreases width - s.len(),
{
    if s.len() >= width {
        s
    } else {
        zero_pad(seq!['0'] + s, width)
    }
}

/// The digit character for a value below 16.
pub fn digit_char_exec(d: u32) -> (c: char)
    requires
        d < 16,
    ensures
        c == digit_char(d as nat),
{
    if d < 10 {
        ((48 + d) as u8) as char
    } else {
        ((55 + d) as u8) as char
    }
}

/// Digits of `n` in `base` (10 or 16), most significant first.
pub fn digits_exec(n: u32, base: u32) -> (v: Vec<char>)
    requires
        base == 10 || base == 16,
    ensures
        v@ == digits(n as nat, base as nat),
    decreases n,
{
    if n < base {
        let mut v = Vec::new();
        v.push(digit_char_exec(n));
        v
    } else {
        let mut v = digits_exec(n / base, base);
        v.push(digit_char_exec(n % base));
        v
    }
}

/// `v` padded on the left with `0` to at least `width` characters.
pub fn zero_pad_exec(v: Vec<char>, width: usize) -> (r: Vec<char>)
    ensures
        r@ == zero_pad(v@, width as nat),
    decreases width - v@.len(),
{
    if v.len() >= width {
        v
    } else {
        let ghost orig = v@;
        let mut w: Vec<char> = Vec::new();
        w.push('0');
        let mut v = v;
        w.append(&mut v);
        assert(w@ =~= seq!['0'] + orig);
        zero_pad_exec(w, width)
    }
}

/// Decimal representation of `n`.
pub fn decimal_string(n: u32) -> (s: String)
    ensures
        s@ == digits(n as nat, 10),
{
    let v = digits_exec(n, 10);
    string_of(&v)
}

} // verus!
