//! Character-level helpers shared by the codec and the telemetry parser:
//! whitespace trimming, splitting, decimal number parsing and printing.
//!
//! Lengths and coordinates on the wire are decimal text. The library holds
//! them as integers counting thousandths of a unit (`10.5` is `10_500`).

use vstd::prelude::*;

verus! {

/// Largest whole part accepted by [`parse_milli`].
pub const MAX_WHOLE: u64 = 1_000_000_000_000;

/// White space as `char::is_whitespace` defines it (Unicode `White_Space`).
pub open spec fn is_ws(c: char) -> bool {
    c == '\t' || c == '\n' || c == '\u{0B}' || c == '\u{0C}' || c == '\r' || c == ' '
        || c == '\u{85}' || c == '\u{A0}' || c == '\u{1680}' || ('\u{2000}' <= c && c
        <= '\u{200A}') || c == '\u{2028}' || c == '\u{2029}' || c == '\u{202F}' || c
        == '\u{205F}' || c == '\u{3000}'
}

pub open spec fn trim_start(s: Seq<char>) -> Seq<char>
    decreases s.len(),
{
    if s.len() > 0 && is_ws(s[0]) {
        trim_start(s.drop_first())
    } else {
        s
    }
}

pub open spec fn trim_end(s: Seq<char>) -> Seq<char>
    decreases s.len(),
{
    if s.len() > 0 && is_ws(s.last()) {
        trim_end(s.drop_last())
    } else {
        s
    }
}

/// What `str::trim` leaves of `s`.
pub open spec fn trim(s: Seq<char>) -> Seq<char> {
    trim_end(trim_start(s))
}

/// Index of the first `c` in `s`, or `s.len()` when there is none.
pub open spec fn find(s: Seq<char>, c: char) -> int
    decreases s.len(),
{
    if s.len() == 0 {
        0
    } else if s[0] == c {
        0
    } else {
        1 + find(s.drop_first(), c)
    }
}

/// The pieces of `s` between occurrences of `sep`, as `str::split` yields them.
pub open spec fn split(s: Seq<char>, sep: char) -> Seq<Seq<char>>
    decreases s.len(),
{
    let i = find(s, sep);
    if 0 <= i < s.len() {
        seq![s.take(i)] + split(s.skip(i + 1), sep)
    } else {
        seq![s]
    }
}

pub open spec fn starts_with(s: Seq<char>, p: Seq<char>) -> bool {
    p.len() <= s.len() && s.take(p.len() as int) == p
}

pub open spec fn is_digit(c: char) -> bool {
    '0' <= c && c <= '9'
}

pub open spec fn digit_value(c: char) -> int {
    c as int - '0' as int
}

pub open spec fn all_digits(s: Seq<char>) -> bool {
    forall|i: int| 0 <= i < s.len() ==> is_digit(#[trigger] s[i])
}

/// The number that the decimal digits `s` spell out.
pub open spec fn digits_value(s: Seq<char>) -> int
    decreases s.len(),
{
    if s.len() == 0 {
        0
    } else {
        digits_value(s.drop_last()) * 10 + digit_value(s.last())
    }
}

/// What `str::parse::<u32>` gives: an optional `+`, then one or more
/// decimal digits whose value fits in 32 bits.
pub open spec fn u32_text(s: Seq<char>) -> Option<u32> {
    let d = if s.len() > 0 && s[0] == '+' {
        s.drop_first()
    } else {
        s
    };
    if d.len() > 0 && all_digits(d) && digits_value(d) <= u32::MAX {
        Some(digits_value(d) as u32)
    } else {
        None
    }
}

/// Thousandths spelled by the first three digits of a fraction, padded with zeros.
pub open spec fn frac_milli(f: Seq<char>) -> int {
    (if f.len() > 0 {
        digit_value(f[0]) * 100
    } else {
        0
    }) + (if f.len() > 1 {
        digit_value(f[1]) * 10
    } else {
        0
    }) + (if f.len() > 2 {
        digit_value(f[2])
    } else {
        0
    })
}

/// A decimal number in thousandths: an optional sign, digits, and an optional
/// `.` with more digits, at least one digit in all. Fraction digits past the
/// third are dropped. A whole part above `MAX_WHOLE` is refused.
pub open spec fn milli_text(s: Seq<char>) -> Option<i64> {
    let signed = s.len() > 0 && (s[0] == '-' || s[0] == '+');
    let neg = s.len() > 0 && s[0] == '-';
    let body = if signed {
        s.drop_first()
    } else {
        s
    };
    let dot = find(body, '.');
    let whole = body.take(dot);
    let frac = if dot < body.len() {
        body.skip(dot + 1)
    } else {
        Seq::<char>::empty()
    };
    if all_digits(whole) && all_digits(frac) && whole.len() + frac.len() > 0 && digits_value(
        whole,
    ) <= MAX_WHOLE {
        let mag = digits_value(whole) * 1000 + frac_milli(frac);
        Some((if neg {
            -mag
        } else {
            mag
        }) as i64)
    } else {
        None
    }
}

pub open spec fn digit_char(d: int) -> char {
    ((d + 48) as u8) as char
}

/// Decimal digits of `n`, without leading zeros.
pub open spec fn nat_text(n: nat) -> Seq<char>
    decreases n,
{
    if n < 10 {
        seq![digit_char(n as int)]
    } else {
        nat_text(n / 10).push(digit_char((n % 10) as int))
    }
}

/// `v` thousandths printed with exactly three decimals, as `{:.3}` prints `v / 1000`.
pub open spec fn fixed3_text(v: int) -> Seq<char> {
    let a = if v < 0 {
        -v
    } else {
        v
    };
    let r = a % 1000;
    (if v < 0 {
        seq!['-']
    } else {
        Seq::<char>::empty()
    }) + nat_text((a / 1000) as nat) + seq![
        '.',
        digit_char(r / 100),
        digit_char((r / 10) % 10),
        digit_char(r % 10),
    ]
}

pub proof fn lemma_digits_value_bounds(s: Seq<char>)
    requires
        all_digits(s),
    ensures
        0 <= digits_value(s),
        s.len() > 0 ==> digits_value(s.drop_last()) <= digits_value(s),
    decreases s.len(),
{
    if s.len() > 0 {
        assert(all_digits(s.drop_last()));
        lemma_digits_value_bounds(s.drop_last());
        assert(is_digit(s[s.len() - 1]));
    }
}

pub proof fn lemma_digits_value_take_mono(s: Seq<char>, i: int, j: int)
    requires
        all_digits(s),
        0 <= i <= j <= s.len(),
    ensures
        digits_value(s.take(i)) <= digits_value(s.take(j)),
    decreases j - i,
{
    if i < j {
        lemma_digits_value_take_mono(s, i, j - 1);
        assert(s.take(j).drop_last() =~= s.take(j - 1));
        assert(all_digits(s.take(j)));
        lemma_digits_value_bounds(s.take(j));
    }
}

pub proof fn lemma_split_nonempty(s: Seq<char>, sep: char)
    ensures
        split(s, sep).len() >= 1,
{
    let i = find(s, sep);
    if 0 <= i < s.len() {
        assert(split(s, sep) == seq![s.take(i)] + split(s.skip(i + 1), sep));
    }
}

proof fn lemma_find_at(s: Seq<char>, c: char, j: int)
    requires
        0 <= j <= s.len(),
        forall|k: int| 0 <= k < j ==> s[k] != c,
        j < s.len() ==> s[j] == c,
    ensures
        find(s, c) == j,
    decreases j,
{
    if j > 0 {
        lemma_find_at(s.drop_first(), c, j - 1);
    }
}

proof fn lemma_trim_start_skip(s: Seq<char>, i: int)
    requires
        0 <= i <= s.len(),
        forall|k: int| 0 <= k < i ==> is_ws(s[k]),
    ensures
        trim_start(s) == trim_start(s.skip(i)),
    decreases i,
{
    if i > 0 {
        lemma_trim_start_skip(s.drop_first(), i - 1);
        assert(s.drop_first().skip(i - 1) =~= s.skip(i));
    } else {
        assert(s.skip(0) =~= s);
    }
}

proof fn lemma_trim_end_take(s: Seq<char>, j: int)
    requires
        0 <= j <= s.len(),
        forall|k: int| j <= k < s.len() ==> is_ws(s[k]),
    ensures
        trim_end(s) == trim_end(s.take(j)),
    decreases s.len() - j,
{
    if j < s.len() {
        lemma_trim_end_take(s.drop_last(), j);
        assert(s.drop_last().take(j) =~= s.take(j));
    } else {
        assert(s.take(j) =~= s);
    }
}

/// Relies on `String::push`: appends one character.
#[verifier::external_body]
pub(crate) fn push_char(s: &mut String, c: char)
    ensures
        final(s)@ == old(s)@.push(c),
{
    s.push(c)
}

/// The characters of `s`, one per element.
pub fn chars_of(s: &str) -> (r: Vec<char>)
    ensures
        r@ == s@,
{
    let n = s.unicode_len();
    let mut r: Vec<char> = Vec::new();
    let mut i: usize = 0;
    while i < n
        invariant
            n == s@.len(),
            i <= n,
            r@ == s@.take(i as int),
        decreases n - i,
    {
        r.push(s.get_char(i));
        i = i + 1;
        assert(r@ =~= s@.take(i as int));
    }
    assert(r@ =~= s@);
    r
}

/// The characters `v[lo..hi]` as a `String`.
pub fn string_of(v: &Vec<char>, lo: usize, hi: usize) -> (r: String)
    requires
        lo <= hi <= v@.len(),
    ensures
        r@ == v@.subrange(lo as int, hi as int),
{
    let mut r = String::new();
    let mut i: usize = lo;
    while i < hi
        invariant
            lo <= i <= hi <= v@.len(),
            r@ == v@.subrange(lo as int, i as int),
        decreases hi - i,
    {
        push_char(&mut r, v[i]);
        i = i + 1;
        assert(r@ =~= v@.subrange(lo as int, i as int));
    }
    r
}

pub fn is_ws_char(c: char) -> (r: bool)
    ensures
        r == is_ws(c),
{
    c == '\t' || c == '\n' || c == '\u{0B}' || c == '\u{0C}' || c == '\r' || c == ' ' || c
        == '\u{85}' || c == '\u{A0}' || c == '\u{1680}' || ('\u{2000}' <= c && c <= '\u{200A}')
        || c == '\u{2028}' || c == '\u{2029}' || c == '\u{202F}' || c == '\u{205F}' || c
        == '\u{3000}'
}

/// Bounds of `trim(v[lo..hi])` inside `v`.
pub fn trim_range(v: &Vec<char>, lo: usize, hi: usize) -> (r: (usize, usize))
    requires
        lo <= hi <= v@.len(),
    ensures
        lo <= r.0 <= r.1 <= hi,
        v@.subrange(r.0 as int, r.1 as int) == trim(v@.subrange(lo as int, hi as int)),
{
    let ghost s = v@.subrange(lo as int, hi as int);
    let mut i: usize = lo;
    while i < hi && is_ws_char(v[i])
        invariant
            lo <= i <= hi <= v@.len(),
            s == v@.subrange(lo as int, hi as int),
            forall|k: int| lo <= k < i ==> is_ws(#[trigger] v@[k]),
        decreases hi - i,
    {
        i = i + 1;
    }
    proof {
        assert forall|k: int| 0 <= k < i - lo implies is_ws(s[k]) by {
            assert(s[k] == v@[lo + k]);
        }
        lemma_trim_start_skip(s, i - lo);
        assert(s.skip(i - lo) =~= v@.subrange(i as int, hi as int));
        if i < hi {
            assert(!is_ws(v@.subrange(i as int, hi as int)[0]));
        }
    }
    let ghost t = v@.subrange(i as int, hi as int);
    assert(trim_start(s) == t);
    let mut j: usize = hi;
    while j > i && is_ws_char(v[j - 1])
        invariant
            lo <= i <= j <= hi <= v@.len(),
            t == v@.subrange(i as int, hi as int),
            forall|k: int| j <= k < hi ==> is_ws(#[trigger] v@[k]),
        decreases j - i,
    {
        j = j - 1;
    }
    proof {
        assert forall|k: int| j - i <= k < t.len() implies is_ws(t[k]) by {
            assert(t[k] == v@[i + k]);
        }
        lemma_trim_end_take(t, j - i);
        assert(t.take(j - i) =~= v@.subrange(i as int, j as int));
        if j > i {
            assert(v@.subrange(i as int, j as int).last() == v@[j - 1]);
        }
    }
    (i, j)
}

/// Index of the first `c` in `v[lo..hi]`, or `hi`.
pub fn find_char(v: &Vec<char>, lo: usize, hi: usize, c: char) -> (r: usize)
    requires
        lo <= hi <= v@.len(),
    ensures
        lo <= r <= hi,
        r - lo == find(v@.subrange(lo as int, hi as int), c),
{
    let mut i: usize = lo;
    while i < hi && v[i] != c
        invariant
            lo <= i <= hi <= v@.len(),
            forall|k: int| lo <= k < i ==> #[trigger] v@[k] != c,
        decreases hi - i,
    {
        i = i + 1;
    }
    proof {
        let s = v@.subrange(lo as int, hi as int);
        assert forall|k: int| 0 <= k < i - lo implies s[k] != c by {
            assert(s[k] == v@[lo + k]);
        }
        lemma_find_at(s, c, i - lo);
    }
    i
}

/// Bounds within `v` of the pieces of `v[lo..hi]` between occurrences of `sep`.
pub fn split_ranges(v: &Vec<char>, lo: usize, hi: usize, sep: char) -> (r: Vec<(usize, usize)>)
    requires
        lo <= hi <= v@.len(),
    ensures
        r@.len() == split(v@.subrange(lo as int, hi as int), sep).len(),
        forall|k: int|
            0 <= k < r@.len() ==> lo <= (#[trigger] r@[k]).0 <= r@[k].1 <= hi && v@.subrange(
                r@[k].0 as int,
                r@[k].1 as int,
            ) == split(v@.subrange(lo as int, hi as int), sep)[k],
{
    let ghost whole = split(v@.subrange(lo as int, hi as int), sep);
    let mut r: Vec<(usize, usize)> = Vec::new();
    let mut start: usize = lo;
    loop
        invariant
            lo <= start <= hi <= v@.len(),
            whole == split(v@.subrange(lo as int, hi as int), sep),
            r@.len() + split(v@.subrange(start as int, hi as int), sep).len() == whole.len(),
            forall|k: int|
                0 <= k < r@.len() ==> lo <= (#[trigger] r@[k]).0 <= r@[k].1 <= start
                    && v@.subrange(r@[k].0 as int, r@[k].1 as int) == whole[k],
            forall|k: int|
                0 <= k < split(v@.subrange(start as int, hi as int), sep).len() ==> whole[r@.len()
                    + k] == #[trigger] split(v@.subrange(start as int, hi as int), sep)[k],
        decreases hi - start,
    {
        let ghost rest = v@.subrange(start as int, hi as int);
        let j = find_char(v, start, hi, sep);
        if j < hi {
            proof {
                let tail = v@.subrange(j + 1, hi as int);
                assert(rest.skip(j - start + 1) =~= tail);
                assert(rest.take(j - start) =~= v@.subrange(start as int, j as int));
                assert(split(rest, sep) == seq![rest.take(j - start)] + split(tail, sep));
                assert(split(rest, sep)[0] == rest.take(j - start));
                assert forall|k: int| 0 <= k < split(tail, sep).len() implies whole[r@.len() + 1
                    + k] == #[trigger] split(tail, sep)[k] by {
                    assert(split(rest, sep)[k + 1] == split(tail, sep)[k]);
                }
            }
            r.push((start, j));
            start = j + 1;
        } else {
            proof {
                assert(split(rest, sep) == seq![rest]);
                assert(split(rest, sep)[0] == rest);
            }
            r.push((start, hi));
            return r;
        }
    }
}

/// `u32_text` of `v[lo..hi]`.
pub fn parse_u32(v: &Vec<char>, lo: usize, hi: usize) -> (r: Option<u32>)
    requires
        lo <= hi <= v@.len(),
    ensures
        r == u32_text(v@.subrange(lo as int, hi as int)),
{
    let ghost s = v@.subrange(lo as int, hi as int);
    let mut i: usize = lo;
    if i < hi && v[i] == '+' {
        i = i + 1;
    }
    let ghost d = v@.subrange(i as int, hi as int);
    assert(d == if s.len() > 0 && s[0] == '+' {
        s.drop_first()
    } else {
        s
    });
    if i == hi {
        return None;
    }
    let start = i;
    let mut acc: u64 = 0;
    while i < hi
        invariant
            lo <= start <= i <= hi <= v@.len(),
            d == v@.subrange(start as int, hi as int),
            s == v@.subrange(lo as int, hi as int),
            d == if s.len() > 0 && s[0] == '+' {
                s.drop_first()
            } else {
                s
            },
            all_digits(v@.subrange(start as int, i as int)),
            acc == digits_value(v@.subrange(start as int, i as int)),
            acc <= u32::MAX,
        decreases hi - i,
    {
        let c = v[i];
        if !('0' <= c && c <= '9') {
            proof {
                assert(d[i - start] == c);
                assert(!is_digit(d[i - start]));
            }
            return None;
        }
        let ghost prev = v@.subrange(start as int, i as int);
        let dv = (c as u32 - '0' as u32) as u64;
        acc = acc * 10 + dv;
        i = i + 1;
        proof {
            let cur = v@.subrange(start as int, i as int);
            assert(cur.drop_last() =~= prev);
            assert(cur.last() == c);
            assert(all_digits(cur)) by {
                assert forall|m: int| 0 <= m < cur.len() implies is_digit(#[trigger] cur[m]) by {
                    if m < cur.len() - 1 {
                        assert(cur[m] == prev[m]);
                    }
                }
            }
            assert(acc == digits_value(cur));
        }
        if acc > u32::MAX as u64 {
            proof {
                let cur = v@.subrange(start as int, i as int);
                assert(cur =~= d.take(i - start));
                if all_digits(d) {
                    lemma_digits_value_take_mono(d, i - start, d.len() as int);
                    assert(d.take(d.len() as int) =~= d);
                }
            }
            return None;
        }
    }
    Some(acc as u32)
}

/// `milli_text` of `v[lo..hi]`.
pub fn parse_milli(v: &Vec<char>, lo: usize, hi: usize) -> (r: Option<i64>)
    requires
        lo <= hi <= v@.len(),
    ensures
        r == milli_text(v@.subrange(lo as int, hi as int)),
{
    let ghost s = v@.subrange(lo as int, hi as int);
    let mut i: usize = lo;
    let mut neg = false;
    if i < hi && (v[i] == '-' || v[i] == '+') {
        neg = v[i] == '-';
        i = i + 1;
    }
    let ghost body = v@.subrange(i as int, hi as int);
    assert(body == if s.len() > 0 && (s[0] == '-' || s[0] == '+') {
        s.drop_first()
    } else {
        s
    });
    let dot = find_char(v, i, hi, '.');
    let ghost whole = body.take(dot - i);
    assert(whole =~= v@.subrange(i as int, dot as int));
    // whole part
    let start = i;
    let mut acc: u64 = 0;
    while i < dot
        invariant
            lo <= start <= i <= dot <= hi <= v@.len(),
            s == v@.subrange(lo as int, hi as int),
            body == if s.len() > 0 && (s[0] == '-' || s[0] == '+') {
                s.drop_first()
            } else {
                s
            },
            neg == (s.len() > 0 && s[0] == '-'),
            body == v@.subrange(start as int, hi as int),
            dot - start == find(body, '.'),
            whole == body.take(dot - start),
            whole == v@.subrange(start as int, dot as int),
            all_digits(v@.subrange(start as int, i as int)),
            acc == digits_value(v@.subrange(start as int, i as int)),
            acc <= MAX_WHOLE,
        decreases dot - i,
    {
        let c = v[i];
        if !('0' <= c && c <= '9') {
            proof {
                assert(whole[i - start] == c);
                assert(!is_digit(whole[i - start]));
            }
            return None;
        }
        let ghost prev = v@.subrange(start as int, i as int);
        acc = acc * 10 + (c as u32 - '0' as u32) as u64;
        i = i + 1;
        proof {
            let cur = v@.subrange(start as int, i as int);
            assert(cur.drop_last() =~= prev);
            assert(cur.last() == c);
            assert(all_digits(cur)) by {
                assert forall|m: int| 0 <= m < cur.len() implies is_digit(#[trigger] cur[m]) by {
                    if m < cur.len() - 1 {
                        assert(cur[m] == prev[m]);
                    }
                }
            }
            assert(acc == digits_value(cur));
        }
        if acc > MAX_WHOLE {
            proof {
                let cur = v@.subrange(start as int, i as int);
                assert(cur =~= whole.take(i - start));
                if all_digits(whole) {
                    lemma_digits_value_take_mono(whole, i - start, whole.len() as int);
                    assert(whole.take(whole.len() as int) =~= whole);
                }
            }
            return None;
        }
    }
    assert(v@.subrange(start as int, i as int) == whole);
    // fraction part
    let fstart: usize = if dot < hi {
        dot + 1
    } else {
        hi
    };
    let ghost frac = v@.subrange(fstart as int, hi as int);
    proof {
        if dot < hi {
            assert(body.skip(dot - start + 1) =~= frac);
        } else {
            assert(frac =~= Seq::<char>::empty());
        }
    }
    let mut k: usize = fstart;
    let mut f: u64 = 0;
    while k < hi
        invariant
            fstart <= k <= hi <= v@.len(),
            s == v@.subrange(lo as int, hi as int),
            body == if s.len() > 0 && (s[0] == '-' || s[0] == '+') {
                s.drop_first()
            } else {
                s
            },
            neg == (s.len() > 0 && s[0] == '-'),
            body == v@.subrange(start as int, hi as int),
            dot - start == find(body, '.'),
            whole == body.take(dot - start),
            lo <= start <= dot <= hi,
            all_digits(whole),
            acc == digits_value(whole),
            acc <= MAX_WHOLE,
            frac == if dot < hi {
                body.skip(dot - start + 1)
            } else {
                Seq::<char>::empty()
            },
            frac == v@.subrange(fstart as int, hi as int),
            forall|m: int| fstart <= m < k ==> is_digit(#[trigger] v@[m]),
        decreases hi - k,
    {
        let c = v[k];
        if !('0' <= c && c <= '9') {
            proof {
                assert(frac[k - fstart] == c);
                assert(!is_digit(frac[k - fstart]));
            }
            return None;
        }
        k = k + 1;
    }
    assert(all_digits(frac)) by {
        assert forall|m: int| 0 <= m < frac.len() implies is_digit(#[trigger] frac[m]) by {
            assert(frac[m] == v@[fstart + m]);
        }
    }
    if dot == start && fstart == hi {
        assert(whole.len() == 0);
        assert(frac.len() == 0);
        return None;
    }
    let n = hi - fstart;
    if n > 0 {
        f = f + (v[fstart] as u32 - '0' as u32) as u64 * 100;
    }
    if n > 1 {
        f = f + (v[fstart + 1] as u32 - '0' as u32) as u64 * 10;
    }
    if n > 2 {
        f = f + (v[fstart + 2] as u32 - '0' as u32) as u64;
    }
    assert(f == frac_milli(frac));
    proof {
        lemma_digits_value_bounds(whole);
    }
    let mag: i64 = (acc * 1000 + f) as i64;
    if neg {
        Some(-mag)
    } else {
        Some(mag)
    }
}

/// Whether `v[lo..hi]` starts with `p`.
pub fn prefix_at(v: &Vec<char>, lo: usize, hi: usize, p: &str) -> (r: bool)
    requires
        lo <= hi <= v@.len(),
    ensures
        r == starts_with(v@.subrange(lo as int, hi as int), p@),
{
    let n = p.unicode_len();
    if n > hi - lo {
        return false;
    }
    let mut i: usize = 0;
    while i < n
        invariant
            n == p@.len(),
            lo + n <= hi <= v@.len(),
            i <= n,
            forall|k: int| 0 <= k < i ==> v@[lo + k] == p@[k],
        decreases n - i,
    {
        if v[lo + i] != p.get_char(i) {
            assert(v@.subrange(lo as int, hi as int).take(n as int)[i as int] != p@[i as int]);
            return false;
        }
        i = i + 1;
    }
    assert(v@.subrange(lo as int, hi as int).take(n as int) =~= p@);
    true
}

/// Whether `v[lo..hi]` is `p`.
pub fn text_is(v: &Vec<char>, lo: usize, hi: usize, p: &str) -> (r: bool)
    requires
        lo <= hi <= v@.len(),
    ensures
        r == (v@.subrange(lo as int, hi as int) == p@),
{
    let b = prefix_at(v, lo, hi, p);
    if b && p.unicode_len() == hi - lo {
        assert(v@.subrange(lo as int, hi as int).take(p@.len() as int) =~= v@.subrange(
            lo as int,
            hi as int,
        ));
        true
    } else {
        proof {
            let s = v@.subrange(lo as int, hi as int);
            if s == p@ {
                assert(s.take(p@.len() as int) =~= s);
            }
        }
        false
    }
}

/// Appends the decimal digits of `n`.
pub fn push_nat(out: &mut String, n: u64)
    ensures
        final(out)@ == old(out)@ + nat_text(n as nat),
    decreases n,
{
    if n >= 10 {
        push_nat(out, n / 10);
    }
    let c = ((n % 10) as u8 + 48u8) as char;
    push_char(out, c);
    proof {
        if n < 10 {
            assert(seq![digit_char(n as int)] =~= Seq::<char>::empty().push(digit_char(n as int)));
        }
    }
    assert(final(out)@ =~= old(out)@ + nat_text(n as nat));
}

/// Appends `v` thousandths with three decimals.
pub fn push_fixed3(out: &mut String, v: i64)
    ensures
        final(out)@ == old(out)@ + fixed3_text(v as int),
{
    let ghost start = out@;
    let a: u64 = if v < 0 {
        push_char(out, '-');
        ((-(v + 1)) as u64) + 1
    } else {
        v as u64
    };
    push_nat(out, a / 1000);
    push_char(out, '.');
    let r = a % 1000;
    push_nat(out, r / 100);
    push_nat(out, (r / 10) % 10);
    push_nat(out, r % 10);
    proof {
        reveal_with_fuel(nat_text, 2);
    }
    assert(out@ =~= start + fixed3_text(v as int));
}

} // verus!
