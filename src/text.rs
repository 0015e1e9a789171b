//! Plain-text grammar shared by the sensor files and the bridge output:
//! whitespace trimming and decimal numbers held in fixed point.

use vstd::prelude::*;

verus! {

/// Characters with the Unicode `White_Space` property, the set that
/// `char::is_whitespace` recognises.
pub open spec fn is_space(c: char) -> bool {
    let u = c as u32;
    (9 <= u && u <= 13) || u == 32 || u == 0x85 || u == 0xa0 || u == 0x1680
        || (0x2000 <= u && u <= 0x200a) || u == 0x2028 || u == 0x2029 || u == 0x202f
        || u == 0x205f || u == 0x3000
}

pub fn is_space_char(c: char) -> (r: bool)
    ensures
        r == is_space(c),
{
    let u = c as u32;
    (9 <= u && u <= 13) || u == 32 || u == 0x85 || u == 0xa0 || u == 0x1680
        || (0x2000 <= u && u <= 0x200a) || u == 0x2028 || u == 0x2029 || u == 0x202f
        || u == 0x205f || u == 0x3000
}

/// `s` without its leading whitespace.
pub open spec fn trim_front(s: Seq<char>) -> Seq<char>
    decreases s.len(),
{
    if s.len() > 0 && is_space(s[0]) {
        trim_front(s.subrange(1, s.len() as int))
    } else {
        s
    }
}

/// `s` without its trailing whitespace.
pub open spec fn trim_back(s: Seq<char>) -> Seq<char>
    decreases s.len(),
{
    if s.len() > 0 && is_space(s.last()) {
        trim_back(s.drop_last())
    } else {
        s
    }
}

/// `s` without leading and trailing whitespace.
pub open spec fn trimmed(s: Seq<char>) -> Seq<char> {
    trim_back(trim_front(s))
}

/// Returns `s` without leading and trailing whitespace.
pub fn trim(s: &str) -> (r: &str)
    ensures
        r@ == trimmed(s@),
{
    let n = s.unicode_len();
    let mut lo: usize = 0;
    assert(s@.subrange(0, n as int) =~= s@);
    while lo < n && is_space_char(s.get_char(lo))
        invariant
            lo <= n,
            n == s@.len(),
            trim_front(s@) == trim_front(s@.subrange(lo as int, n as int)),
        decreases n - lo,
    {
        assert(s@.subrange(lo as int, n as int).subrange(1, n - lo) =~= s@.subrange(
            lo + 1,
            n as int,
        ));
        lo = lo + 1;
    }
    assert(trim_front(s@) == s@.subrange(lo as int, n as int));
    let mut hi: usize = n;
    while hi > lo && is_space_char(s.get_char(hi - 1))
        invariant
            lo <= hi <= n,
            n == s@.len(),
            trimmed(s@) == trim_back(s@.subrange(lo as int, hi as int)),
        decreases hi - lo,
    {
        assert(s@.subrange(lo as int, hi as int).drop_last() =~= s@.subrange(
            lo as int,
            hi - 1,
        ));
        hi = hi - 1;
    }
    s.substring_char(lo, hi)
}

/// Largest whole part that a decimal number may have.
pub const MAX_WHOLE: u64 = 1_000_000_000_000;

pub open spec fn is_digit(c: char) -> bool {
    48 <= (c as u32) && (c as u32) <= 57
}

pub open spec fn all_digits(s: Seq<char>) -> bool {
    forall|j: int| 0 <= j < s.len() ==> is_digit(#[trigger] s[j])
}

/// The number that a run of decimal digits denotes.
pub open spec fn digits_value(s: Seq<char>) -> int
    decreases s.len(),
{
    if s.len() == 0 {
        0
    } else {
        digits_value(s.drop_last()) * 10 + (s.last() as u32 - 48)
    }
}

/// Thousandths denoted by a fraction of at most three digits.
pub open spec fn fraction_thousandths(f: Seq<char>) -> int {
    if f.len() == 1 {
        digits_value(f) * 100
    } else if f.len() == 2 {
        digits_value(f) * 10
    } else {
        digits_value(f)
    }
}

/// `b` is digits, a point at `k`, and at most three digits, with a digit on
/// at least one side of the point.
pub open spec fn point_at(b: Seq<char>, k: int) -> bool {
    &&& 0 <= k < b.len()
    &&& b[k] == '.'
    &&& all_digits(b.subrange(0, k))
    &&& all_digits(b.subrange(k + 1, b.len() as int))
    &&& b.len() - k - 1 <= 3
    &&& b.len() >= 2
}

/// The whole part and the thousandths of an unsigned decimal number, if `b`
/// is one whose whole part is at most `MAX_WHOLE`.
pub open spec fn unsigned_decimal(b: Seq<char>) -> Option<(int, int)> {
    if b.len() > 0 && all_digits(b) {
        if digits_value(b) <= MAX_WHOLE {
            Some((digits_value(b), 0))
        } else {
            None
        }
    } else if exists|k: int| point_at(b, k) {
        let k = choose|k: int| point_at(b, k);
        let w = b.subrange(0, k);
        if digits_value(w) <= MAX_WHOLE {
            Some((digits_value(w), fraction_thousandths(b.subrange(k + 1, b.len() as int))))
        } else {
            None
        }
    } else {
        None
    }
}

/// A decimal number with at most three fractional digits, read from text:
/// an optional sign, digits, and an optional point followed by at most three
/// digits.
#[derive(Clone, Copy, Debug, PartialEq, Eq, Structural)]
pub struct Decimal {
    pub negative: bool,
    pub whole: u64,
    pub thousandths: u64,
}

impl Decimal {
    /// The value in thousandths.
    pub open spec fn milli(self) -> int {
        let m = self.whole * 1000 + self.thousandths;
        if self.negative {
            -m
        } else {
            m
        }
    }

    /// A decimal read from text has a bounded whole part and a fraction below one.
    pub open spec fn wf(self) -> bool {
        self.whole <= MAX_WHOLE && self.thousandths < 1000
    }

    /// The value in thousandths.
    pub fn to_milli(&self) -> (r: i64)
        requires
            self.wf(),
        ensures
            r as int == self.milli(),
    {
        let m = (self.whole * 1000 + self.thousandths) as i64;
        if self.negative {
            -m
        } else {
            m
        }
    }
}

/// What `t` denotes as a decimal number, if it is one.
pub open spec fn decimal_of(t: Seq<char>) -> Option<Decimal> {
    let signed = t.len() > 0 && (t[0] == '-' || t[0] == '+');
    let body = if signed {
        t.subrange(1, t.len() as int)
    } else {
        t
    };
    match unsigned_decimal(body) {
        Some((w, f)) => Some(
            Decimal { negative: signed && t[0] == '-', whole: w as u64, thousandths: f as u64 },
        ),
        None => None,
    }
}

proof fn lemma_point_unique(b: Seq<char>, i: int)
    requires
        0 <= i < b.len(),
        all_digits(b.subrange(0, i)),
        !is_digit(b[i]),
    ensures
        forall|k: int| point_at(b, k) ==> k == i,
{
    assert forall|k: int| point_at(b, k) implies k == i by {
        if k < i {
            assert(b.subrange(0, i)[k] == b[k]);
        } else if k > i {
            assert(b.subrange(0, k)[i] == b[i]);
        }
    }
}

proof fn lemma_digits_bounds(s: Seq<char>)
    requires
        all_digits(s),
    ensures
        0 <= digits_value(s),
        s.len() <= 3 ==> digits_value(s) < 1000,
        s.len() == 1 ==> digits_value(s) < 10,
        s.len() == 2 ==> digits_value(s) < 100,
    decreases s.len(),
{
    if s.len() > 0 {
        assert(all_digits(s.drop_last())) by {
            assert forall|j: int| 0 <= j < s.drop_last().len() implies is_digit(
                #[trigger] s.drop_last()[j],
            ) by {
                assert(s.drop_last()[j] == s[j]);
            }
        }
        lemma_digits_bounds(s.drop_last());
        assert(is_digit(s[s.len() - 1]));
    }
}

/// Reads a run of digits from the start of `b`: returns where it ends, its
/// value, and whether that value exceeds `MAX_WHOLE` (the value is then not kept).
fn digit_run(b: &str, from: usize, limit: usize) -> (r: (usize, u64, bool))
    requires
        from <= b@.len(),
    ensures
        from <= r.0 <= b@.len(),
        r.0 - from <= limit,
        all_digits(b@.subrange(from as int, r.0 as int)),
        r.0 < b@.len() && r.0 - from < limit ==> !is_digit(b@[r.0 as int]),
        r.2 == (digits_value(b@.subrange(from as int, r.0 as int)) > MAX_WHOLE),
        !r.2 ==> r.1 == digits_value(b@.subrange(from as int, r.0 as int)),
{
    let n = b.unicode_len();
    let mut i: usize = from;
    let mut value: u64 = 0;
    let mut over = false;
    assert(b@.subrange(from as int, from as int) =~= Seq::<char>::empty());
    loop
        invariant
            from <= i <= n,
            n == b@.len(),
            i - from <= limit,
            all_digits(b@.subrange(from as int, i as int)),
            over == (digits_value(b@.subrange(from as int, i as int)) > MAX_WHOLE),
            !over ==> value == digits_value(b@.subrange(from as int, i as int)),
        ensures
            i < n && i - from < limit ==> !is_digit(b@[i as int]),
        decreases n - i,
    {
        if i >= n || i - from >= limit {
            break;
        }
        let c = b.get_char(i);
        if !(48 <= (c as u32) && (c as u32) <= 57) {
            break;
        }
        let ghost prev = b@.subrange(from as int, i as int);
        let ghost next = b@.subrange(from as int, i + 1);
        assert(next.drop_last() =~= prev);
        assert(all_digits(next)) by {
            assert forall|j: int| 0 <= j < next.len() implies is_digit(#[trigger] next[j]) by {
                if j < prev.len() {
                    assert(next[j] == prev[j]);
                }
            }
        }
        proof {
            lemma_digits_bounds(prev);
        }
        let d = (c as u32 - 48) as u64;
        if !over {
            value = value * 10 + d;
            over = value > MAX_WHOLE;
        }
        i = i + 1;
    }
    (i, value, over)
}

/// Reads an unsigned decimal from all of `b`.
fn parse_unsigned(b: &str) -> (r: Option<(u64, u64)>)
    ensures
        match r {
            Some((w, f)) => unsigned_decimal(b@) == Some((w as int, f as int)),
            None => unsigned_decimal(b@) is None,
        },
{
    let n = b.unicode_len();
    let (i, whole, over) = digit_run(b, 0, n);
    assert(b@.subrange(0, n as int) =~= b@);
    if i == n {
        if n == 0 || over {
            return None;
        }
        return Some((whole, 0));
    }
    proof {
        lemma_point_unique(b@, i as int);
    }
    assert(!all_digits(b@)) by {
        assert(!is_digit(b@[i as int]));
    }
    if b.get_char(i) != '.' {
        return None;
    }
    let (j, frac, _) = digit_run(b, i + 1, 3);
    let ghost f = b@.subrange(i + 1, n as int);
    if j < n {
        assert(!point_at(b@, i as int)) by {
            if j - (i + 1) < 3 {
                assert(f[j - (i + 1)] == b@[j as int]);
            }
        }
        return None;
    }
    if n < 2 || over {
        return None;
    }
    assert(point_at(b@, i as int));
    proof {
        lemma_digits_bounds(f);
    }
    let count = j - (i + 1);
    let thousandths = if count == 1 {
        frac * 100
    } else if count == 2 {
        frac * 10
    } else {
        frac
    };
    Some((whole, thousandths))
}

/// Reads the decimal number that all of `t` denotes, if it is one.
pub fn parse_decimal(t: &str) -> (r: Option<Decimal>)
    ensures
        r == decimal_of(t@),
        r matches Some(d) ==> d.wf(),
{
    let n = t.unicode_len();
    let mut negative = false;
    let mut body = t;
    if n > 0 {
        let c = t.get_char(0);
        if c == '-' || c == '+' {
            negative = c == '-';
            body = t.substring_char(1, n);
        }
    }
    match parse_unsigned(body) {
        Some((whole, thousandths)) => {
            proof {
                let b = body@;
                if !(b.len() > 0 && all_digits(b)) {
                    let k = choose|k: int| point_at(b, k);
                    lemma_digits_bounds(b.subrange(k + 1, b.len() as int));
                }
            }
            Some(Decimal { negative, whole, thousandths })
        },
        None => None,
    }
}

} // verus!
