//! The delay before the single retry, read from the server's rate hint.
//! Delays are whole milliseconds; the hint is a decimal number of seconds,
//! with an optional sign `+` and an optional exponent.
use vstd::prelude::*;
use vstd::string::StrSliceExecFns;

verus! {

/// The delay used when the server gives no usable rate hint: three seconds.
pub const DEFAULT_RATE_MILLIS: u64 = 3000;

pub open spec fn is_digit(c: char) -> bool {
    '0' <= c && c <= '9'
}

pub open spec fn digit_value(c: char) -> int {
    c as int - '0' as int
}

pub open spec fn all_digits(s: Seq<char>) -> bool {
    forall|i: int| 0 <= i < s.len() ==> is_digit(#[trigger] s[i])
}

/// The number that a run of decimal digits denotes.
pub open spec fn digits_value(s: Seq<char>) -> int
    decreases s.len(),
{
    if s.len() == 0 {
        0
    } else {
        digits_value(s.drop_last()) * 10 + digit_value(s.last())
    }
}

/// The length of the run of digits that `s` starts with.
pub open spec fn digit_run(s: Seq<char>) -> nat
    decreases s.len(),
{
    if s.len() > 0 && is_digit(s[0]) {
        1 + digit_run(s.drop_first())
    } else {
        0
    }
}


/// Ten to the power `k`.
pub open spec fn pow10(k: nat) -> nat
    decreases k,
{
    if k == 0 {
        1
    } else {
        10 * pow10((k - 1) as nat)
    }
}

/// The index where the run of digits that starts at `i` ends.
pub open spec fn run_end(s: Seq<char>, i: int) -> int {
    i + digit_run(s.skip(i))
}

/// The length of an optional leading `+`.
pub open spec fn sign_len(s: Seq<char>) -> int {
    if s.len() > 0 && s[0] == '+' {
        1
    } else {
        0
    }
}

/// Where the integer digits end.
pub open spec fn int_end(s: Seq<char>) -> int {
    run_end(s, sign_len(s))
}

/// Whether a decimal point follows the integer digits.
pub open spec fn has_point(s: Seq<char>) -> bool {
    int_end(s) < s.len() && s[int_end(s)] == '.'
}

/// Where the fractional digits end (the integer digits' end where no point
/// follows them).
pub open spec fn frac_end(s: Seq<char>) -> int {
    if has_point(s) {
        run_end(s, int_end(s) + 1)
    } else {
        int_end(s)
    }
}

/// The number of fractional digits.
pub open spec fn frac_len(s: Seq<char>) -> int {
    if has_point(s) {
        frac_end(s) - int_end(s) - 1
    } else {
        0
    }
}

/// The integer digits followed by the fractional digits.
pub open spec fn mantissa(s: Seq<char>) -> Seq<char> {
    s.subrange(sign_len(s), int_end(s)) + if has_point(s) {
        s.subrange(int_end(s) + 1, frac_end(s))
    } else {
        Seq::<char>::empty()
    }
}

/// The decimal exponent: zero where the number ends after its mantissa, the
/// value of `e` or `E`, an optional sign and at least one digit where those
/// end the text, and `None` where anything else follows.
pub open spec fn exponent(s: Seq<char>) -> Option<int> {
    let q = frac_end(s);
    if q == s.len() {
        Some(0)
    } else if s[q] == 'e' || s[q] == 'E' {
        let signed = q + 1 < s.len() && (s[q + 1] == '+' || s[q + 1] == '-');
        let b = if signed {
            q + 2
        } else {
            q + 1
        };
        let r = run_end(s, b);
        if r == s.len() && r > b {
            if signed && s[q + 1] == '-' {
                Some(-digits_value(s.subrange(b, r)))
            } else {
                Some(digits_value(s.subrange(b, r)))
            }
        } else {
            None
        }
    } else {
        None
    }
}

/// The number whose digits are `ds`, times ten to the power `k`, with the
/// digits after the decimal point dropped.
pub open spec fn scaled(ds: Seq<char>, k: int) -> int {
    if k >= 0 {
        digits_value(ds) * pow10(k as nat)
    } else if ds.len() + k > 0 {
        digits_value(ds.take(ds.len() + k))
    } else {
        0
    }
}

/// The whole milliseconds that a hint denotes, read as a decimal number of
/// seconds: an optional `+`, digits with an optional decimal point (at least
/// one digit), and an optional exponent. `None` for any other text.
pub open spec fn hint_millis(s: Seq<char>) -> Option<int> {
    if mantissa(s).len() == 0 {
        None
    } else {
        match exponent(s) {
            Some(e) => Some(scaled(mantissa(s), 3 + e - frac_len(s))),
            None => None,
        }
    }
}

/// The delay before retrying: the hint's milliseconds where the hint is
/// present, well formed and fits in `u64`, and the default otherwise.
pub open spec fn retry_delay_spec(hint: Option<Seq<char>>) -> u64 {
    match hint {
        Some(h) => match hint_millis(h) {
            Some(ms) => if ms <= u64::MAX {
                ms as u64
            } else {
                DEFAULT_RATE_MILLIS
            },
            None => DEFAULT_RATE_MILLIS,
        },
        None => DEFAULT_RATE_MILLIS,
    }
}

proof fn lemma_digit_run_of_digits(s: Seq<char>, n: int)
    requires
        0 <= n <= s.len(),
        all_digits(s.take(n)),
        n < s.len() ==> !is_digit(s[n]),
    ensures
        digit_run(s) == n,
    decreases n,
{
    if n > 0 {
        assert(is_digit(s.take(n)[0]));
        assert forall|i: int| 0 <= i < n - 1 implies is_digit(#[trigger] s.drop_first().take(n - 1)[i]) by {
            assert(s.drop_first().take(n - 1)[i] == s.take(n)[i + 1]);
        }
        if n < s.len() {
            assert(s.drop_first()[n - 1] == s[n]);
        }
        lemma_digit_run_of_digits(s.drop_first(), n - 1);
    } else if s.len() > 0 {
        assert(!is_digit(s[0]));
    }
}

proof fn lemma_digits_value_grows(s: Seq<char>, k: int)
    requires
        0 <= k <= s.len(),
        all_digits(s),
    ensures
        digits_value(s.take(k)) <= digits_value(s),
        digits_value(s) >= 0,
    decreases s.len(),
{
    if s.len() > 0 {
        let t = s.drop_last();
        assert(all_digits(t)) by {
            assert forall|i: int| 0 <= i < t.len() implies is_digit(#[trigger] t[i]) by {
                assert(t[i] == s[i]);
            }
        }
        assert(is_digit(s[s.len() - 1]));
        if k == s.len() {
            assert(s.take(k) =~= s);
            lemma_digits_value_grows(t, 0);
        } else {
            assert(s.take(k) =~= t.take(k));
            lemma_digits_value_grows(t, k);
        }
    } else {
        assert(s.take(k) =~= s);
    }
}

proof fn lemma_pow10_grows(a: nat, b: nat)
    requires
        a <= b,
    ensures
        1 <= pow10(a) <= pow10(b),
    decreases b,
{
    if b > 0 {
        if a == b {
            lemma_pow10_grows(0, (b - 1) as nat);
        } else {
            lemma_pow10_grows(a, (b - 1) as nat);
        }
    }
}

proof fn lemma_scaled_grows(m: int, a: nat, b: nat)
    requires
        m >= 0,
        a <= b,
    ensures
        m * pow10(a) <= m * pow10(b),
        m * pow10(a) >= 0,
{
    lemma_pow10_grows(a, b);
    let pa = pow10(a) as int;
    let pb = pow10(b) as int;
    assert(m * pa <= m * pb && m * pa >= 0) by (nonlinear_arith)
        requires
            m >= 0,
            0 <= pa <= pb,
    ;
}

proof fn lemma_pow10_exceeds_u64(k: nat)
    requires
        k >= 20,
    ensures
        pow10(k) > u64::MAX,
{
    reveal_with_fuel(pow10, 21);
    lemma_pow10_grows(20, k);
}

proof fn lemma_digits_step(s: Seq<char>, i: int)
    requires
        0 <= i < s.len(),
    ensures
        digits_value(s.take(i + 1)) == digits_value(s.take(i)) * 10 + digit_value(s[i]),
{
    assert(s.take(i + 1).drop_last() =~= s.take(i));
}

proof fn lemma_all_digits_extend(s: Seq<char>, i: int, j: int)
    requires
        0 <= i <= j < s.len(),
        all_digits(s.subrange(i, j)),
        is_digit(s[j]),
    ensures
        all_digits(s.subrange(i, j + 1)),
{
    assert forall|k: int| 0 <= k < j + 1 - i implies is_digit(#[trigger] s.subrange(i, j + 1)[k]) by {
        if k < j - i {
            assert(s.subrange(i, j + 1)[k] == s.subrange(i, j)[k]);
        }
    }
}

/// The end of the run of digits of `hint` that starts at `i`.
fn scan_digits(hint: &str, n: usize, i: usize) -> (r: usize)
    requires
        n == hint@.len(),
        i <= n,
    ensures
        r == run_end(hint@, i as int),
        i <= r <= n,
        all_digits(hint@.subrange(i as int, r as int)),
{
    let ghost s = hint@;
    let mut j: usize = i;
    while j < n && '0' <= hint.get_char(j) && hint.get_char(j) <= '9'
        invariant
            n == s.len(),
            s == hint@,
            i <= j <= n,
            all_digits(s.subrange(i as int, j as int)),
        decreases n - j,
    {
        proof {
            lemma_all_digits_extend(s, i as int, j as int);
        }
        j = j + 1;
    }
    proof {
        let t = s.skip(i as int);
        assert(t.take(j - i) =~= s.subrange(i as int, j as int));
        if j < n {
            assert(t[j - i] == s[j as int]);
        }
        lemma_digit_run_of_digits(t, j - i);
    }
    j
}

/// The value of the digits of `hint` between `b` and `r`, or `cap` where the
/// value is larger.
fn digits_capped(hint: &str, b: usize, r: usize, cap: u128) -> (v: u128)
    requires
        b <= r <= hint@.len(),
        all_digits(hint@.subrange(b as int, r as int)),
        cap <= u64::MAX as u128 * 2,
    ensures
        v == (if digits_value(hint@.subrange(b as int, r as int)) <= cap {
            digits_value(hint@.subrange(b as int, r as int))
        } else {
            cap as int
        }),
{
    let ghost s = hint@;
    let mut v: u128 = 0;
    let mut j: usize = b;
    assert(s.subrange(b as int, b as int).len() == 0);
    while j < r
        invariant
            s == hint@,
            b <= j <= r <= s.len(),
            all_digits(s.subrange(b as int, r as int)),
            cap <= u64::MAX as u128 * 2,
            digits_value(s.subrange(b as int, j as int)) >= 0,
            v == (if digits_value(s.subrange(b as int, j as int)) <= cap {
                digits_value(s.subrange(b as int, j as int))
            } else {
                cap as int
            }),
        decreases r - j,
    {
        let c = hint.get_char(j);
        proof {
            assert(s.subrange(b as int, j + 1).drop_last() =~= s.subrange(b as int, j as int));
            assert(s.subrange(b as int, r as int)[j - b] == c);
        }
        let d = (c as u32 - '0' as u32) as u128;
        let w = v * 10 + d;
        v = if w <= cap {
            w
        } else {
            cap
        };
        j = j + 1;
    }
    v
}

/// The value of the first `len` digits of `ds`, where it fits in `u64`.
fn prefix_value(ds: &Vec<char>, len: usize) -> (r: Option<u64>)
    requires
        len <= ds@.len(),
        all_digits(ds@),
    ensures
        digits_value(ds@.take(len as int)) >= 0,
        r == (if digits_value(ds@.take(len as int)) <= u64::MAX {
            Some(digits_value(ds@.take(len as int)) as u64)
        } else {
            None
        }),
{
    let mut whole: u64 = 0;
    let mut i: usize = 0;
    assert(ds@.take(0).len() == 0);
    assert(all_digits(ds@.take(len as int)));
    proof {
        lemma_digits_value_grows(ds@.take(len as int), 0);
    }
    while i < len
        invariant
            len <= ds@.len(),
            all_digits(ds@),
            all_digits(ds@.take(len as int)),
            i <= len,
            whole == digits_value(ds@.take(i as int)),
            digits_value(ds@.take(len as int)) >= 0,
        decreases len - i,
    {
        let c = ds[i];
        let d = (c as u32 - '0' as u32) as u64;
        proof {
            lemma_digits_step(ds@, i as int);
            assert(is_digit(ds@[i as int]));
            assert(ds@.take(len as int).take(i + 1) =~= ds@.take(i + 1));
            lemma_digits_value_grows(ds@.take(len as int), i + 1);
        }
        match whole.checked_mul(10) {
            Some(w) => match w.checked_add(d) {
                Some(w2) => whole = w2,
                None => return None,
            },
            None => return None,
        }
        i = i + 1;
    }
    assert(ds@.take(i as int) =~= ds@.take(len as int));
    Some(whole)
}

/// The digits of the mantissa of `hint`, whose sign, integer digits and
/// fractional digits end at `a`, `p` and `q`.
fn mantissa_digits(hint: &str, a: usize, p: usize, q: usize, point: bool) -> (ds: Vec<char>)
    requires
        a as int == sign_len(hint@),
        p as int == int_end(hint@),
        point == has_point(hint@),
        q as int == frac_end(hint@),
        a <= p <= q <= hint@.len(),
        all_digits(hint@.subrange(a as int, p as int)),
        point ==> p + 1 <= q && all_digits(hint@.subrange(p + 1, q as int)),
    ensures
        ds@ == mantissa(hint@),
        all_digits(ds@),
{
    let ghost s = hint@;
    let mut ds: Vec<char> = Vec::new();
    let mut j: usize = a;
    while j < p
        invariant
            s == hint@,
            a <= j <= p <= s.len(),
            ds@ =~= s.subrange(a as int, j as int),
        decreases p - j,
    {
        ds.push(hint.get_char(j));
        assert(s.subrange(a as int, j + 1) =~= s.subrange(a as int, j as int).push(s[j as int]));
        j = j + 1;
    }
    if point {
        j = p + 1;
        while j < q
            invariant
                s == hint@,
                p + 1 <= j <= q <= s.len(),
                ds@ =~= s.subrange(a as int, p as int) + s.subrange(p + 1, j as int),
            decreases q - j,
        {
            ds.push(hint.get_char(j));
            assert(s.subrange(p + 1, j + 1) =~= s.subrange(p + 1, j as int).push(s[j as int]));
            j = j + 1;
        }
    }
    let ghost m = mantissa(s);
    assert(ds@ =~= m);
    assert(all_digits(m)) by {
        let x = s.subrange(a as int, p as int);
        assert forall|k: int| 0 <= k < m.len() implies is_digit(#[trigger] m[k]) by {
            if k < x.len() {
                assert(m[k] == x[k]);
            } else {
                assert(m[k] == s.subrange(p + 1, q as int)[k - x.len()]);
            }
        }
    }
    ds
}

/// The exponent of `hint`, whose mantissa ends at `q`, with its magnitude held
/// to at most `cap`; `None` where the text after the mantissa is no exponent.
fn capped_exponent(hint: &str, n: usize, q: usize, cap: u128) -> (r: Option<i128>)
    requires
        n == hint@.len(),
        q as int == frac_end(hint@),
        q <= n,
        cap <= u64::MAX as u128 * 2,
    ensures
        r is Some <==> exponent(hint@) is Some,
        r is Some ==> (if exponent(hint@)->Some_0 > cap {
            r->Some_0 == cap
        } else if exponent(hint@)->Some_0 < -cap {
            r->Some_0 == -cap
        } else {
            r->Some_0 == exponent(hint@)->Some_0
        }),
{
    if q == n {
        return Some(0);
    }
    let c = hint.get_char(q);
    if c != 'e' && c != 'E' {
        return None;
    }
    let signed = q + 1 < n && (hint.get_char(q + 1) == '+' || hint.get_char(q + 1) == '-');
    let neg = signed && hint.get_char(q + 1) == '-';
    let b = if signed {
        q + 2
    } else {
        q + 1
    };
    let r = scan_digits(hint, n, b);
    if r != n || r == b {
        return None;
    }
    let mag = digits_capped(hint, b, r, cap);
    if neg {
        Some(-(mag as i128))
    } else {
        Some(mag as i128)
    }
}

/// The whole milliseconds `scaled(ds@, k)`, where they fit in `u64`.
fn scale_millis(ds: &Vec<char>, k: i128) -> (r: Option<u64>)
    requires
        all_digits(ds@),
    ensures
        r == (if scaled(ds@, k as int) <= u64::MAX {
            Some(scaled(ds@, k as int) as u64)
        } else {
            None
        }),
        scaled(ds@, k as int) >= 0,
{
    let ghost mv = digits_value(ds@);
    proof {
        assert(ds@.take(ds@.len() as int) =~= ds@);
        lemma_digits_value_grows(ds@, 0);
    }
    if k < 0 {
        let cut: i128 = ds.len() as i128 + k;
        if cut <= 0 {
            assert(scaled(ds@, k as int) == 0);
            return Some(0);
        }
        assert(scaled(ds@, k as int) == digits_value(ds@.take(cut as int)));
        return prefix_value(ds, cut as usize);
    }
    proof {
        lemma_scaled_grows(mv, 0, k as nat);
        assert(pow10(0) == 1);
        assert(mv * pow10(0) == mv);
    }
    let mm = match prefix_value(ds, ds.len()) {
        Some(mm) => mm,
        None => {
            assert(scaled(ds@, k as int) == mv * pow10(k as nat));
            return None;
        },
    };
    assert(mv == mm as int);
    if mm == 0 {
        proof {
            let pk = pow10(k as nat) as int;
            assert(mv * pk == 0) by (nonlinear_arith)
                requires
                    mv == 0,
            ;
        }
        return Some(0);
    }
    let mut v: u64 = mm;
    let mut i: i128 = 0;
    while i < k
        invariant
            0 <= i <= k,
            mv >= 1,
            mv == digits_value(ds@),
            v == mv * pow10(i as nat),
        decreases k - i,
    {
        proof {
            let p0 = pow10(i as nat) as int;
            let p1 = pow10((i + 1) as nat) as int;
            assert(p1 == 10 * p0);
            assert(mv * p1 == v * 10) by (nonlinear_arith)
                requires
                    p1 == 10 * p0,
                    v == mv * p0,
            ;
        }
        match v.checked_mul(10) {
            Some(w) => v = w,
            None => {
                proof {
                    lemma_scaled_grows(mv, (i + 1) as nat, k as nat);
                    assert(scaled(ds@, k as int) == mv * pow10(k as nat));
                }
                return None;
            },
        }
        i = i + 1;
    }
    Some(v)
}

/// Past the bound on the exponent, only whether the mantissa is zero decides
/// the result: a larger power of ten overflows `u64` alike, a smaller one
/// leaves no whole millisecond alike.
proof fn lemma_exponent_bound(m: Seq<char>, k: int, kt: int)
    requires
        all_digits(m),
        (k >= 20 && kt >= k) || (k + m.len() <= 0 && kt <= k),
    ensures
        (scaled(m, k) <= u64::MAX) == (scaled(m, kt) <= u64::MAX),
        scaled(m, k) <= u64::MAX ==> scaled(m, k) == scaled(m, kt),
{
    let mv = digits_value(m);
    lemma_digits_value_grows(m, 0);
    if k + m.len() <= 0 && kt <= k {
        assert(scaled(m, k) == 0);
        assert(scaled(m, kt) == 0);
    } else if mv == 0 {
        let pk = pow10(k as nat) as int;
        let pt = pow10(kt as nat) as int;
        assert(mv * pk == 0 && mv * pt == 0) by (nonlinear_arith)
            requires
                mv == 0,
        ;
        assert(scaled(m, k) == 0);
        assert(scaled(m, kt) == 0);
    } else {
        lemma_pow10_exceeds_u64(k as nat);
        lemma_pow10_grows(k as nat, kt as nat);
        if mv >= 1 {
            let pk = pow10(k as nat) as int;
            let pt = pow10(kt as nat) as int;
            assert(mv * pk >= pk && mv * pt >= pt) by (nonlinear_arith)
                requires
                    mv >= 1,
                    pk >= 0,
                    pt >= 0,
            ;
        }
    }
}

/// Reads a rate hint as whole milliseconds: `None` where the text is not a
/// decimal number of seconds of the form that `hint_millis` reads, or where its
/// milliseconds overflow `u64`.
pub fn parse_rate_millis(hint: &str) -> (r: Option<u64>)
    ensures
        r == (match hint_millis(hint@) {
            Some(ms) => if ms <= u64::MAX {
                Some(ms as u64)
            } else {
                None
            },
            None => None,
        }),
{
    let n = hint.unicode_len();
    let ghost s = hint@;
    let a: usize = if n > 0 && hint.get_char(0) == '+' {
        1
    } else {
        0
    };
    let p = scan_digits(hint, n, a);
    let point = p < n && hint.get_char(p) == '.';
    let q = if point {
        scan_digits(hint, n, p + 1)
    } else {
        p
    };
    let ds = mantissa_digits(hint, a, p, q, point);
    if ds.len() == 0 {
        return None;
    }
    // the exponent's magnitude is held up to a bound past which only whether
    // the mantissa is zero decides the result
    let cap: u128 = ds.len() as u128 + 64;
    let e = match capped_exponent(hint, n, q, cap) {
        Some(e) => e,
        None => return None,
    };
    let f: i128 = if point {
        (q - p - 1) as i128
    } else {
        0
    };
    assert(f == frac_len(s));
    assert(f <= ds@.len()) by {
        if point {
            assert(mantissa(s).len() == (p - a) + (q - p - 1));
        }
    }
    let k: i128 = 3 + e - f;
    let r = scale_millis(&ds, k);
    proof {
        let et = exponent(s)->Some_0;
        let kt = 3 + et - frac_len(s);
        if et > cap || et < -cap {
            lemma_exponent_bound(ds@, k as int, kt);
        }
    }
    r
}

/// The delay before the single retry: the hint's milliseconds, or
/// `DEFAULT_RATE_MILLIS` where no hint came or it cannot be read.
pub fn retry_delay(hint: Option<&str>) -> (r: u64)
    ensures
        r == retry_delay_spec(match hint {
            Some(h) => Some(h@),
            None => None,
        }),
{
    match hint {
        Some(h) => match parse_rate_millis(h) {
            Some(ms) => ms,
            None => DEFAULT_RATE_MILLIS,
        },
        None => DEFAULT_RATE_MILLIS,
    }
}

} // verus!
