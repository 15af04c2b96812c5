//! Decimal number texts read as a float parse reads them. serde_json, built
//! with its `float_roundtrip` feature, reads the text (in JSON form) as its
//! nearest double and prints that double back; the printed reading is decoded
//! here, and an integral reading is rounded to the double it stands for (53
//! significant bits) before it is used as an `i64`.
use crate::js::{digits_value, literal_value, matches_grammar, recognise, small_magnitude, Grammar};
use crate::js::lemma_integer_digits;
use crate::json::{JsonNumber, JsonValue, JsonView, NumberView};
use crate::text::{chars_of, string_of};
use vstd::arithmetic::div_mod::lemma_div_denominator;
use vstd::arithmetic::power2::{lemma_pow2_unfold, pow2};
use vstd::prelude::*;

verus! {

// ---------------------------------------------------------------------------
// serde_json's reading of a JSON number text.
// ---------------------------------------------------------------------------

/// The text serde_json prints for the number it reads from a JSON number
/// text (a double when the text has a fraction or an exponent; with the
/// `float_roundtrip` feature, the nearest double), or none when it refuses the
/// text (a double out of range); a function of the text alone.
pub uninterp spec fn float_reading(text: Seq<char>) -> Option<Seq<char>>;

/// `text.parse::<serde_json::Number>()`, printed back with `to_string`.
///
/// Trusted: the reading is named (`float_reading`). serde_json prints a
/// double with zmij's 24-byte buffer and an integer with itoa, so the printed
/// text has at most 24 characters.
#[verifier::external_body]
fn read_float(text: &str) -> (r: Option<String>)
    ensures
        match r {
            Some(s) => float_reading(text@) == Some(s@) && s@.len() <= 24,
            None => float_reading(text@) is None,
        },
{
    text.parse::<serde_json::Number>().ok().map(|n| n.to_string())
}

// ---------------------------------------------------------------------------
// The parts of a number text.
// ---------------------------------------------------------------------------

/// The index of the first `a` or `b` in `t` at or after `i`, else `t.len()`.
pub open spec fn find_either(t: Seq<char>, i: int, a: char, b: char) -> int
    decreases t.len() - i,
{
    if i < 0 || i >= t.len() {
        t.len() as int
    } else if t[i] == a || t[i] == b {
        i
    } else {
        find_either(t, i + 1, a, b)
    }
}

proof fn lemma_find_from(t: Seq<char>, i: int, a: char, b: char)
    requires
        0 <= i <= t.len(),
    ensures
        i <= find_either(t, i, a, b) <= t.len(),
    decreases t.len() - i,
{
    if i < t.len() && !(t[i] == a || t[i] == b) {
        lemma_find_from(t, i + 1, a, b);
    }
}

/// A text whose first character is neither `e`, `E` nor `.` has its point at
/// or after 1.
proof fn lemma_point_after_sign(t: Seq<char>)
    requires
        t.len() > 0,
        t[0] != 'e' && t[0] != 'E' && t[0] != '.',
    ensures
        exp_at(t) >= 1,
        point_at(t) >= 1,
{
    lemma_find_from(t, 1, 'e', 'E');
    let w = t.take(exp_at(t));
    assert(w[0] == t[0]);
    lemma_find_from(w, 1, '.', '.');
}

/// The length of a leading sign.
pub open spec fn sign_len(t: Seq<char>) -> int {
    if t.len() > 0 && (t[0] == '+' || t[0] == '-') {
        1
    } else {
        0
    }
}

/// Where the exponent starts (`e` or `E`), else the length.
pub open spec fn exp_at(t: Seq<char>) -> int {
    find_either(t, 0, 'e', 'E')
}

/// Where the decimal point is, else where the exponent starts.
pub open spec fn point_at(t: Seq<char>) -> int {
    find_either(t.take(exp_at(t)), 0, '.', '.')
}

/// The digits before the point.
pub open spec fn int_digits(t: Seq<char>) -> Seq<char> {
    t.subrange(sign_len(t), point_at(t))
}

/// The digits after the point.
pub open spec fn frac_digits(t: Seq<char>) -> Seq<char> {
    if point_at(t) < exp_at(t) {
        t.subrange(point_at(t) + 1, exp_at(t))
    } else {
        Seq::empty()
    }
}

/// The exponent, from its `e` on.
pub open spec fn exp_text(t: Seq<char>) -> Seq<char> {
    t.skip(exp_at(t))
}

/// The digits without their leading zeros.
pub open spec fn skip_zeros(d: Seq<char>) -> Seq<char>
    decreases d.len(),
{
    if d.len() > 0 && d[0] == '0' {
        skip_zeros(d.drop_first())
    } else {
        d
    }
}

/// The digits without their trailing zeros.
pub open spec fn drop_zeros(d: Seq<char>) -> Seq<char>
    decreases d.len(),
{
    if d.len() > 0 && d.last() == '0' {
        drop_zeros(d.drop_last())
    } else {
        d
    }
}

/// The JSON number text of a decimal literal, always with an exponent so that
/// it is read as a double: no `+`, no leading zeros in the whole part, no
/// trailing zeros in the fraction (so the digits serde_json scales are the
/// literal's own), and `e0` when the literal has no exponent.
pub open spec fn float_json(t: Seq<char>) -> Seq<char> {
    let sign = if t.len() > 0 && t[0] == '-' {
        seq!['-']
    } else {
        Seq::empty()
    };
    let whole = if skip_zeros(int_digits(t)).len() == 0 {
        seq!['0']
    } else {
        skip_zeros(int_digits(t))
    };
    let frac = if drop_zeros(frac_digits(t)).len() == 0 {
        Seq::empty()
    } else {
        seq!['.'] + drop_zeros(frac_digits(t))
    };
    let exp = if exp_text(t).len() == 0 {
        seq!['e', '0']
    } else {
        exp_text(t)
    };
    sign + whole + frac + exp
}

// ---------------------------------------------------------------------------
// Decoding a printed reading.
// ---------------------------------------------------------------------------

/// Every character is a decimal digit.
pub open spec fn all_digits(d: Seq<char>) -> bool {
    forall|i: int| 0 <= i < d.len() ==> '0' <= #[trigger] d[i] && d[i] <= '9'
}

/// A printed reading: an optional sign, digits with an optional point, and an
/// optional exponent that is an integer literal.
pub open spec fn well_formed_reading(s: Seq<char>) -> bool {
    &&& all_digits(int_digits(s))
    &&& all_digits(frac_digits(s))
    &&& exp_text(s).len() == 0 || matches_grammar(Grammar::Integer, exp_text(s).drop_first())
}

/// The value of the exponent (zero when there is none).
pub open spec fn exponent_of(s: Seq<char>) -> int {
    if exp_text(s).len() == 0 {
        0
    } else {
        literal_value(exp_text(s).drop_first())
    }
}

/// The mantissa's digits, before and after the point.
pub open spec fn mantissa_digits(s: Seq<char>) -> Seq<char> {
    int_digits(s) + frac_digits(s)
}

/// The mantissa's digits without leading and trailing zeros.
pub open spec fn core_digits(s: Seq<char>) -> Seq<char> {
    skip_zeros(drop_zeros(mantissa_digits(s)))
}

/// The power of ten the core digits are scaled by: the value is
/// `core_digits × 10^core_scale`.
pub open spec fn core_scale(s: Seq<char>) -> int {
    exponent_of(s) - frac_digits(s).len() + (mantissa_digits(s).len() - drop_zeros(
        mantissa_digits(s),
    ).len())
}

/// `n` zero digits.
pub open spec fn zeros(n: nat) -> Seq<char> {
    Seq::new(n, |i: int| '0')
}

/// How many low bits an integer loses as a double: the bits beyond 53.
pub open spec fn excess_bits(n: nat) -> nat
    decreases n,
{
    if n < 9007199254740992 {
        0
    } else {
        1 + excess_bits(n / 2)
    }
}

/// The double nearest to a non-negative integer: rounded to 53 significant
/// bits, ties to even.
pub open spec fn nearest_double(n: nat) -> nat {
    let u = pow2(excess_bits(n));
    let q = n / u;
    let r = n % u;
    if 2 * r > u || (2 * r == u && q % 2 == 1) {
        (q + 1) * u
    } else {
        q * u
    }
}

/// What `Number(text)` keeps of a printed reading: an integral double within
/// the `i64` range becomes that integer (2^63 saturating to `i64::MAX`, as
/// `as i64` does), a zero becomes 0, anything else stays the printed number.
pub open spec fn read_back(s: Seq<char>) -> JsonView {
    let c = core_digits(s);
    let f = core_scale(s);
    if !well_formed_reading(s) {
        JsonView::Number(NumberView::Float(s))
    } else if c.len() == 0 {
        JsonView::Number(NumberView::PosInt(0))
    } else if f < 0 || c.len() + f > 20 {
        JsonView::Number(NumberView::Float(s))
    } else {
        let x = nearest_double(digits_value(c + zeros(f as nat)) as nat);
        if x > 9223372036854775808 {
            JsonView::Number(NumberView::Float(s))
        } else if s.len() > 0 && s[0] == '-' {
            JsonView::Number(NumberView::NegInt((0 - x) as i64))
        } else if x == 9223372036854775808 {
            JsonView::Number(NumberView::PosInt(9223372036854775807))
        } else {
            JsonView::Number(NumberView::PosInt(x as u64))
        }
    }
}

/// serde_json's reading is zero.
pub open spec fn reading_zero(r: Option<Seq<char>>) -> bool {
    match r {
        Some(s) => well_formed_reading(s) && core_digits(s).len() == 0,
        None => false,
    }
}

// ---------------------------------------------------------------------------
// Executable counterparts.
// ---------------------------------------------------------------------------

fn find_in(t: &[char], end: usize, a: char, b: char) -> (r: usize)
    requires
        end <= t@.len(),
    ensures
        r as int == find_either(t@.take(end as int), 0, a, b),
        r <= end,
{
    let ghost w = t@.take(end as int);
    let mut i: usize = 0;
    while i < end
        invariant
            w == t@.take(end as int),
            end <= t@.len(),
            i <= end,
            find_either(w, 0, a, b) == find_either(w, i as int, a, b),
        decreases end - i,
    {
        if t[i] == a || t[i] == b {
            return i;
        }
        i = i + 1;
    }
    i
}

/// Appends `t[from..to]`.
fn push_range(out: &mut Vec<char>, t: &[char], from: usize, to: usize)
    requires
        from <= to <= t@.len(),
    ensures
        final(out)@ == old(out)@ + t@.subrange(from as int, to as int),
{
    let mut i: usize = from;
    while i < to
        invariant
            from <= i <= to <= t@.len(),
            out@ == old(out)@ + t@.subrange(from as int, i as int),
        decreases to - i,
    {
        let ghost before = out@;
        out.push(t[i]);
        assert(out@ =~= old(out)@ + t@.subrange(from as int, i + 1));
        i = i + 1;
    }
}

/// The first index at or after `from` and before `to` that is not `'0'`.
fn skip_zero_chars(t: &[char], from: usize, to: usize) -> (j: usize)
    requires
        from <= to <= t@.len(),
    ensures
        from <= j <= to,
        skip_zeros(t@.subrange(from as int, to as int)) == t@.subrange(j as int, to as int),
{
    let mut j: usize = from;
    while j < to && t[j] == '0'
        invariant
            from <= j <= to <= t@.len(),
            skip_zeros(t@.subrange(from as int, to as int)) == skip_zeros(
                t@.subrange(j as int, to as int),
            ),
        decreases to - j,
    {
        assert(t@.subrange(j as int, to as int).drop_first() =~= t@.subrange(j + 1, to as int));
        j = j + 1;
    }
    j
}

/// The whole part of [`float_json`] from the digits `t[from..to]`.
fn whole_chars(t: &[char], from: usize, to: usize) -> (r: Vec<char>)
    requires
        from <= to <= t@.len(),
    ensures
        r@ == (if skip_zeros(t@.subrange(from as int, to as int)).len() == 0 {
            seq!['0']
        } else {
            skip_zeros(t@.subrange(from as int, to as int))
        }),
{
    let j = skip_zero_chars(t, from, to);
    let mut out: Vec<char> = Vec::new();
    if j == to {
        out.push('0');
        assert(out@ =~= seq!['0']);
    } else {
        push_range(&mut out, t, j, to);
        assert(out@ =~= t@.subrange(j as int, to as int));
    }
    out
}

/// The fraction part of [`float_json`] from the digits `t[from..to]`.
fn frac_chars(t: &[char], from: usize, to: usize) -> (r: Vec<char>)
    requires
        from <= to <= t@.len(),
    ensures
        r@ == (if drop_zeros(t@.subrange(from as int, to as int)).len() == 0 {
            Seq::<char>::empty()
        } else {
            seq!['.'] + drop_zeros(t@.subrange(from as int, to as int))
        }),
{
    let e = drop_zero_end(t, from, to);
    let mut out: Vec<char> = Vec::new();
    if from < e {
        out.push('.');
        push_range(&mut out, t, from, e);
        assert(out@ =~= seq!['.'] + t@.subrange(from as int, e as int));
    } else {
        assert(out@ =~= Seq::<char>::empty());
    }
    out
}

/// The JSON text a decimal literal is handed to serde_json as (see
/// [`float_json`]).
fn float_json_chars(t: &[char]) -> (r: Vec<char>)
    ensures
        r@ == float_json(t@),
{
    let n = t.len();
    let ea = find_in(t, n, 'e', 'E');
    assert(t@.take(n as int) =~= t@);
    let pa = find_in(t, ea, '.', '.');
    let sl: usize = if n > 0 && (t[0] == '+' || t[0] == '-') {
        1
    } else {
        0
    };
    proof {
        if sl == 1 {
            lemma_point_after_sign(t@);
        }
    }
    let fa: usize = if pa < ea {
        pa + 1
    } else {
        ea
    };
    proof {
        assert(sl == sign_len(t@));
        if !(pa < ea) {
            assert(t@.subrange(fa as int, ea as int) =~= Seq::<char>::empty());
        }
        assert(t@.subrange(fa as int, ea as int) =~= frac_digits(t@));
    }
    let whole = whole_chars(t, sl, pa);
    let frac = frac_chars(t, fa, ea);
    let mut out: Vec<char> = Vec::new();
    if n > 0 && t[0] == '-' {
        out.push('-');
    }
    let ghost sign = out@;
    push_range(&mut out, whole.as_slice(), 0, whole.len());
    push_range(&mut out, frac.as_slice(), 0, frac.len());
    if ea == n {
        out.push('e');
        out.push('0');
    } else {
        push_range(&mut out, t, ea, n);
    }
    proof {
        assert(whole@.subrange(0, whole@.len() as int) =~= whole@);
        assert(frac@.subrange(0, frac@.len() as int) =~= frac@);
        assert(t@.subrange(ea as int, n as int) =~= t@.skip(ea as int));
        if ea == n {
            assert(exp_text(t@) =~= Seq::<char>::empty());
        }
        assert(out@ =~= float_json(t@));
    }
    out
}

/// The end of `t[from..to]` without its trailing zeros.
fn drop_zero_end(t: &[char], from: usize, to: usize) -> (e: usize)
    requires
        from <= to <= t@.len(),
    ensures
        from <= e <= to,
        drop_zeros(t@.subrange(from as int, to as int)) == t@.subrange(from as int, e as int),
{
    let mut e: usize = to;
    while e > from && t[e - 1] == '0'
        invariant
            from <= e <= to <= t@.len(),
            drop_zeros(t@.subrange(from as int, to as int)) == drop_zeros(
                t@.subrange(from as int, e as int),
            ),
        decreases e,
    {
        assert(t@.subrange(from as int, e as int).drop_last() =~= t@.subrange(from as int, e - 1));
        e = e - 1;
    }
    proof {
        if e > from {
            assert(t@.subrange(from as int, e as int).last() == t@[e - 1]);
        }
    }
    e
}

/// serde_json's reading of a decimal literal.
pub(crate) fn reading_of(t: &[char]) -> (r: Option<Vec<char>>)
    ensures
        match r {
            Some(x) => float_reading(float_json(t@)) == Some(x@) && x@.len() <= 24,
            None => float_reading(float_json(t@)) is None,
        },
{
    let j = float_json_chars(t);
    let text = string_of(j.as_slice());
    match read_float(text.as_str()) {
        Some(s) => Some(chars_of(s.as_str())),
        None => None,
    }
}

fn digits_only(t: &[char], from: usize, to: usize) -> (r: bool)
    requires
        from <= to <= t@.len(),
    ensures
        r == all_digits(t@.subrange(from as int, to as int)),
{
    let mut i: usize = from;
    while i < to
        invariant
            from <= i <= to <= t@.len(),
            forall|k: int| from <= k < i ==> '0' <= #[trigger] t@[k] && t@[k] <= '9',
        decreases to - i,
    {
        if !('0' <= t[i] && t[i] <= '9') {
            assert(t@.subrange(from as int, to as int)[i - from] == t@[i as int]);
            return false;
        }
        i = i + 1;
    }
    proof {
        assert forall|k: int| 0 <= k < t@.subrange(from as int, to as int).len() implies '0'
            <= #[trigger] t@.subrange(from as int, to as int)[k] && t@.subrange(
            from as int,
            to as int,
        )[k] <= '9' by {
            assert(t@.subrange(from as int, to as int)[k] == t@[from + k]);
        }
    }
    true
}

/// The scale clamped to `-1..=100`: the branches of [`read_back`] only ask
/// whether it is negative or above 20.
pub open spec fn clamp_scale(v: int) -> int {
    if v < -1 {
        -1
    } else if v > 100 {
        100
    } else {
        v
    }
}

/// The exponent of a reading, from the index of its `e` (or the length):
/// whether it is an integer literal, and then its value, or ±1000 for a
/// magnitude beyond 2^53.
fn exponent_parts(s: &[char], ea: usize) -> (r: (bool, i64))
    requires
        ea as int == exp_at(s@),
        ea <= s@.len(),
    ensures
        r.0 == (exp_text(s@).len() == 0 || matches_grammar(Grammar::Integer, exp_text(s@).drop_first())),
        r.0 ==> {
            ||| r.1 as int == exponent_of(s@) && -9007199254740992 <= r.1 <= 9007199254740992
            ||| r.1 == 1000 && exponent_of(s@) > 9007199254740992
            ||| r.1 == -1000 && exponent_of(s@) < -9007199254740992
        },
{
    let n = s.len();
    if ea == n {
        assert(exp_text(s@) =~= Seq::<char>::empty());
        return (true, 0);
    }
    let mut tail: Vec<char> = Vec::new();
    push_range(&mut tail, s, ea + 1, n);
    assert(tail@ =~= exp_text(s@).drop_first());
    if !recognise(Grammar::Integer, tail.as_slice()) {
        return (false, 0);
    }
    proof {
        assert(tail@.skip(0) =~= tail@);
        lemma_integer_digits(tail@, 0, 0);
    }
    let neg = tail[0] == '-';
    let start: usize = if tail[0] == '-' || tail[0] == '+' {
        1
    } else {
        0
    };
    proof {
        if start == 1 {
            assert(tail@.skip(1) =~= tail@.drop_first());
        } else {
            assert(tail@.skip(0) =~= tail@);
        }
    }
    match small_magnitude(tail.as_slice(), start) {
        Some(m) => {
            let e: i64 = if neg {
                0 - (m as i64)
            } else {
                m as i64
            };
            (true, e)
        },
        None => {
            if neg {
                (true, -1000)
            } else {
                (true, 1000)
            }
        },
    }
}

/// The core digits of the mantissa `d`, and how many trailing zeros were
/// dropped.
fn core_of(d: &[char]) -> (r: (Vec<char>, usize))
    ensures
        r.0@ == skip_zeros(drop_zeros(d@)),
        r.1 as int == d@.len() - drop_zeros(d@).len(),
        r.0@.len() <= d@.len(),
{
    let dl = d.len();
    let mut k: usize = 0;
    assert(d@.take(dl as int) =~= d@);
    while k < dl && d[dl - 1 - k] == '0'
        invariant
            k <= dl,
            dl == d@.len(),
            drop_zeros(d@) == drop_zeros(d@.take(dl - k)),
        decreases dl - k,
    {
        assert(d@.take(dl - k).drop_last() =~= d@.take(dl - k - 1));
        k = k + 1;
    }
    proof {
        if k < dl {
            assert(d@.take(dl - k).last() == d@[dl - 1 - k]);
        }
        assert(drop_zeros(d@) == d@.take(dl - k));
        assert(d@.take(dl - k) =~= d@.subrange(0, dl - k));
    }
    let j = skip_zero_chars(d, 0, dl - k);
    let mut c: Vec<char> = Vec::new();
    push_range(&mut c, d, j, dl - k);
    assert(c@ =~= d@.subrange(j as int, dl - k));
    (c, k)
}

/// A reading's parts: whether it is well formed, and then its core digits and
/// clamped scale.
fn reading_parts(s: &[char]) -> (r: (bool, Vec<char>, i64))
    requires
        s@.len() <= 24,
    ensures
        r.0 == well_formed_reading(s@),
        r.0 ==> r.1@ == core_digits(s@) && r.2 as int == clamp_scale(core_scale(s@)),
        r.0 ==> r.1@.len() <= 24,
{
    let n = s.len();
    let ea = find_in(s, n, 'e', 'E');
    assert(s@.take(n as int) =~= s@);
    let pa = find_in(s, ea, '.', '.');
    let sl: usize = if n > 0 && (s[0] == '+' || s[0] == '-') {
        1
    } else {
        0
    };
    proof {
        if sl == 1 {
            lemma_point_after_sign(s@);
        }
        assert(sl == sign_len(s@));
    }
    let fa: usize = if pa < ea {
        pa + 1
    } else {
        ea
    };
    let int_ok = digits_only(s, sl, pa);
    let frac_ok = digits_only(s, fa, ea);
    proof {
        if !(pa < ea) {
            assert(s@.subrange(fa as int, ea as int) =~= Seq::<char>::empty());
        }
        assert(s@.subrange(fa as int, ea as int) =~= frac_digits(s@));
    }
    let (exp_ok, e) = exponent_parts(s, ea);
    if !(int_ok && frac_ok && exp_ok) {
        return (false, Vec::new(), 0);
    }
    let mut d: Vec<char> = Vec::new();
    push_range(&mut d, s, sl, pa);
    push_range(&mut d, s, fa, ea);
    assert(d@ =~= mantissa_digits(s@));
    let (c, k) = core_of(d.as_slice());
    let fl = ea - fa;
    let scale: i64 = e - (fl as i64) + (k as i64);
    let clamped: i64 = if scale < -1 {
        -1
    } else if scale > 100 {
        100
    } else {
        scale
    };
    assert(frac_digits(s@).len() == fl);
    (true, c, clamped)
}

/// The value of at most 20 decimal digits.
fn small_digits_value(w: &[char]) -> (r: u128)
    requires
        w@.len() <= 20,
        all_digits(w@),
    ensures
        r as int == digits_value(w@),
        r < 100000000000000000000,
{
    let mut acc: u128 = 0;
    let mut b: u128 = 1;
    let mut i: usize = 0;
    while i < w.len()
        invariant
            i <= w@.len() <= 20,
            all_digits(w@),
            acc as int == digits_value(w@.take(i as int)),
            acc < b,
            b <= 100000000000000000000,
            i < 20 ==> b <= 10000000000000000000,
            b == ten_to(i as nat),
        decreases w@.len() - i,
    {
        let dgt = (w[i] as u32 - '0' as u32) as u128;
        assert(w@[i as int] <= '9');
        assert(acc * 10 + dgt < b * 10) by (nonlinear_arith)
            requires
                acc < b,
                dgt <= 9,
        ;
        assert(w@.take(i + 1).drop_last() =~= w@.take(i as int));
        acc = acc * 10 + dgt;
        b = b * 10;
        i = i + 1;
        proof {
            lemma_ten_to_bound(i as nat);
        }
    }
    assert(w@.take(i as int) =~= w@);
    acc
}

/// `10^i`.
pub open spec fn ten_to(i: nat) -> nat
    decreases i,
{
    if i == 0 {
        1
    } else {
        10 * ten_to((i - 1) as nat)
    }
}

proof fn lemma_ten_to_bound(i: nat)
    requires
        i <= 20,
    ensures
        ten_to(i) <= 100000000000000000000,
        i < 20 ==> ten_to(i) <= 10000000000000000000,
{
    reveal_with_fuel(ten_to, 21);
    assert(ten_to(19) == 10000000000000000000);
    assert(ten_to(20) == 100000000000000000000);
    lemma_ten_to_mono(i, 20);
    if i < 20 {
        lemma_ten_to_mono(i, 19);
    }
}

proof fn lemma_ten_to_mono(i: nat, j: nat)
    requires
        i <= j,
    ensures
        ten_to(i) <= ten_to(j),
    decreases j,
{
    if i < j {
        lemma_ten_to_mono(i, (j - 1) as nat);
    }
}

/// The double nearest to `n` (see [`nearest_double`]).
fn nearest(n: u128) -> (x: u128)
    requires
        n < 100000000000000000000,
    ensures
        x as int == nearest_double(n as nat),
        x <= 2 * n,
{
    let mut m: u128 = n;
    let mut k: u128 = 0;
    let mut u: u128 = 1;
    proof {
        vstd::arithmetic::power2::lemma2_to64();
    }
    while m >= 9007199254740992
        invariant
            n < 100000000000000000000,
            1 <= u <= n || (u == 1 && k == 0),
            u as int == pow2(k as nat),
            m as int == n as int / (pow2(k as nat) as int),
            excess_bits(n as nat) == k + excess_bits(m as nat),
            k <= u,
            u * m <= n,
        decreases m,
    {
        proof {
            lemma_div_denominator(n as int, pow2(k as nat) as int, 2);
            lemma_pow2_unfold((k + 1) as nat);
            assert(u * 2 * (m / 2) <= u * m) by (nonlinear_arith)
                requires
                    u >= 1,
            ;
            assert(u * 2 <= u * m) by (nonlinear_arith)
                requires
                    u >= 1,
                    m >= 2,
            ;
        }
        m = m / 2;
        k = k + 1;
        u = u * 2;
    }
    let q = n / u;
    let r = n % u;
    proof {
        assert(q == m);
        assert(q * u + r == n) by (nonlinear_arith)
            requires
                q == n / u,
                r == n % u,
                u >= 1,
        ;
        assert(r < u);
        assert((q + 1) * u <= 2 * n + u) by (nonlinear_arith)
            requires
                q * u + r == n,
                r >= 0,
        ;
    }
    if 2 * r > u || (2 * r == u && q % 2 == 1) {
        proof {
            assert((q + 1) * u == q * u + u) by (nonlinear_arith);
        }
        (q + 1) * u
    } else {
        q * u
    }
}

/// What `Number(text)` keeps of a printed reading (see [`read_back`]).
pub(crate) fn read_back_value(s: &[char]) -> (r: JsonValue)
    requires
        s@.len() <= 24,
    ensures
        r@ == read_back(s@),
{
    let (ok, c, f) = reading_parts(s);
    let text = string_of(s);
    if !ok {
        return JsonValue::Number(JsonNumber::Float(text));
    }
    if c.len() == 0 {
        return JsonValue::Number(JsonNumber::PosInt(0));
    }
    if f < 0 || c.len() as i64 + f > 20 {
        return JsonValue::Number(JsonNumber::Float(text));
    }
    let mut w: Vec<char> = Vec::new();
    push_range(&mut w, c.as_slice(), 0, c.len());
    let mut i: i64 = 0;
    while i < f
        invariant
            0 <= i <= f <= 20,
            w@ == c@ + zeros(i as nat),
        decreases f - i,
    {
        w.push('0');
        assert(w@ =~= c@ + zeros((i + 1) as nat));
        i = i + 1;
    }
    proof {
        assert(c@.subrange(0, c@.len() as int) =~= c@);
        assert(all_digits(w@)) by {
            assert forall|k: int| 0 <= k < w@.len() implies '0' <= #[trigger] w@[k] && w@[k]
                <= '9' by {
                if k < c@.len() {
                    lemma_core_digits(s@);
                    assert(w@[k] == c@[k]);
                }
            }
        }
    }
    let n = small_digits_value(w.as_slice());
    let x = nearest(n);
    if x > 9223372036854775808 {
        JsonValue::Number(JsonNumber::Float(text))
    } else if s.len() > 0 && s[0] == '-' {
        let v: i64 = if x == 9223372036854775808 {
            i64::MIN
        } else {
            0 - (x as i64)
        };
        JsonValue::Number(JsonNumber::NegInt(v))
    } else if x == 9223372036854775808 {
        JsonValue::Number(JsonNumber::PosInt(9223372036854775807))
    } else {
        JsonValue::Number(JsonNumber::PosInt(x as u64))
    }
}

proof fn lemma_core_digits(s: Seq<char>)
    requires
        well_formed_reading(s),
    ensures
        all_digits(core_digits(s)),
{
    let d = mantissa_digits(s);
    assert(all_digits(d)) by {
        assert forall|k: int| 0 <= k < d.len() implies '0' <= #[trigger] d[k] && d[k] <= '9' by {
            if k < int_digits(s).len() {
                assert(d[k] == int_digits(s)[k]);
            } else {
                assert(d[k] == frac_digits(s)[k - int_digits(s).len()]);
            }
        }
    }
    lemma_drop_zeros_digits(d);
    lemma_skip_zeros_digits(drop_zeros(d));
}

proof fn lemma_drop_zeros_digits(d: Seq<char>)
    requires
        all_digits(d),
    ensures
        all_digits(drop_zeros(d)),
    decreases d.len(),
{
    if d.len() > 0 && d.last() == '0' {
        assert forall|k: int| 0 <= k < d.drop_last().len() implies '0' <= #[trigger] d.drop_last()[k]
            && d.drop_last()[k] <= '9' by {
            assert(d.drop_last()[k] == d[k]);
        }
        lemma_drop_zeros_digits(d.drop_last());
    }
}

proof fn lemma_skip_zeros_digits(d: Seq<char>)
    requires
        all_digits(d),
    ensures
        all_digits(skip_zeros(d)),
    decreases d.len(),
{
    if d.len() > 0 && d[0] == '0' {
        assert forall|k: int| 0 <= k < d.drop_first().len() implies '0' <= #[trigger] d.drop_first()[k]
            && d.drop_first()[k] <= '9' by {
            assert(d.drop_first()[k] == d[k + 1]);
        }
        lemma_skip_zeros_digits(d.drop_first());
    }
}

/// Whether serde_json reads a decimal literal as zero (see [`reading_zero`]).
pub(crate) fn reads_as_zero(t: &[char]) -> (r: bool)
    ensures
        r == reading_zero(float_reading(float_json(t@))),
{
    match reading_of(t) {
        Some(x) => {
            let (ok, c, _) = reading_parts(x.as_slice());
            ok && c.len() == 0
        },
        None => false,
    }
}

/// serde_json's reading of a number text, kept as [`read_back`] keeps it;
/// none when serde_json refuses the text.
pub(crate) fn text_reading(t: &str) -> (r: Option<JsonValue>)
    ensures
        match float_reading(t@) {
            Some(x) => r matches Some(v) && v@ == read_back(x),
            None => r is None,
        },
{
    match read_float(t) {
        Some(x) => {
            let cs = chars_of(x.as_str());
            Some(read_back_value(cs.as_slice()))
        },
        None => None,
    }
}

} // verus!
