use vstd::prelude::*;

verus! {

/// An ASCII decimal digit: `0` through `9`.
pub open spec fn is_digit(b: u8) -> bool {
    0x30u8 <= b <= 0x39u8
}

/// Every byte of the sequence is an ASCII digit.
pub open spec fn all_digits(s: Seq<u8>) -> bool {
    forall|i: int| 0 <= i < s.len() ==> #[trigger] is_digit(s[i])
}

/// A canonical run of digits: non-empty, and no leading zero unless the
/// run is exactly `0`.
pub open spec fn digits_canonical(s: Seq<u8>) -> bool {
    &&& s.len() > 0
    &&& all_digits(s)
    &&& (s.len() > 1 ==> s[0] != 0x30u8)
}

/// Every byte of the sequence is the digit `0`.
pub open spec fn all_zeros(s: Seq<u8>) -> bool {
    forall|i: int| 0 <= i < s.len() ==> #[trigger] s[i] == 0x30u8
}

/// Mathematical model of a decimal number: sign, integer digits and
/// fractional digits, all as ASCII digit sequences.
#[verifier::ext_equal]
pub ghost struct DecimalModel {
    pub negative: bool,
    pub int_digits: Seq<u8>,
    pub frac_digits: Seq<u8>,
}

/// A decimal number kept in its textual form: an optional sign, canonical
/// integer digits, and fractional digits (empty when the number has no
/// fractional part). This is how the service carries every non-integer
/// measurement, so that no floating-point value enters the verified logic.
pub struct Decimal {
    pub negative: bool,
    pub int_digits: Vec<u8>,
    pub frac_digits: Vec<u8>,
}

impl View for Decimal {
    type V = DecimalModel;

    open spec fn view(&self) -> DecimalModel {
        DecimalModel {
            negative: self.negative,
            int_digits: self.int_digits@,
            frac_digits: self.frac_digits@,
        }
    }
}

/// Well-formed decimal: canonical integer digits and digit-only fraction.
pub open spec fn decimal_wf(d: DecimalModel) -> bool {
    &&& digits_canonical(d.int_digits)
    &&& all_digits(d.frac_digits)
}

/// A decimal in the canonical form of a fractional measurement: it always
/// shows a fractional part, as `2.0` rather than `2`.
pub open spec fn float_wf(d: DecimalModel) -> bool {
    &&& decimal_wf(d)
    &&& d.frac_digits.len() > 0
}

/// A price estimate: a canonical fractional decimal that is not negative.
pub open spec fn price_wf(d: DecimalModel) -> bool {
    &&& float_wf(d)
    &&& !d.negative
}

/// The textual form of a decimal: `-` when negative, the integer digits,
/// and `.` followed by the fraction when a fraction is present.
pub open spec fn spec_decimal_text(d: DecimalModel) -> Seq<u8> {
    (if d.negative { seq![0x2du8] } else { Seq::<u8>::empty() }) + d.int_digits
        + (if d.frac_digits.len() > 0 { seq![0x2eu8] + d.frac_digits } else { Seq::<u8>::empty() })
}

/// The display form used in human-readable text: an all-zero fraction is
/// dropped, so `450000.0` reads `450000`, while `2.5` stays `2.5`.
pub open spec fn spec_decimal_display(d: DecimalModel) -> Seq<u8> {
    if all_zeros(d.frac_digits) {
        spec_decimal_text(DecimalModel { negative: d.negative, int_digits: d.int_digits, frac_digits: Seq::<u8>::empty() })
    } else {
        spec_decimal_text(d)
    }
}

/// Appends every byte of `s` to `buf`.
pub fn push_bytes(buf: &mut Vec<u8>, s: &Vec<u8>)
    ensures
        final(buf)@ == old(buf)@ + s@,
{
    let mut i: usize = 0;
    while i < s.len()
        invariant
            0 <= i <= s.len(),
            buf@ == old(buf)@ + s@.subrange(0, i as int),
        decreases s.len() - i,
    {
        buf.push(s[i]);
        proof {
            assert(buf@ =~= old(buf)@ + s@.subrange(0, i + 1));
        }
        i = i + 1;
    }
    proof {
        assert(buf@ =~= old(buf)@ + s@);
    }
}

/// Copies the bytes of `v` between positions `a` and `b`.
pub fn copy_range(v: &Vec<u8>, a: usize, b: usize) -> (r: Vec<u8>)
    requires
        a <= b <= v@.len(),
    ensures
        r@ == v@.subrange(a as int, b as int),
{
    let mut r: Vec<u8> = Vec::new();
    let mut i: usize = a;
    while i < b
        invariant
            a <= i <= b <= v@.len(),
            r@ == v@.subrange(a as int, i as int),
        decreases b - i,
    {
        r.push(v[i]);
        proof {
            assert(r@ =~= v@.subrange(a as int, i as int + 1));
        }
        i = i + 1;
    }
    r
}

/// Renders a decimal as text.
pub fn decimal_text(d: &Decimal) -> (r: Vec<u8>)
    ensures
        r@ == spec_decimal_text(d@),
{
    let mut r: Vec<u8> = Vec::new();
    if d.negative {
        r.push(0x2du8);
    }
    push_bytes(&mut r, &d.int_digits);
    if d.frac_digits.len() > 0 {
        r.push(0x2eu8);
        push_bytes(&mut r, &d.frac_digits);
    }
    proof {
        assert(r@ =~= spec_decimal_text(d@));
    }
    r
}

/// Renders a decimal in display form: an all-zero fraction is dropped.
pub fn decimal_display(d: &Decimal) -> (r: Vec<u8>)
    ensures
        r@ == spec_decimal_display(d@),
{
    let mut zeros = true;
    let mut i: usize = 0;
    while i < d.frac_digits.len()
        invariant
            0 <= i <= d.frac_digits@.len(),
            zeros == (forall|j: int| 0 <= j < i ==> #[trigger] d.frac_digits@[j] == 0x30u8),
        decreases d.frac_digits@.len() - i,
    {
        if d.frac_digits[i] != 0x30u8 {
            zeros = false;
        }
        i = i + 1;
    }
    let mut r: Vec<u8> = Vec::new();
    if d.negative {
        r.push(0x2du8);
    }
    push_bytes(&mut r, &d.int_digits);
    if !zeros {
        r.push(0x2eu8);
        push_bytes(&mut r, &d.frac_digits);
        proof {
            assert(r@ =~= spec_decimal_text(d@));
        }
    } else {
        proof {
            let stripped = DecimalModel {
                negative: d@.negative,
                int_digits: d@.int_digits,
                frac_digits: Seq::<u8>::empty(),
            };
            assert(r@ =~= spec_decimal_text(stripped));
        }
    }
    r
}

/// The decimal text of an unsigned integer, most significant digit first.
pub open spec fn spec_u64_text(n: nat) -> Seq<u8>
    decreases n,
{
    if n < 10 {
        seq![(0x30 + n) as u8]
    } else {
        spec_u64_text(n / 10) + seq![(0x30 + n % 10) as u8]
    }
}

/// The decimal text of an integer is a canonical digit run.
pub proof fn lemma_u64_text_canonical(n: nat)
    ensures
        digits_canonical(spec_u64_text(n)),
        spec_u64_text(n).len() > 1 ==> n >= 10,
        n >= 1 ==> spec_u64_text(n)[0] != 0x30u8,
    decreases n,
{
    if n < 10 {
        let s = spec_u64_text(n);
        assert(s =~= seq![(0x30 + n) as u8]);
        assert(is_digit(s[0]));
        assert(all_digits(s));
    } else {
        lemma_u64_text_canonical(n / 10);
        let s = spec_u64_text(n);
        let p = spec_u64_text(n / 10);
        assert(s =~= p + seq![(0x30 + n % 10) as u8]);
        assert(is_digit(s[s.len() - 1]));
        assert forall|i: int| 0 <= i < s.len() implies #[trigger] is_digit(s[i]) by {
            if i < p.len() {
                assert(s[i] == p[i]);
            }
        }
        assert(s[0] == p[0]);
        assert(n / 10 >= 1);
    }
}

/// Renders an unsigned integer as decimal text.
pub fn u64_text(n: u64) -> (r: Vec<u8>)
    ensures
        r@ == spec_u64_text(n as nat),
    decreases n,
{
    if n < 10 {
        let mut r: Vec<u8> = Vec::new();
        r.push(0x30u8 + (n as u8));
        proof {
            assert(r@ =~= spec_u64_text(n as nat));
        }
        r
    } else {
        let mut r = u64_text(n / 10);
        r.push(0x30u8 + ((n % 10) as u8));
        proof {
            assert(r@ =~= spec_u64_text(n as nat));
        }
        r
    }
}

/// The position of the first `.` in `s` at or after position `i`,
/// or `s.len()` when there is none.
pub open spec fn first_dot_from(s: Seq<u8>, i: int) -> int
    decreases s.len() - i,
    when 0 <= i <= s.len()
{
    if i >= s.len() {
        i
    } else if s[i] == 0x2eu8 {
        i
    } else {
        first_dot_from(s, i + 1)
    }
}

proof fn lemma_first_dot(s: Seq<u8>, i: int, k: int)
    requires
        0 <= i <= k <= s.len(),
        forall|j: int| i <= j < k ==> #[trigger] s[j] != 0x2eu8,
        k == s.len() || s[k] == 0x2eu8,
    ensures
        first_dot_from(s, i) == k,
    decreases k - i,
{
    if i < k {
        lemma_first_dot(s, i + 1, k);
    }
}

/// Parses a decimal number in the grammar the service accepts: an optional
/// leading `-`, canonical integer digits, and an optional `.` followed by
/// at least one digit. Anything else is rejected.
pub open spec fn spec_parse_decimal(t: Seq<u8>) -> Option<DecimalModel> {
    if t.len() == 0 {
        None
    } else {
        let neg = t[0] == 0x2du8;
        let body = if neg { t.skip(1) } else { t };
        let k = first_dot_from(body, 0);
        if k == body.len() {
            if digits_canonical(body) {
                Some(DecimalModel { negative: neg, int_digits: body, frac_digits: Seq::<u8>::empty() })
            } else {
                None
            }
        } else {
            let ip = body.subrange(0, k);
            let fp = body.subrange(k + 1, body.len() as int);
            if digits_canonical(ip) && fp.len() > 0 && all_digits(fp) {
                Some(DecimalModel { negative: neg, int_digits: ip, frac_digits: fp })
            } else {
                None
            }
        }
    }
}

/// The numeric value of a digit string, most significant digit first.
pub open spec fn digits_value(s: Seq<u8>) -> nat
    decreases s.len(),
{
    if s.len() == 0 {
        0
    } else {
        digits_value(s.take(s.len() - 1)) * 10 + (s.last() - 0x30u8) as nat
    }
}

/// The decimal text of a number evaluates back to the number.
pub proof fn lemma_digits_value_of_text(n: nat)
    ensures
        digits_value(spec_u64_text(n)) == n,
    decreases n,
{
    if n < 10 {
        let s = spec_u64_text(n);
        assert(s.take(s.len() - 1) =~= Seq::<u8>::empty());
        assert(s.last() == (0x30 + n) as u8);
        assert((s.last() - 0x30u8) as nat == n);
        assert(digits_value(s) == digits_value(s.take(s.len() - 1)) * 10 + (s.last() - 0x30u8) as nat);
        assert(digits_value(s) == n);
    } else {
        lemma_digits_value_of_text(n / 10);
        let s = spec_u64_text(n);
        let p = spec_u64_text(n / 10);
        assert(s.take(s.len() - 1) =~= p);
        assert(s.last() == (0x30 + n % 10) as u8);
        assert(n % 10 < 10);
        assert((s.last() - 0x30u8) as nat == n % 10);
        assert(digits_value(s) == digits_value(p) * 10 + n % 10);
        assert(n == (n / 10) * 10 + n % 10) by {
            vstd::arithmetic::div_mod::lemma_fundamental_div_mod(n as int, 10);
        }
        assert(digits_value(s) == n);
    }
}

/// A longer digit prefix never has a smaller value; one more digit
/// multiplies the value at least tenfold.
pub proof fn lemma_digits_value_monotone(s: Seq<u8>, k: int)
    requires
        0 <= k <= s.len(),
    ensures
        digits_value(s.take(k)) <= digits_value(s),
        k < s.len() ==> digits_value(s.take(k)) * 10 <= digits_value(s),
    decreases s.len() - k,
{
    if k < s.len() {
        lemma_digits_value_monotone(s, k + 1);
        assert(s.take(k + 1).take(k) =~= s.take(k));
        assert(s.take(k + 1).last() == s[k]);
        assert(digits_value(s.take(k + 1)) == digits_value(s.take(k)) * 10 + (s[k] - 0x30u8) as nat);
    } else {
        assert(s.take(k) =~= s);
    }
}

/// The text of a well-formed fractional decimal parses back to it.
pub proof fn lemma_parse_decimal_of_text(d: DecimalModel)
    requires
        float_wf(d),
    ensures
        spec_parse_decimal(spec_decimal_text(d)) == Some(d),
{
    let t = spec_decimal_text(d);
    let sign: Seq<u8> = if d.negative { seq![0x2du8] } else { Seq::<u8>::empty() };
    let tail = seq![0x2eu8] + d.frac_digits;
    assert(t =~= sign + d.int_digits + tail);
    if d.negative {
        assert(t[0] == 0x2du8);
    } else {
        assert(t[0] == d.int_digits[0]);
        assert(is_digit(d.int_digits[0]));
    }
    let neg = t[0] == 0x2du8;
    assert(neg == d.negative);
    let body = if neg { t.skip(1) } else { t };
    assert(body =~= d.int_digits + tail);
    let k = d.int_digits.len() as int;
    assert forall|j: int| 0 <= j < k implies #[trigger] body[j] != 0x2eu8 by {
        assert(body[j] == d.int_digits[j]);
        assert(is_digit(d.int_digits[j]));
    }
    assert(body[k] == tail[0]);
    lemma_first_dot(body, 0, k);
    assert(body.subrange(0, k) =~= d.int_digits);
    assert(body.subrange(k + 1, body.len() as int) =~= d.frac_digits);
}

/// Compares two byte strings for equality.
pub fn bytes_eq(a: &Vec<u8>, b: &Vec<u8>) -> (r: bool)
    ensures
        r == (a@ == b@),
{
    if a.len() != b.len() {
        proof {
            assert(a@.len() != b@.len());
        }
        return false;
    }
    let mut i: usize = 0;
    while i < a.len()
        invariant
            0 <= i <= a@.len(),
            a@.len() == b@.len(),
            forall|j: int| 0 <= j < i ==> #[trigger] a@[j] == b@[j],
        decreases a@.len() - i,
    {
        if a[i] != b[i] {
            return false;
        }
        i = i + 1;
    }
    proof {
        assert(a@ =~= b@);
    }
    true
}

/// Checks that a decimal value is well formed.
pub fn check_decimal_wf(d: &Decimal) -> (r: bool)
    ensures
        r == decimal_wf(d@),
{
    if d.int_digits.len() == 0 {
        return false;
    }
    let int_ok = check_digits(&d.int_digits, 0, d.int_digits.len());
    let lead_ok = d.int_digits.len() == 1 || d.int_digits[0] != 0x30u8;
    let frac_ok = check_digits(&d.frac_digits, 0, d.frac_digits.len());
    proof {
        assert(d.int_digits@.subrange(0, d.int_digits@.len() as int) =~= d.int_digits@);
        assert(d.frac_digits@.subrange(0, d.frac_digits@.len() as int) =~= d.frac_digits@);
    }
    int_ok && lead_ok && frac_ok
}

/// A successfully parsed decimal is well formed.
pub proof fn lemma_parse_decimal_wf(t: Seq<u8>)
    ensures
        (spec_parse_decimal(t) matches Some(d)) ==> decimal_wf(spec_parse_decimal(t)->Some_0),
{
}

/// Checks that all bytes of `v` in positions `[a, b)` are digits.
fn check_digits(v: &Vec<u8>, a: usize, b: usize) -> (r: bool)
    requires
        a <= b <= v@.len(),
    ensures
        r == all_digits(v@.subrange(a as int, b as int)),
{
    let mut i: usize = a;
    while i < b
        invariant
            a <= i <= b <= v@.len(),
            forall|j: int| a <= j < i ==> #[trigger] is_digit(v@[j]),
        decreases b - i,
    {
        let c = v[i];
        if !(0x30u8 <= c && c <= 0x39u8) {
            proof {
                assert(!is_digit(v@.subrange(a as int, b as int)[i - a]));
            }
            return false;
        }
        i = i + 1;
    }
    proof {
        assert forall|j: int| 0 <= j < b - a implies #[trigger] is_digit(
            v@.subrange(a as int, b as int)[j],
        ) by {
            assert(v@.subrange(a as int, b as int)[j] == v@[a + j]);
        }
    }
    true
}

/// Parses decimal text, mirroring `spec_parse_decimal` exactly.
pub fn parse_decimal(t: &Vec<u8>) -> (r: Option<Decimal>)
    ensures
        (match r {
            Some(d) => Some(d@),
            None => None::<DecimalModel>,
        }) == spec_parse_decimal(t@),
{
    if t.len() == 0 {
        return None;
    }
    let neg = t[0] == 0x2du8;
    let start: usize = if neg { 1 } else { 0 };
    let ghost body = if neg { t@.skip(1) } else { t@ };
    proof {
        assert forall|j: int| 0 <= j < body.len() implies #[trigger] body[j] == t@[start + j] by {}
    }
    let mut i: usize = start;
    while i < t.len() && t[i] != 0x2eu8
        invariant
            start <= i <= t@.len(),
            start <= t@.len(),
            forall|j: int| start <= j < i ==> #[trigger] t@[j] != 0x2eu8,
        decreases t@.len() - i,
    {
        i = i + 1;
    }
    proof {
        assert forall|j: int| 0 <= j < i - start implies #[trigger] body[j] != 0x2eu8 by {
            assert(body[j] == t@[start + j]);
        }
        if (i as int) < t@.len() {
            assert(body[i - start] == t@[i as int]);
        }
        lemma_first_dot(body, 0, i - start);
    }
    if i == t.len() {
        // no fractional part
        if start >= t.len() {
            proof {
                assert(body.len() == 0);
            }
            return None;
        }
        let digits_ok = check_digits(t, start, t.len());
        let canonical = digits_ok && (t.len() - start == 1 || t[start] != 0x30u8);
        proof {
            assert(body =~= t@.subrange(start as int, t@.len() as int));
            assert(canonical == digits_canonical(body));
        }
        if !canonical {
            return None;
        }
        let ip = copy_range(t, start, t.len());
        proof {
            assert(ip@ =~= body);
        }
        return Some(Decimal { negative: neg, int_digits: ip, frac_digits: Vec::new() });
    }
    // a dot at position i
    let ghost k = i - start;
    proof {
        assert(body.subrange(0, k) =~= t@.subrange(start as int, i as int));
        assert(body.subrange(k + 1, body.len() as int) =~= t@.subrange(i as int + 1, t@.len() as int));
    }
    if i == start {
        // empty integer part
        proof {
            assert(body.subrange(0, k).len() == 0);
        }
        return None;
    }
    let int_ok = check_digits(t, start, i);
    let int_canonical = int_ok && (i - start == 1 || t[start] != 0x30u8);
    proof {
        let ip = body.subrange(0, k);
        assert(ip[0] == t@[start as int]);
        assert(int_canonical == digits_canonical(ip));
    }
    if !int_canonical {
        return None;
    }
    if i + 1 >= t.len() {
        // empty fraction
        return None;
    }
    let frac_ok = check_digits(t, i + 1, t.len());
    if !frac_ok {
        return None;
    }
    let ip = copy_range(t, start, i);
    let fp = copy_range(t, i + 1, t.len());
    proof {
        assert(ip@ =~= body.subrange(0, k));
        assert(fp@ =~= body.subrange(k + 1, body.len() as int));
    }
    Some(Decimal { negative: neg, int_digits: ip, frac_digits: fp })
}

} // verus!
