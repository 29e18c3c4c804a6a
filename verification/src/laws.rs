use vstd::prelude::*;

use crate::literals::{lit_attr_open, lit_attrs_key, lit_desc_key, lit_doc_close, lit_obj_open, lit_value_key};
use crate::metadata::{
    attr_wf, doc_wf, hex_digit, json_safe_byte, number_byte, plain_string_byte, spec_attr_text,
    spec_attrs_rest, spec_attrs_text, spec_doc_text, spec_escape, spec_escape_byte,
    spec_value_text, value_wf, AttrModel, DocModel, ValueModel,
};
use crate::number::{
    float_wf, is_digit, lemma_u64_text_canonical, spec_decimal_text, spec_u64_text, DecimalModel,
};

verus! {

/// Stripping one and the same prefix of two equal texts leaves equal texts.
proof fn lemma_cancel_prefix(a: Seq<u8>, x: Seq<u8>, y: Seq<u8>)
    requires
        a + x == a + y,
    ensures
        x == y,
{
    let n = a.len() as int;
    let full1 = a + x;
    let full2 = a + y;
    assert(full1.len() == n + x.len());
    assert(full2.len() == n + y.len());
    assert(x =~= full1.subrange(n, full1.len() as int));
    assert(y =~= full2.subrange(n, full2.len() as int));
    assert(full1.subrange(n, full1.len() as int) == full2.subrange(n, full2.len() as int));
}

/// Two equal texts that each begin with a token of bytes satisfying `p`,
/// ended by a byte that does not, split into equal tokens and equal tails.
proof fn lemma_token_split(
    a: Seq<u8>,
    b: Seq<u8>,
    t1: Seq<u8>,
    t2: Seq<u8>,
    p: spec_fn(u8) -> bool,
)
    requires
        forall|i: int| 0 <= i < a.len() ==> #[trigger] p(a[i]),
        forall|i: int| 0 <= i < b.len() ==> #[trigger] p(b[i]),
        t1.len() > 0,
        t2.len() > 0,
        !p(t1[0]),
        !p(t2[0]),
        a + t1 == b + t2,
    ensures
        a == b,
        t1 == t2,
{
    if a.len() < b.len() {
        assert((a + t1)[a.len() as int] == t1[0]);
        assert((b + t2)[a.len() as int] == b[a.len() as int]);
        assert(p(b[a.len() as int]));
        assert(false);
    }
    if b.len() < a.len() {
        assert((b + t2)[b.len() as int] == t2[0]);
        assert((a + t1)[b.len() as int] == a[b.len() as int]);
        assert(p(a[b.len() as int]));
        assert(false);
    }
    assert forall|i: int| 0 <= i < a.len() implies a[i] == b[i] by {
        assert((a + t1)[i] == a[i]);
        assert((b + t2)[i] == b[i]);
    }
    assert(a =~= b);
    lemma_cancel_prefix(a, t1, t2);
}

/// Two hexadecimal digits of values below sixteen agree only on one value.
pub proof fn lemma_hex_digit_inj(x: u8, y: u8)
    requires
        x < 16,
        y < 16,
        hex_digit(x) == hex_digit(y),
    ensures
        x == y,
{
}

/// Two equal texts that each begin with an escaped string, ended by a raw
/// quote (which an escaped string never holds), split into equal sources
/// and equal tails.
proof fn lemma_escape_split(s1: Seq<u8>, s2: Seq<u8>, t1: Seq<u8>, t2: Seq<u8>)
    requires
        t1.len() > 0,
        t2.len() > 0,
        t1[0] == 0x22u8,
        t2[0] == 0x22u8,
        spec_escape(s1) + t1 == spec_escape(s2) + t2,
    ensures
        s1 == s2,
        t1 == t2,
    decreases s1.len() + s2.len(),
{
    if s1.len() == 0 && s2.len() == 0 {
        assert(t1 =~= spec_escape(s1) + t1);
        assert(t2 =~= spec_escape(s2) + t2);
        assert(s1 =~= s2);
    } else if s1.len() == 0 {
        let b2 = s2[0];
        assert((spec_escape(s1) + t1)[0] == t1[0]);
        assert(spec_escape(s2) == spec_escape_byte(b2) + spec_escape(s2.skip(1)));
        assert(spec_escape_byte(b2).len() > 0);
        assert((spec_escape(s2) + t2)[0] == spec_escape_byte(b2)[0]);
        if plain_string_byte(b2) {
            assert(spec_escape_byte(b2)[0] == b2);
        } else {
            assert(spec_escape_byte(b2)[0] == 0x5cu8);
        }
        assert(false);
    } else if s2.len() == 0 {
        let b1 = s1[0];
        assert((spec_escape(s2) + t2)[0] == t2[0]);
        assert(spec_escape(s1) == spec_escape_byte(b1) + spec_escape(s1.skip(1)));
        assert(spec_escape_byte(b1).len() > 0);
        assert((spec_escape(s1) + t1)[0] == spec_escape_byte(b1)[0]);
        if plain_string_byte(b1) {
            assert(spec_escape_byte(b1)[0] == b1);
        } else {
            assert(spec_escape_byte(b1)[0] == 0x5cu8);
        }
        assert(false);
    } else {
        let b1 = s1[0];
        let b2 = s2[0];
        let c1 = spec_escape_byte(b1);
        let c2 = spec_escape_byte(b2);
        let r1 = spec_escape(s1.skip(1)) + t1;
        let r2 = spec_escape(s2.skip(1)) + t2;
        assert(spec_escape(s1) + t1 =~= c1 + r1);
        assert(spec_escape(s2) + t2 =~= c2 + r2);
        if plain_string_byte(b1) && plain_string_byte(b2) {
            assert((c1 + r1)[0] == b1);
            assert((c2 + r2)[0] == b2);
            assert(b1 == b2);
            lemma_cancel_prefix(c1, r1, r2);
        } else if plain_string_byte(b1) {
            assert((c1 + r1)[0] == b1);
            assert((c2 + r2)[0] == 0x5cu8);
            assert(false);
        } else if plain_string_byte(b2) {
            assert((c2 + r2)[0] == b2);
            assert((c1 + r1)[0] == 0x5cu8);
            assert(false);
        } else {
            assert(c1.len() == 6 && c2.len() == 6);
            assert((c1 + r1)[4] == c1[4] && c1[4] == hex_digit(b1 / 16));
            assert((c2 + r2)[4] == c2[4] && c2[4] == hex_digit(b2 / 16));
            assert((c1 + r1)[5] == c1[5] && c1[5] == hex_digit(b1 % 16));
            assert((c2 + r2)[5] == c2[5] && c2[5] == hex_digit(b2 % 16));
            lemma_hex_digit_inj(b1 / 16, b2 / 16);
            lemma_hex_digit_inj(b1 % 16, b2 % 16);
            assert(b1 == b2);
            assert(c1 =~= c2);
            lemma_cancel_prefix(c1, r1, r2);
        }
        lemma_escape_split(s1.skip(1), s2.skip(1), t1, t2);
        assert forall|i: int| 0 <= i < s1.len() implies s1[i] == s2[i] by {
            if i > 0 {
                assert(s1.skip(1)[i - 1] == s1[i]);
                assert(s2.skip(1)[i - 1] == s2[i]);
            }
        }
        assert(s1 =~= s2);
    }
}

/// The text of a well-formed value is non-empty and made of number bytes.
pub proof fn lemma_value_text_charset(v: ValueModel)
    requires
        value_wf(v),
    ensures
        spec_value_text(v).len() > 0,
        forall|i: int| 0 <= i < spec_value_text(v).len() ==> #[trigger] number_byte(
            spec_value_text(v)[i],
        ),
{
    match v {
        ValueModel::Uint(n) => {
            lemma_u64_text_canonical(n as nat);
            assert forall|i: int| 0 <= i < spec_value_text(v).len() implies #[trigger] number_byte(
                spec_value_text(v)[i],
            ) by {
                assert(is_digit(spec_u64_text(n as nat)[i]));
            }
        },
        ValueModel::Num(d) => {
            let s = spec_decimal_text(d);
            let sign: Seq<u8> = if d.negative { seq![0x2du8] } else { Seq::<u8>::empty() };
            assert forall|i: int| 0 <= i < s.len() implies #[trigger] number_byte(s[i]) by {
                if i < sign.len() {
                    assert(s[i] == 0x2du8);
                } else if i < sign.len() + d.int_digits.len() {
                    assert(s[i] == d.int_digits[i - sign.len()]);
                    assert(is_digit(d.int_digits[i - sign.len()]));
                } else {
                    let tail = seq![0x2eu8] + d.frac_digits;
                    assert(s[i] == tail[i - sign.len() - d.int_digits.len()]);
                    if i - sign.len() - d.int_digits.len() > 0 {
                        assert(is_digit(d.frac_digits[i - sign.len() - d.int_digits.len() - 1]));
                    }
                }
            }
        },
    }
}

/// An escaped string never holds a raw quote.
pub proof fn lemma_escape_no_quote(s: Seq<u8>)
    ensures
        forall|i: int| 0 <= i < spec_escape(s).len() ==> #[trigger] spec_escape(s)[i] != 0x22u8,
    decreases s.len(),
{
    if s.len() > 0 {
        lemma_escape_no_quote(s.skip(1));
        let c = spec_escape_byte(s[0]);
        assert(spec_escape(s) == c + spec_escape(s.skip(1)));
        assert forall|i: int| 0 <= i < spec_escape(s).len() implies #[trigger] spec_escape(s)[i]
            != 0x22u8 by {
            if i < c.len() {
                assert(spec_escape(s)[i] == c[i]);
                if plain_string_byte(s[0]) {
                    assert(c[i] == s[0]);
                } else {
                    assert(c =~= seq![0x5cu8, 0x75u8, 0x30u8, 0x30u8, hex_digit(s[0] / 16), hex_digit(s[0] % 16)]);
                }
            } else {
                assert(spec_escape(s)[i] == spec_escape(s.skip(1))[i - c.len()]);
            }
        }
    }
}

/// An escaped text that continues one source's escape continues the source:
/// the source is a prefix, and the remainder is the escape of its rest.
pub proof fn lemma_escape_prefix(s: Seq<u8>, o: Seq<u8>, rest: Seq<u8>)
    requires
        spec_escape(s) == spec_escape(o) + rest,
    ensures
        s.len() >= o.len(),
        s.take(o.len() as int) == o,
        spec_escape(s.skip(o.len() as int)) == rest,
    decreases o.len(),
{
    if o.len() == 0 {
        assert(s.take(0) =~= o);
        assert(s.skip(0) =~= s);
        assert(rest =~= spec_escape(s));
    } else {
        let b2 = o[0];
        let c2 = spec_escape_byte(b2);
        assert(spec_escape(o) == c2 + spec_escape(o.skip(1)));
        assert(c2.len() > 0);
        if s.len() == 0 {
            assert(spec_escape(s).len() == 0);
            assert((spec_escape(o) + rest).len() > 0);
            assert(false);
        }
        let b1 = s[0];
        let c1 = spec_escape_byte(b1);
        let r1 = spec_escape(s.skip(1));
        let r2 = spec_escape(o.skip(1)) + rest;
        assert(spec_escape(s) =~= c1 + r1);
        assert(spec_escape(o) + rest =~= c2 + r2);
        if plain_string_byte(b1) && plain_string_byte(b2) {
            assert((c1 + r1)[0] == b1);
            assert((c2 + r2)[0] == b2);
            assert(b1 == b2);
            lemma_cancel_prefix(c1, r1, r2);
        } else if plain_string_byte(b1) {
            assert((c1 + r1)[0] == b1);
            assert((c2 + r2)[0] == 0x5cu8);
            assert(false);
        } else if plain_string_byte(b2) {
            assert((c2 + r2)[0] == b2);
            assert((c1 + r1)[0] == 0x5cu8);
            assert(false);
        } else {
            assert(c1.len() == 6 && c2.len() == 6);
            assert((c1 + r1)[4] == c1[4] && c1[4] == hex_digit(b1 / 16));
            assert((c2 + r2)[4] == c2[4] && c2[4] == hex_digit(b2 / 16));
            assert((c1 + r1)[5] == c1[5] && c1[5] == hex_digit(b1 % 16));
            assert((c2 + r2)[5] == c2[5] && c2[5] == hex_digit(b2 % 16));
            lemma_hex_digit_inj(b1 / 16, b2 / 16);
            lemma_hex_digit_inj(b1 % 16, b2 % 16);
            assert(b1 == b2);
            assert(c1 =~= c2);
            lemma_cancel_prefix(c1, r1, r2);
        }
        lemma_escape_prefix(s.skip(1), o.skip(1), rest);
        assert forall|i: int| 0 <= i < o.len() implies s.take(o.len() as int)[i] == o[i] by {
            if i > 0 {
                assert(s.skip(1).take(o.len() - 1)[i - 1] == s.skip(1)[i - 1]);
                assert(o.skip(1)[i - 1] == o[i]);
            }
        }
        assert(s.take(o.len() as int) =~= o);
        assert(s.skip(o.len() as int) =~= s.skip(1).skip(o.len() - 1));
    }
}

/// Escaping is injective: equal escaped texts come from one source.
pub proof fn lemma_escape_inj(s1: Seq<u8>, s2: Seq<u8>)
    requires
        spec_escape(s1) == spec_escape(s2),
    ensures
        s1 == s2,
{
    lemma_escape_split(s1, s2, seq![0x22u8], seq![0x22u8]);
}

/// Two whole numbers with one and the same decimal text are one number.
proof fn lemma_u64_text_inj(a: nat, b: nat)
    requires
        spec_u64_text(a) == spec_u64_text(b),
    ensures
        a == b,
    decreases a,
{
    lemma_u64_text_canonical(a);
    lemma_u64_text_canonical(b);
    if a < 10 && b < 10 {
        assert(spec_u64_text(a)[0] == (0x30 + a) as u8);
        assert(spec_u64_text(b)[0] == (0x30 + b) as u8);
    } else if a < 10 {
        assert(spec_u64_text(a).len() == 1);
        assert(spec_u64_text(b).len() == spec_u64_text(b / 10).len() + 1);
        assert(spec_u64_text(b / 10).len() >= 1);
        assert(false);
    } else if b < 10 {
        assert(spec_u64_text(b).len() == 1);
        assert(spec_u64_text(a).len() == spec_u64_text(a / 10).len() + 1);
        assert(spec_u64_text(a / 10).len() >= 1);
        assert(false);
    } else {
        let pa = spec_u64_text(a / 10);
        let pb = spec_u64_text(b / 10);
        let s = spec_u64_text(a);
        assert(s == pa + seq![(0x30 + a % 10) as u8]);
        assert(s == pb + seq![(0x30 + b % 10) as u8]);
        assert(pa.len() == pb.len());
        assert forall|i: int| 0 <= i < pa.len() implies pa[i] == pb[i] by {
            assert(s[i] == pa[i]);
            assert(s[i] == pb[i]);
        }
        assert(pa =~= pb);
        lemma_u64_text_inj(a / 10, b / 10);
        assert(s[s.len() - 1] == (0x30 + a % 10) as u8);
        assert(s[s.len() - 1] == (0x30 + b % 10) as u8);
        assert(a % 10 == b % 10);
        assert(a == 10 * (a / 10) + a % 10);
        assert(b == 10 * (b / 10) + b % 10);
    }
}

/// Two well-formed fractional decimals with one and the same text are one
/// decimal.
proof fn lemma_decimal_text_inj(d1: DecimalModel, d2: DecimalModel)
    requires
        float_wf(d1),
        float_wf(d2),
        spec_decimal_text(d1) == spec_decimal_text(d2),
    ensures
        d1 == d2,
{
    let s1 = spec_decimal_text(d1);
    let s2 = spec_decimal_text(d2);
    // the sign is readable off the first byte: a digit means non-negative
    if d1.negative != d2.negative {
        if d1.negative {
            assert(s1[0] == 0x2du8);
            assert(s2[0] == d2.int_digits[0]);
            assert(is_digit(d2.int_digits[0]));
        } else {
            assert(s2[0] == 0x2du8);
            assert(s1[0] == d1.int_digits[0]);
            assert(is_digit(d1.int_digits[0]));
        }
        assert(false);
    }
    let sign: Seq<u8> = if d1.negative { seq![0x2du8] } else { Seq::<u8>::empty() };
    let tail1 = seq![0x2eu8] + d1.frac_digits;
    let tail2 = seq![0x2eu8] + d2.frac_digits;
    assert(s1 =~= sign + (d1.int_digits + tail1));
    assert(s2 =~= sign + (d2.int_digits + tail2));
    lemma_cancel_prefix(sign, d1.int_digits + tail1, d2.int_digits + tail2);
    lemma_token_split(d1.int_digits, d2.int_digits, tail1, tail2, |b: u8| is_digit(b));
    lemma_cancel_prefix(seq![0x2eu8], d1.frac_digits, d2.frac_digits);
    assert(d1 =~= d2);
}

/// Two well-formed values with one and the same JSON text are one value.
proof fn lemma_value_text_inj(v1: ValueModel, v2: ValueModel)
    requires
        value_wf(v1),
        value_wf(v2),
        spec_value_text(v1) == spec_value_text(v2),
    ensures
        v1 == v2,
{
    match (v1, v2) {
        (ValueModel::Uint(a), ValueModel::Uint(b)) => {
            lemma_u64_text_inj(a as nat, b as nat);
        },
        (ValueModel::Num(a), ValueModel::Num(b)) => {
            lemma_decimal_text_inj(a, b);
        },
        (ValueModel::Uint(n), ValueModel::Num(d)) => {
            lemma_uint_num_dot(n, d);
        },
        (ValueModel::Num(d), ValueModel::Uint(n)) => {
            lemma_uint_num_dot(n, d);
        },
    }
}

/// When the text of a whole number reads as the text of a fractional
/// decimal, the decimal's dot stands where the whole number's text has a
/// digit: the two texts never coincide.
proof fn lemma_uint_num_dot(n: u64, d: DecimalModel)
    requires
        float_wf(d),
    ensures
        spec_u64_text(n as nat) != spec_decimal_text(d),
{
    lemma_u64_text_canonical(n as nat);
    let s = spec_decimal_text(d);
    let sign: Seq<u8> = if d.negative { seq![0x2du8] } else { Seq::<u8>::empty() };
    let tail = seq![0x2eu8] + d.frac_digits;
    let dot = sign.len() + d.int_digits.len();
    assert(s =~= sign + d.int_digits + tail);
    assert(s[dot as int] == tail[0]);
    assert(s[dot as int] == 0x2eu8);
    assert(dot < s.len());
    if spec_u64_text(n as nat) == s {
        assert(is_digit(spec_u64_text(n as nat)[dot as int]));
    }
}

/// Two well-formed attributes whose texts open two equal tails are equal,
/// and leave equal tails.
pub proof fn lemma_attr_split(a1: AttrModel, a2: AttrModel, r1: Seq<u8>, r2: Seq<u8>)
    requires
        attr_wf(a1),
        attr_wf(a2),
        spec_attr_text(a1) + r1 == spec_attr_text(a2) + r2,
    ensures
        a1 == a2,
        r1 == r2,
{
    let v1 = spec_value_text(a1.value);
    let v2 = spec_value_text(a2.value);
    lemma_value_text_charset(a1.value);
    lemma_value_text_charset(a2.value);
    let mid1 = lit_value_key() + v1 + seq![0x7du8] + r1;
    let mid2 = lit_value_key() + v2 + seq![0x7du8] + r2;
    assert(spec_attr_text(a1) + r1 =~= lit_attr_open() + (a1.trait_name + mid1));
    assert(spec_attr_text(a2) + r2 =~= lit_attr_open() + (a2.trait_name + mid2));
    lemma_cancel_prefix(lit_attr_open(), a1.trait_name + mid1, a2.trait_name + mid2);
    assert(mid1[0] == lit_value_key()[0]);
    assert(lit_value_key()[0] == 0x22u8);
    assert(!json_safe_byte(0x22u8));
    lemma_token_split(a1.trait_name, a2.trait_name, mid1, mid2, |b: u8| json_safe_byte(b));
    let end1 = seq![0x7du8] + r1;
    let end2 = seq![0x7du8] + r2;
    assert(mid1 =~= lit_value_key() + (v1 + end1));
    assert(mid2 =~= lit_value_key() + (v2 + end2));
    lemma_cancel_prefix(lit_value_key(), v1 + end1, v2 + end2);
    assert(end1[0] == 0x7du8);
    assert(!number_byte(0x7du8));
    lemma_token_split(v1, v2, end1, end2, |b: u8| number_byte(b));
    lemma_value_text_inj(a1.value, a2.value);
    lemma_cancel_prefix(seq![0x7du8], r1, r2);
    assert(a1 =~= a2);
}

/// Two well-formed attribute lists whose texts open two equal tails that
/// begin with the closing bracket are equal, and leave equal tails.
pub proof fn lemma_attrs_split(s1: Seq<AttrModel>, s2: Seq<AttrModel>, t1: Seq<u8>, t2: Seq<u8>)
    requires
        forall|i: int| 0 <= i < s1.len() ==> #[trigger] attr_wf(s1[i]),
        forall|i: int| 0 <= i < s2.len() ==> #[trigger] attr_wf(s2[i]),
        t1.len() > 0,
        t2.len() > 0,
        t1[0] == 0x5du8,
        t2[0] == 0x5du8,
        spec_attrs_text(s1) + t1 == spec_attrs_text(s2) + t2,
    ensures
        s1 == s2,
        t1 == t2,
    decreases s1.len(),
{
    assert(lit_attr_open()[0] == 0x7bu8);
    if s1.len() == 0 && s2.len() == 0 {
        assert(t1 =~= spec_attrs_text(s1) + t1);
        assert(t2 =~= spec_attrs_text(s2) + t2);
        assert(s1 =~= s2);
    } else if s1.len() == 0 {
        assert((spec_attrs_text(s1) + t1)[0] == t1[0]);
        assert((spec_attrs_text(s2) + t2)[0] == spec_attr_text(s2[0])[0]);
        assert(spec_attr_text(s2[0])[0] == lit_attr_open()[0]);
        assert(false);
    } else if s2.len() == 0 {
        assert((spec_attrs_text(s2) + t2)[0] == t2[0]);
        assert((spec_attrs_text(s1) + t1)[0] == spec_attr_text(s1[0])[0]);
        assert(spec_attr_text(s1[0])[0] == lit_attr_open()[0]);
        assert(false);
    } else {
        let r1 = spec_attrs_rest(s1.skip(1)) + t1;
        let r2 = spec_attrs_rest(s2.skip(1)) + t2;
        assert(spec_attrs_text(s1) + t1 =~= spec_attr_text(s1[0]) + r1);
        assert(spec_attrs_text(s2) + t2 =~= spec_attr_text(s2[0]) + r2);
        lemma_attr_split(s1[0], s2[0], r1, r2);
        if s1.skip(1).len() == 0 && s2.skip(1).len() == 0 {
            assert(r1 =~= t1);
            assert(r2 =~= t2);
            assert(s1.len() == 1 && s2.len() == 1);
            assert(s1 =~= s2);
        } else if s1.skip(1).len() == 0 {
            assert(r1[0] == t1[0]);
            assert(r2[0] == 0x2cu8);
            assert(false);
        } else if s2.skip(1).len() == 0 {
            assert(r2[0] == t2[0]);
            assert(r1[0] == 0x2cu8);
            assert(false);
        } else {
            assert(spec_attrs_rest(s1.skip(1)) =~= seq![0x2cu8] + spec_attrs_text(s1.skip(1)));
            assert(spec_attrs_rest(s2.skip(1)) =~= seq![0x2cu8] + spec_attrs_text(s2.skip(1)));
            assert(r1 =~= seq![0x2cu8] + (spec_attrs_text(s1.skip(1)) + t1));
            assert(r2 =~= seq![0x2cu8] + (spec_attrs_text(s2.skip(1)) + t2));
            lemma_cancel_prefix(
                seq![0x2cu8],
                spec_attrs_text(s1.skip(1)) + t1,
                spec_attrs_text(s2.skip(1)) + t2,
            );
            lemma_attrs_split(s1.skip(1), s2.skip(1), t1, t2);
            assert forall|i: int| 0 <= i < s1.len() implies s1[i] == s2[i] by {
                if i > 0 {
                    assert(s1.skip(1)[i - 1] == s1[i]);
                    assert(s2.skip(1)[i - 1] == s2[i]);
                }
            }
            assert(s1 =~= s2);
        }
    }
}

/// LAW: serialization is injective on well-formed documents. Two documents
/// with one and the same canonical JSON text are structurally equal — the
/// same name, the same description, and the same ordered attribute list.
#[verifier::rlimit(100)]
pub proof fn lemma_doc_text_injective(d1: DocModel, d2: DocModel)
    requires
        doc_wf(d1),
        doc_wf(d2),
        spec_doc_text(d1) == spec_doc_text(d2),
    ensures
        d1 == d2,
{
    let m1 = lit_desc_key() + spec_escape(d1.description) + lit_attrs_key()
        + spec_attrs_text(d1.attributes) + lit_doc_close();
    let m2 = lit_desc_key() + spec_escape(d2.description) + lit_attrs_key()
        + spec_attrs_text(d2.attributes) + lit_doc_close();
    assert(spec_doc_text(d1) =~= lit_obj_open() + (spec_escape(d1.name) + m1));
    assert(spec_doc_text(d2) =~= lit_obj_open() + (spec_escape(d2.name) + m2));
    lemma_cancel_prefix(lit_obj_open(), spec_escape(d1.name) + m1, spec_escape(d2.name) + m2);
    assert(m1[0] == lit_desc_key()[0]);
    assert(lit_desc_key()[0] == 0x22u8);
    lemma_escape_split(d1.name, d2.name, m1, m2);
    let w1 = lit_attrs_key() + spec_attrs_text(d1.attributes) + lit_doc_close();
    let w2 = lit_attrs_key() + spec_attrs_text(d2.attributes) + lit_doc_close();
    assert(m1 =~= lit_desc_key() + (spec_escape(d1.description) + w1));
    assert(m2 =~= lit_desc_key() + (spec_escape(d2.description) + w2));
    lemma_cancel_prefix(
        lit_desc_key(),
        spec_escape(d1.description) + w1,
        spec_escape(d2.description) + w2,
    );
    assert(w1[0] == lit_attrs_key()[0]);
    assert(lit_attrs_key()[0] == 0x22u8);
    lemma_escape_split(d1.description, d2.description, w1, w2);
    assert(w1 =~= lit_attrs_key() + (spec_attrs_text(d1.attributes) + lit_doc_close()));
    assert(w2 =~= lit_attrs_key() + (spec_attrs_text(d2.attributes) + lit_doc_close()));
    lemma_cancel_prefix(
        lit_attrs_key(),
        spec_attrs_text(d1.attributes) + lit_doc_close(),
        spec_attrs_text(d2.attributes) + lit_doc_close(),
    );
    assert(lit_doc_close()[0] == 0x5du8);
    lemma_attrs_split(d1.attributes, d2.attributes, lit_doc_close(), lit_doc_close());
    assert(d1 =~= d2);
}

/// LAW: the serialize-then-parse round trip is the identity. The parser is
/// owed success on the canonical text of every well-formed document and
/// only returns well-formed documents that re-serialize to its input, so
/// the document it returns for the canonical text of a well-formed
/// document `d` is structurally equal to `d` — the same ordered attribute
/// list included.
pub proof fn lemma_round_trip(d: DocModel, parsed: DocModel)
    requires
        doc_wf(d),
        doc_wf(parsed),
        spec_doc_text(parsed) == spec_doc_text(d),
    ensures
        parsed == d,
{
    lemma_doc_text_injective(parsed, d);
}

} // verus!
