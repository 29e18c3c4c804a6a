use vstd::prelude::*;

use crate::laws::{
    lemma_attr_split, lemma_attrs_split, lemma_escape_inj, lemma_escape_no_quote,
    lemma_escape_prefix, lemma_hex_digit_inj, lemma_value_text_charset,
};
use crate::literals::{
    bytes_attr_open, bytes_attrs_key, bytes_desc_key, bytes_doc_close, bytes_obj_open,
    bytes_value_key, lit_attr_open, lit_attrs_key, lit_desc_key, lit_doc_close, lit_obj_open,
    lit_value_key,
};
use crate::metadata::{
    attr_wf, check_json_safe, doc_wf, hex_digit, json_safe_byte, lemma_escape_snoc, number_byte,
    plain_string_byte, serialize_document, spec_attr_text, spec_attrs_rest, spec_attrs_text,
    spec_doc_text, spec_escape, spec_escape_byte, spec_value_text, value_wf, AttrModel, AttrValue,
    Attribute, DocModel, MetadataDocument, ValueModel,
};
use crate::number::{
    bytes_eq, check_decimal_wf, copy_range, digits_value, is_digit, lemma_digits_value_monotone,
    lemma_digits_value_of_text, lemma_parse_decimal_of_text, lemma_u64_text_canonical,
    parse_decimal, spec_u64_text,
};

verus! {

/// A known prefix of the text after position `i` can be peeled off: the
/// prefix stands there byte for byte, and the rest follows it.
proof fn lemma_peel(t: Seq<u8>, i: int, p: Seq<u8>, rest: Seq<u8>)
    requires
        0 <= i <= t.len(),
        t.skip(i) == p + rest,
    ensures
        i + p.len() <= t.len(),
        t.subrange(i, i + p.len()) == p,
        t.skip(i + p.len()) == rest,
        forall|k: int| 0 <= k < p.len() ==> t[i + k] == #[trigger] p[k],
    decreases 0int,
{
    assert(t.skip(i).len() == t.len() - i);
    assert forall|k: int| 0 <= k < p.len() implies t[i + k] == #[trigger] p[k] by {
        assert(t.skip(i)[k] == t[i + k]);
        assert((p + rest)[k] == p[k]);
    }
    assert(t.subrange(i, i + p.len()) =~= p);
    assert forall|k: int| 0 <= k < rest.len() implies t.skip(i + p.len())[k] == rest[k] by {
        assert(t.skip(i + p.len())[k] == t[i + p.len() + k]);
        assert(t.skip(i)[p.len() + k] == t[i + p.len() + k]);
        assert((p + rest)[p.len() + k] == rest[k]);
    }
    assert(t.skip(i + p.len()) =~= rest);
}

/// Matches the literal `lit` at position `i` of `t`; yields the position
/// just past it exactly when the literal stands there.
fn expect_lit(t: &Vec<u8>, i: usize, lit: &Vec<u8>) -> (r: Option<usize>)
    requires
        i <= t@.len(),
    ensures
        (match r {
            Some(j) => j == i + lit@.len() && j <= t@.len() && t@.subrange(
                i as int,
                i + lit@.len(),
            ) == lit@,
            None => !(i + lit@.len() <= t@.len() && t@.subrange(i as int, i + lit@.len())
                == lit@),
        }),
{
    let n = t.len();
    if lit.len() > n - i {
        return None;
    }
    let mut k: usize = 0;
    while k < lit.len()
        invariant
            0 <= k <= lit@.len(),
            i + lit@.len() <= n,
            n == t@.len(),
            forall|m: int| 0 <= m < k ==> t@[i + m] == #[trigger] lit@[m],
        decreases lit@.len() - k,
    {
        if t[i + k] != lit[k] {
            proof {
                assert(t@.subrange(i as int, i + lit@.len())[k as int] == t@[i + k]);
            }
            return None;
        }
        k = k + 1;
    }
    proof {
        assert(t@.subrange(i as int, i + lit@.len()) =~= lit@);
    }
    Some(i + lit.len())
}

/// Finds the first position at or after `i` holding the byte `target`.
fn scan_for(t: &Vec<u8>, i: usize, target: u8) -> (r: Option<usize>)
    requires
        i <= t@.len(),
    ensures
        (match r {
            Some(j) => i <= j < t@.len() && t@[j as int] == target && (forall|k: int|
                i <= k < j ==> t@[k] != target),
            None => forall|k: int| i <= k < t@.len() ==> t@[k] != target,
        }),
{
    let mut j: usize = i;
    while j < t.len()
        invariant
            i <= j <= t@.len(),
            forall|k: int| i <= k < j ==> t@[k] != target,
        decreases t@.len() - j,
    {
        if t[j] == target {
            return Some(j);
        }
        j = j + 1;
    }
    None
}

/// The value of one lowercase hexadecimal digit.
fn hex_val(b: u8) -> (r: Option<u8>)
    ensures
        (match r {
            Some(n) => n < 16 && hex_digit(n) == b,
            None => forall|n: u8| n < 16 ==> hex_digit(n) != b,
        }),
{
    if 0x30u8 <= b && b <= 0x39u8 {
        Some(b - 0x30u8)
    } else if 0x61u8 <= b && b <= 0x66u8 {
        Some(b - 0x57u8)
    } else {
        None
    }
}

/// Undoes the canonical string escape: it succeeds exactly on the escape of
/// some source, and yields that source.
fn unescape_bytes(v: &Vec<u8>) -> (r: Option<Vec<u8>>)
    ensures
        (match r {
            Some(out) => spec_escape(out@) == v@,
            None => forall|s: Seq<u8>| spec_escape(s) != v@,
        }),
{
    let ghost hyp = exists|s: Seq<u8>| spec_escape(s) == v@;
    let ghost w: Seq<u8> = if hyp {
        choose|s: Seq<u8>| spec_escape(s) == v@
    } else {
        Seq::<u8>::empty()
    };
    let mut out: Vec<u8> = Vec::new();
    let mut i: usize = 0;
    while i < v.len()
        invariant
            0 <= i <= v@.len(),
            spec_escape(out@) == v@.take(i as int),
            hyp == exists|s: Seq<u8>| spec_escape(s) == v@,
            hyp ==> spec_escape(w) == v@,
        decreases v@.len() - i,
    {
        proof {
            if hyp {
                // the rest of the input is the escape of the rest of the source
                assert(spec_escape(w) =~= spec_escape(out@) + v@.skip(i as int));
                lemma_escape_prefix(w, out@, v@.skip(i as int));
            }
        }
        let ghost tail = if hyp { w.skip(out@.len() as int) } else { Seq::<u8>::empty() };
        proof {
            if hyp {
                assert(spec_escape(tail) == v@.skip(i as int));
                assert(v@.skip(i as int).len() > 0);
                if tail.len() == 0 {
                    assert(spec_escape(tail).len() == 0);
                }
                assert(tail.len() > 0);
                assert(spec_escape(tail) == spec_escape_byte(tail[0]) + spec_escape(tail.skip(1)));
                assert(v@[i as int] == v@.skip(i as int)[0]);
            }
        }
        let b = v[i];
        if b >= 0x20u8 && b != 0x22u8 && b != 0x5cu8 {
            let ghost prev = out@;
            out.push(b);
            proof {
                lemma_escape_snoc(prev, b);
                assert(spec_escape(out@) =~= v@.take(i as int + 1));
            }
            i = i + 1;
        } else if b != 0x5cu8 {
            // a raw byte that escaping never leaves bare
            proof {
                if hyp {
                    if plain_string_byte(tail[0]) {
                        assert(v@[i as int] == tail[0]);
                    } else {
                        assert(v@[i as int] == 0x5cu8);
                    }
                    assert(false);
                }
            }
            return None;
        } else {
            proof {
                if hyp {
                    if plain_string_byte(tail[0]) {
                        assert(v@[i as int] == tail[0]);
                        assert(false);
                    }
                    let code = spec_escape_byte(tail[0]);
                    assert(code.len() == 6);
                    lemma_peel(v@, i as int, code, spec_escape(tail.skip(1)));
                }
            }
            if v.len() - i < 6 {
                proof {
                    if hyp {
                        assert(false);
                    }
                }
                return None;
            }
            if v[i + 1] != 0x75u8 || v[i + 2] != 0x30u8 || v[i + 3] != 0x30u8 {
                proof {
                    if hyp {
                        assert(v@[i as int + 1] == 0x75u8);
                        assert(v@[i as int + 2] == 0x30u8);
                        assert(v@[i as int + 3] == 0x30u8);
                        assert(false);
                    }
                }
                return None;
            }
            let hi = match hex_val(v[i + 4]) {
                Some(n) => n,
                None => {
                    proof {
                        if hyp {
                            assert(v@[i as int + 4] == hex_digit(tail[0] / 16));
                            assert(false);
                        }
                    }
                    return None;
                },
            };
            let lo = match hex_val(v[i + 5]) {
                Some(n) => n,
                None => {
                    proof {
                        if hyp {
                            assert(v@[i as int + 5] == hex_digit(tail[0] % 16));
                            assert(false);
                        }
                    }
                    return None;
                },
            };
            let decoded = hi * 16 + lo;
            if decoded >= 0x20u8 && decoded != 0x22u8 && decoded != 0x5cu8 {
                // a plain byte is never written in escaped form
                proof {
                    if hyp {
                        assert(v@[i as int + 4] == hex_digit(tail[0] / 16));
                        assert(v@[i as int + 5] == hex_digit(tail[0] % 16));
                        lemma_hex_digit_inj(hi, tail[0] / 16);
                        lemma_hex_digit_inj(lo, tail[0] % 16);
                        assert(decoded == tail[0]);
                        assert(plain_string_byte(tail[0]));
                        assert(false);
                    }
                }
                return None;
            }
            let ghost prev = out@;
            out.push(decoded);
            proof {
                lemma_escape_snoc(prev, decoded);
                assert(!plain_string_byte(decoded));
                assert(decoded / 16 == hi && decoded % 16 == lo);
                assert(spec_escape_byte(decoded) =~= seq![
                    0x5cu8,
                    0x75u8,
                    0x30u8,
                    0x30u8,
                    hex_digit(hi),
                    hex_digit(lo),
                ]);
                assert(spec_escape(out@) =~= v@.take(i as int + 6));
            }
            i = i + 6;
        }
    }
    proof {
        assert(v@.take(v@.len() as int) =~= v@);
    }
    Some(out)
}

/// Reads an unsigned decimal integer from positions `[a, b)` of `t`. On the
/// decimal text of a value it yields exactly that value.
fn parse_u64_region(t: &Vec<u8>, a: usize, b: usize) -> (r: Option<u64>)
    requires
        a <= b <= t@.len(),
    ensures
        forall|n: u64| t@.subrange(a as int, b as int) == spec_u64_text(n as nat) ==> r == Some(
            n,
        ),
{
    let ghost sub = t@.subrange(a as int, b as int);
    if a == b {
        proof {
            assert forall|n: u64| sub == spec_u64_text(n as nat) implies false by {
                assert(spec_u64_text(n as nat).len() > 0);
            }
        }
        return None;
    }
    let mut acc: u128 = 0;
    let mut i: usize = a;
    while i < b
        invariant
            a <= i <= b <= t@.len(),
            sub == t@.subrange(a as int, b as int),
            acc as nat == digits_value(t@.subrange(a as int, i as int)),
            acc <= 0xffff_ffff_ffff_ffffu128 + 9,
        decreases b - i,
    {
        let ghost prefix = t@.subrange(a as int, i as int);
        let c = t[i];
        if !(0x30u8 <= c && c <= 0x39u8) {
            proof {
                assert forall|n: u64| sub == spec_u64_text(n as nat) implies false by {
                    lemma_u64_text_canonical(n as nat);
                    assert(is_digit(sub[i - a]));
                    assert(sub[i - a] == t@[i as int]);
                }
            }
            return None;
        }
        if acc > 1844674407370955161u128 {
            proof {
                assert forall|n: u64| sub == spec_u64_text(n as nat) implies false by {
                    lemma_digits_value_of_text(n as nat);
                    lemma_digits_value_monotone(sub, i - a);
                    assert(sub.take(i - a) =~= prefix);
                    assert(digits_value(prefix) * 10 <= n as nat);
                }
            }
            return None;
        }
        acc = acc * 10 + ((c - 0x30u8) as u128);
        proof {
            let grown = t@.subrange(a as int, i as int + 1);
            assert(grown.take(grown.len() - 1) =~= prefix);
            assert(grown.last() == t@[i as int]);
        }
        i = i + 1;
    }
    proof {
        assert(t@.subrange(a as int, i as int) =~= sub);
    }
    if acc > 0xffff_ffff_ffff_ffffu128 {
        proof {
            assert forall|n: u64| sub == spec_u64_text(n as nat) implies false by {
                lemma_digits_value_of_text(n as nat);
            }
        }
        return None;
    }
    proof {
        assert forall|n: u64| sub == spec_u64_text(n as nat) implies acc as u64 == n by {
            lemma_digits_value_of_text(n as nat);
        }
    }
    Some(acc as u64)
}

/// Reads one attribute value from its JSON text: a decimal measurement when
/// a sign or a fraction appears, a whole-number count otherwise. On the text
/// of a well-formed value it yields exactly that value.
fn parse_value(v: &Vec<u8>) -> (r: Option<AttrValue>)
    ensures
        (match r {
            Some(av) => forall|val: ValueModel|
                value_wf(val) && v@ == spec_value_text(val) ==> av@ == val,
            None => forall|val: ValueModel| value_wf(val) ==> v@ != spec_value_text(val),
        }),
{
    let mut fractional = false;
    let mut i: usize = 0;
    while i < v.len()
        invariant
            0 <= i <= v@.len(),
            fractional == exists|j: int|
                0 <= j < i && (#[trigger] v@[j] == 0x2eu8 || v@[j] == 0x2du8),
        decreases v@.len() - i,
    {
        if v[i] == 0x2eu8 || v[i] == 0x2du8 {
            fractional = true;
        }
        i = i + 1;
    }
    proof {
        // a whole number's text never sets the flag; a decimal's always does
        assert forall|val: ValueModel|
            value_wf(val) && v@ == spec_value_text(val) implies (fractional <==> val is Num) by {
            match val {
                ValueModel::Uint(n) => {
                    lemma_u64_text_canonical(n as nat);
                    if fractional {
                        let j = choose|j: int|
                            0 <= j < v@.len() && (#[trigger] v@[j] == 0x2eu8 || v@[j] == 0x2du8);
                        assert(is_digit(v@[j]));
                    }
                },
                ValueModel::Num(d) => {
                    let sign: Seq<u8> = if d.negative {
                        seq![0x2du8]
                    } else {
                        Seq::<u8>::empty()
                    };
                    let dot = sign.len() + d.int_digits.len();
                    assert(v@ =~= sign + d.int_digits + (seq![0x2eu8] + d.frac_digits));
                    assert(v@[dot as int] == 0x2eu8);
                },
            }
        }
    }
    if fractional {
        match parse_decimal(v) {
            Some(d) => {
                if d.frac_digits.len() > 0 {
                    proof {
                        assert forall|val: ValueModel|
                            value_wf(val) && v@ == spec_value_text(val) implies ValueModel::Num(
                            d@,
                        ) == val by {
                            let dm = val->Num_0;
                            lemma_parse_decimal_of_text(dm);
                        }
                    }
                    Some(AttrValue::Num(d))
                } else {
                    proof {
                        assert forall|val: ValueModel| value_wf(val) implies v@
                            != spec_value_text(val) by {
                            if v@ == spec_value_text(val) {
                                let dm = val->Num_0;
                                lemma_parse_decimal_of_text(dm);
                            }
                        }
                    }
                    None
                }
            },
            None => {
                proof {
                    assert forall|val: ValueModel| value_wf(val) implies v@ != spec_value_text(
                        val,
                    ) by {
                        if v@ == spec_value_text(val) {
                            let dm = val->Num_0;
                            lemma_parse_decimal_of_text(dm);
                        }
                    }
                }
                None
            },
        }
    } else {
        let ghost sub = v@.subrange(0, v@.len() as int);
        proof {
            assert(sub =~= v@);
        }
        match parse_u64_region(v, 0, v.len()) {
            Some(n) => {
                proof {
                    assert forall|val: ValueModel|
                        value_wf(val) && v@ == spec_value_text(val) implies ValueModel::Uint(n)
                        == val by {
                        let m = val->Uint_0;
                        assert(sub == spec_u64_text(m as nat));
                    }
                }
                Some(AttrValue::Uint(n))
            },
            None => {
                proof {
                    assert forall|val: ValueModel| value_wf(val) implies v@ != spec_value_text(
                        val,
                    ) by {
                        if v@ == spec_value_text(val) {
                            let m = val->Uint_0;
                            assert(sub == spec_u64_text(m as nat));
                        }
                    }
                }
                None
            },
        }
    }
}

/// The text from position `i` opens with one well-formed attribute.
spec fn attr_lead(t: Seq<u8>, i: int, a: AttrModel, rest: Seq<u8>) -> bool {
    &&& attr_wf(a)
    &&& t.skip(i) == spec_attr_text(a) + rest
}

/// Reads one attribute starting at position `i`; yields it with the
/// position just past its closing brace. Where a well-formed attribute's
/// text stands at `i`, reading succeeds and recovers it exactly.
#[verifier::rlimit(100)]
fn extract_one_attr(t: &Vec<u8>, i: usize) -> (r: Option<(Attribute, usize)>)
    requires
        i <= t@.len(),
    ensures
        (match r {
            Some(p) => i < p.1 && p.1 <= t@.len(),
            None => true,
        }),
        (exists|a: AttrModel, rest: Seq<u8>| attr_lead(t@, i as int, a, rest)) ==> (match r {
            Some(p) => exists|a: AttrModel, rest: Seq<u8>|
                attr_lead(t@, i as int, a, rest) && p.0@ == a && p.1 == i + spec_attr_text(
                    a,
                ).len(),
            None => false,
        }),
{
    let ghost hyp = exists|a: AttrModel, rest: Seq<u8>| attr_lead(t@, i as int, a, rest);
    let ghost (wa, wrest): (AttrModel, Seq<u8>) = if hyp {
        choose|a: AttrModel, rest: Seq<u8>| attr_lead(t@, i as int, a, rest)
    } else {
        arbitrary()
    };
    let ghost tn = wa.trait_name;
    let ghost vt = spec_value_text(wa.value);
    proof {
        if hyp {
            assert(t@.skip(i as int) =~= lit_attr_open() + (tn + (lit_value_key() + (vt + (seq![
                0x7du8,
            ] + wrest)))));
            lemma_peel(t@, i as int, lit_attr_open(), tn + (lit_value_key() + (vt + (seq![0x7du8]
                + wrest))));
        }
    }
    let attr_open = bytes_attr_open();
    let value_key = bytes_value_key();
    let j = match expect_lit(t, i, &attr_open) {
        Some(j) => j,
        None => {
            proof {
                if hyp {
                    assert(false);
                }
            }
            return None;
        },
    };
    proof {
        if hyp {
            lemma_peel(t@, j as int, tn, lit_value_key() + (vt + (seq![0x7du8] + wrest)));
            assert(t@[j + tn.len()] == (lit_value_key() + (vt + (seq![0x7du8] + wrest)))[0]);
            assert(t@[j + tn.len()] == 0x22u8);
            assert forall|k: int| j <= k < j + tn.len() implies t@[k] != 0x22u8 by {
                assert(t@[k] == tn[k - j]);
                assert(json_safe_byte(tn[k - j]));
            }
        }
    }
    let q = match scan_for(t, j, 0x22u8) {
        Some(q) => q,
        None => {
            proof {
                if hyp {
                    assert(false);
                }
            }
            return None;
        },
    };
    proof {
        if hyp {
            assert(q == j + tn.len());
        }
    }
    let trait_name = copy_range(t, j, q);
    let k = match expect_lit(t, q, &value_key) {
        Some(k) => k,
        None => {
            proof {
                if hyp {
                    lemma_peel(t@, q as int, lit_value_key(), vt + (seq![0x7du8] + wrest));
                    assert(false);
                }
            }
            return None;
        },
    };
    proof {
        if hyp {
            lemma_peel(t@, q as int, lit_value_key(), vt + (seq![0x7du8] + wrest));
            lemma_peel(t@, k as int, vt, seq![0x7du8] + wrest);
            lemma_value_text_charset(wa.value);
            assert(t@[k + vt.len()] == (seq![0x7du8] + wrest)[0]);
            assert(t@[k + vt.len()] == 0x7du8);
            assert forall|m: int| k <= m < k + vt.len() implies t@[m] != 0x7du8 by {
                assert(t@[m] == vt[m - k]);
                assert(number_byte(vt[m - k]));
            }
        }
    }
    let c = match scan_for(t, k, 0x7du8) {
        Some(c) => c,
        None => {
            proof {
                if hyp {
                    assert(false);
                }
            }
            return None;
        },
    };
    proof {
        if hyp {
            assert(c == k + vt.len());
        }
    }
    let vtxt = copy_range(t, k, c);
    let value = match parse_value(&vtxt) {
        Some(v) => v,
        None => {
            proof {
                if hyp {
                    assert(vtxt@ =~= vt);
                    assert(false);
                }
            }
            return None;
        },
    };
    let n = t.len();
    proof {
        assert(c < n);
        if hyp {
            assert(vtxt@ =~= vt);
            assert(value@ == wa.value);
            assert(trait_name@ =~= tn);
        }
    }
    let result = Attribute { trait_name, value };
    proof {
        if hyp {
            assert(result@ =~= wa);
            assert(spec_attr_text(wa).len() == 15 + tn.len() + 10 + vt.len() + 1);
            assert(lit_attr_open().len() == 15);
            assert(lit_value_key().len() == 10);
        }
    }
    Some((result, c + 1))
}

/// The text from position `i` is a well-formed attribute list followed by
/// its closing bracket and more.
spec fn attrs_lead(t: Seq<u8>, i: int, ms: Seq<AttrModel>, tail: Seq<u8>) -> bool {
    &&& (forall|k: int| 0 <= k < ms.len() ==> #[trigger] attr_wf(ms[k]))
    &&& t.skip(i) == spec_attrs_text(ms) + tail
    &&& tail.len() > 0
    &&& tail[0] == 0x5du8
}

/// Reads the attribute list starting at position `start`; yields it with
/// the position of the closing bracket. Where a well-formed list's text
/// stands at `start`, reading succeeds and recovers it exactly.
#[verifier::rlimit(100)]
fn extract_attrs(t: &Vec<u8>, start: usize) -> (r: Option<(Vec<Attribute>, usize)>)
    requires
        start <= t@.len(),
    ensures
        (match r {
            Some(p) => p.1 <= t@.len(),
            None => true,
        }),
        (exists|ms: Seq<AttrModel>, tail: Seq<u8>| attrs_lead(t@, start as int, ms, tail)) ==> (
        match r {
            Some(p) => exists|ms: Seq<AttrModel>, tail: Seq<u8>|
                attrs_lead(t@, start as int, ms, tail) && p.0@.map_values(|x: Attribute| x@) == ms
                    && t@.skip(p.1 as int) == tail,
            None => false,
        }),
{
    let ghost hyp = exists|ms: Seq<AttrModel>, tail: Seq<u8>| attrs_lead(t@, start as int, ms, tail);
    let ghost (ms, tail): (Seq<AttrModel>, Seq<u8>) = if hyp {
        choose|ms: Seq<AttrModel>, tail: Seq<u8>| attrs_lead(t@, start as int, ms, tail)
    } else {
        arbitrary()
    };
    let mut attrs: Vec<Attribute> = Vec::new();
    let mut i: usize = start;
    proof {
        if hyp {
            assert(t@.skip(start as int).len() > 0);
            if ms.len() == 0 {
                assert(t@.skip(start as int) =~= tail);
                assert(t@[start as int] == tail[0]);
            } else {
                assert(t@.skip(start as int)[0] == (spec_attrs_text(ms) + tail)[0]);
                assert(spec_attrs_text(ms)[0] == spec_attr_text(ms[0])[0]);
                assert(spec_attr_text(ms[0])[0] == lit_attr_open()[0]);
                assert(t@[start as int] == 0x7bu8);
            }
        }
    }
    if i < t.len() && t[i] == 0x5du8 {
        proof {
            if hyp {
                assert(ms.len() == 0);
                assert(attrs@.map_values(|x: Attribute| x@) =~= ms);
            }
        }
        return Some((attrs, i));
    }
    proof {
        if hyp {
            assert(ms.len() > 0);
            assert(ms.skip(0) =~= ms);
            assert(ms.take(0) =~= Seq::<AttrModel>::empty());
            assert(attrs@.map_values(|x: Attribute| x@) =~= ms.take(0));
        }
    }
    let ghost mut n: int = 0;
    let mut done = false;
    while !done
        invariant
            start <= i <= t@.len(),
            hyp == exists|ms0: Seq<AttrModel>, tail0: Seq<u8>| attrs_lead(t@, start as int, ms0, tail0),
            hyp ==> attrs_lead(t@, start as int, ms, tail),
            hyp ==> 0 <= n <= ms.len(),
            hyp && !done ==> n < ms.len() && t@.skip(i as int) == spec_attrs_text(ms.skip(n))
                + tail && attrs@.map_values(|x: Attribute| x@) == ms.take(n),
            hyp && done ==> n == ms.len() && t@.skip(i as int) == tail && attrs@.map_values(
                |x: Attribute| x@,
            ) == ms,
        decreases t@.len() - i + (if done { 0int } else { 1 }),
    {
        proof {
            if hyp {
                let s = ms.skip(n);
                assert(s.len() > 0);
                assert(s[0] == ms[n]);
                assert(s.skip(1) =~= ms.skip(n + 1));
                assert(spec_attrs_text(s) == spec_attr_text(ms[n]) + spec_attrs_rest(
                    ms.skip(n + 1),
                ));
                assert(t@.skip(i as int) =~= spec_attr_text(ms[n]) + (spec_attrs_rest(
                    ms.skip(n + 1),
                ) + tail));
                assert(attr_lead(t@, i as int, ms[n], spec_attrs_rest(ms.skip(n + 1)) + tail));
            }
        }
        match extract_one_attr(t, i) {
            None => {
                proof {
                    if hyp {
                        assert(false);
                    }
                }
                return None;
            },
            Some(pair) => {
                let (a, j) = pair;
                proof {
                    if hyp {
                        let (wa, wrest): (AttrModel, Seq<u8>) = choose|
                            wa: AttrModel,
                            wrest: Seq<u8>,
                        | attr_lead(t@, i as int, wa, wrest) && a@ == wa && j == i
                            + spec_attr_text(wa).len();
                        lemma_attr_split(wa, ms[n], wrest, spec_attrs_rest(ms.skip(n + 1)) + tail);
                        assert(a@ == ms[n]);
                        assert(j == i + spec_attr_text(ms[n]).len());
                    }
                }
                let ghost prev = attrs@;
                attrs.push(a);
                proof {
                    if hyp {
                        assert(attrs@.map_values(|x: Attribute| x@) =~= ms.take(n + 1));
                        lemma_peel(
                            t@,
                            i as int,
                            spec_attr_text(ms[n]),
                            spec_attrs_rest(ms.skip(n + 1)) + tail,
                        );
                    }
                }
                i = j;
                proof {
                    if hyp {
                        if ms.skip(n + 1).len() == 0 {
                            assert(spec_attrs_rest(ms.skip(n + 1)) =~= Seq::<u8>::empty());
                            assert(t@.skip(i as int) =~= tail);
                            assert(t@[i as int] == tail[0]);
                        } else {
                            assert(spec_attrs_rest(ms.skip(n + 1)) == seq![0x2cu8]
                                + spec_attr_text(ms.skip(n + 1)[0]) + spec_attrs_rest(
                                ms.skip(n + 1).skip(1),
                            ));
                            assert(t@.skip(i as int)[0] == (spec_attrs_rest(ms.skip(n + 1))
                                + tail)[0]);
                            assert(t@[i as int] == 0x2cu8);
                        }
                    }
                }
                if i < t.len() && t[i] == 0x2cu8 {
                    proof {
                        if hyp {
                            assert(ms.skip(n + 1).len() > 0);
                            assert(t@.skip(i as int) =~= seq![0x2cu8] + (spec_attrs_text(
                                ms.skip(n + 1),
                            ) + tail));
                            lemma_peel(t@, i as int, seq![0x2cu8], spec_attrs_text(ms.skip(n + 1))
                                + tail);
                            n = n + 1;
                        }
                    }
                    i = i + 1;
                } else {
                    proof {
                        if hyp {
                            assert(ms.skip(n + 1).len() == 0);
                            assert(ms.take(n + 1) =~= ms);
                            n = n + 1;
                        }
                    }
                    done = true;
                }
            },
        }
    }
    proof {
        if hyp {
            assert(attrs@.map_values(|x: Attribute| x@) == ms);
        }
    }
    Some((attrs, i))
}

/// Reads the document's name and description; yields them with the
/// position just past the attribute-list key. Where the text is the
/// canonical serialization of a well-formed document, reading succeeds and
/// recovers both exactly.
#[verifier::rlimit(100)]
fn extract_header(t: &Vec<u8>) -> (r: Option<(Vec<u8>, Vec<u8>, usize)>)
    ensures
        (match r {
            Some(p) => p.2 <= t@.len(),
            None => true,
        }),
        (exists|d: DocModel| doc_wf(d) && spec_doc_text(d) == t@) ==> (match r {
            Some(p) => exists|d: DocModel|
                doc_wf(d) && spec_doc_text(d) == t@ && p.0@ == d.name && p.1@ == d.description
                    && t@.skip(p.2 as int) == spec_attrs_text(d.attributes) + lit_doc_close(),
            None => false,
        }),
{
    let ghost hyp = exists|d: DocModel| doc_wf(d) && spec_doc_text(d) == t@;
    let ghost w: DocModel = if hyp {
        choose|d: DocModel| doc_wf(d) && spec_doc_text(d) == t@
    } else {
        arbitrary()
    };
    let ghost en = spec_escape(w.name);
    let ghost ed = spec_escape(w.description);
    let ghost at = spec_attrs_text(w.attributes);
    proof {
        if hyp {
            assert(t@.skip(0) =~= t@);
            assert(t@.skip(0) =~= lit_obj_open() + (en + (lit_desc_key() + (ed + (lit_attrs_key()
                + (at + lit_doc_close()))))));
            lemma_peel(t@, 0, lit_obj_open(), en + (lit_desc_key() + (ed + (lit_attrs_key() + (at
                + lit_doc_close())))));
        }
    }
    let obj_open = bytes_obj_open();
    let desc_key = bytes_desc_key();
    let attrs_key = bytes_attrs_key();
    let i = match expect_lit(t, 0, &obj_open) {
        Some(i) => i,
        None => {
            proof {
                if hyp {
                    assert(false);
                }
            }
            return None;
        },
    };
    proof {
        if hyp {
            lemma_peel(t@, i as int, en, lit_desc_key() + (ed + (lit_attrs_key() + (at
                + lit_doc_close()))));
            lemma_escape_no_quote(w.name);
            assert(t@[i + en.len()] == (lit_desc_key() + (ed + (lit_attrs_key() + (at
                + lit_doc_close()))))[0]);
            assert(t@[i + en.len()] == 0x22u8);
            assert forall|k: int| i <= k < i + en.len() implies t@[k] != 0x22u8 by {
                assert(t@[k] == en[k - i]);
            }
        }
    }
    let q1 = match scan_for(t, i, 0x22u8) {
        Some(q) => q,
        None => {
            proof {
                if hyp {
                    assert(false);
                }
            }
            return None;
        },
    };
    proof {
        if hyp {
            assert(q1 == i + en.len());
        }
    }
    let raw = copy_range(t, i, q1);
    let name = match unescape_bytes(&raw) {
        Some(nm) => nm,
        None => {
            proof {
                if hyp {
                    assert(raw@ =~= en);
                    assert(spec_escape(w.name) == raw@);
                    assert(false);
                }
            }
            return None;
        },
    };
    proof {
        if hyp {
            assert(raw@ =~= en);
            lemma_escape_inj(name@, w.name);
        }
    }
    let j = match expect_lit(t, q1, &desc_key) {
        Some(j) => j,
        None => {
            proof {
                if hyp {
                    lemma_peel(t@, q1 as int, lit_desc_key(), ed + (lit_attrs_key() + (at
                        + lit_doc_close())));
                    assert(false);
                }
            }
            return None;
        },
    };
    proof {
        if hyp {
            lemma_peel(t@, q1 as int, lit_desc_key(), ed + (lit_attrs_key() + (at
                + lit_doc_close())));
            lemma_peel(t@, j as int, ed, lit_attrs_key() + (at + lit_doc_close()));
            lemma_escape_no_quote(w.description);
            assert(t@[j + ed.len()] == (lit_attrs_key() + (at + lit_doc_close()))[0]);
            assert(t@[j + ed.len()] == 0x22u8);
            assert forall|k: int| j <= k < j + ed.len() implies t@[k] != 0x22u8 by {
                assert(t@[k] == ed[k - j]);
            }
        }
    }
    let q2 = match scan_for(t, j, 0x22u8) {
        Some(q) => q,
        None => {
            proof {
                if hyp {
                    assert(false);
                }
            }
            return None;
        },
    };
    proof {
        if hyp {
            assert(q2 == j + ed.len());
        }
    }
    let raw = copy_range(t, j, q2);
    let description = match unescape_bytes(&raw) {
        Some(ds) => ds,
        None => {
            proof {
                if hyp {
                    assert(raw@ =~= ed);
                    assert(spec_escape(w.description) == raw@);
                    assert(false);
                }
            }
            return None;
        },
    };
    proof {
        if hyp {
            assert(raw@ =~= ed);
            lemma_escape_inj(description@, w.description);
        }
    }
    let k = match expect_lit(t, q2, &attrs_key) {
        Some(k) => k,
        None => {
            proof {
                if hyp {
                    lemma_peel(t@, q2 as int, lit_attrs_key(), at + lit_doc_close());
                    assert(false);
                }
            }
            return None;
        },
    };
    proof {
        if hyp {
            lemma_peel(t@, q2 as int, lit_attrs_key(), at + lit_doc_close());
        }
    }
    Some((name, description, k))
}

/// Reads a candidate document out of the text. Where the text is the
/// canonical serialization of a well-formed document, reading succeeds and
/// the candidate is that document.
#[verifier::rlimit(100)]
fn extract_document(t: &Vec<u8>) -> (r: Option<MetadataDocument>)
    ensures
        (exists|d: DocModel| doc_wf(d) && spec_doc_text(d) == t@) ==> (match r {
            Some(c) => exists|d: DocModel| doc_wf(d) && spec_doc_text(d) == t@ && c@ == d,
            None => false,
        }),
{
    let ghost hyp = exists|d: DocModel| doc_wf(d) && spec_doc_text(d) == t@;
    let (name, description, k) = match extract_header(t) {
        Some(p) => p,
        None => {
            proof {
                if hyp {
                    assert(false);
                }
            }
            return None;
        },
    };
    let ghost w: DocModel = if hyp {
        choose|d: DocModel|
            doc_wf(d) && spec_doc_text(d) == t@ && name@ == d.name && description@ == d.description
                && t@.skip(k as int) == spec_attrs_text(d.attributes) + lit_doc_close()
    } else {
        arbitrary()
    };
    proof {
        if hyp {
            assert(lit_doc_close()[0] == 0x5du8);
            assert(attrs_lead(t@, k as int, w.attributes, lit_doc_close()));
        }
    }
    let (attributes, end) = match extract_attrs(t, k) {
        Some(p) => p,
        None => {
            proof {
                if hyp {
                    assert(false);
                }
            }
            return None;
        },
    };
    proof {
        if hyp {
            let (ms, tail): (Seq<AttrModel>, Seq<u8>) = choose|ms: Seq<AttrModel>, tail: Seq<u8>|
                attrs_lead(t@, k as int, ms, tail) && attributes@.map_values(|x: Attribute| x@)
                    == ms && t@.skip(end as int) == tail;
            lemma_attrs_split(ms, w.attributes, tail, lit_doc_close());
            assert(t@.skip(end as int) == lit_doc_close());
            assert(t@.skip(end as int) =~= lit_doc_close() + Seq::<u8>::empty());
            lemma_peel(t@, end as int, lit_doc_close(), Seq::<u8>::empty());
            assert(t@.skip(end + lit_doc_close().len()).len() == 0);
        }
    }
    let doc_close = bytes_doc_close();
    let close = match expect_lit(t, end, &doc_close) {
        Some(c) => c,
        None => {
            proof {
                if hyp {
                    assert(false);
                }
            }
            return None;
        },
    };
    if close != t.len() {
        proof {
            if hyp {
                assert(false);
            }
        }
        return None;
    }
    let c = MetadataDocument { name, description, attributes };
    proof {
        if hyp {
            assert(c@ =~= w);
        }
    }
    Some(c)
}

/// Checks the well-formedness of a candidate document.
fn check_doc_wf(d: &MetadataDocument) -> (r: bool)
    ensures
        r == doc_wf(d@),
{
    let mut i: usize = 0;
    while i < d.attributes.len()
        invariant
            0 <= i <= d.attributes@.len(),
            forall|j: int| 0 <= j < i ==> crate::metadata::attr_wf(#[trigger] d.attributes@[j]@),
        decreases d.attributes@.len() - i,
    {
        let a = &d.attributes[i];
        if !check_json_safe(&a.trait_name) {
            proof {
                assert(!attr_wf(d@.attributes[i as int]));
            }
            return false;
        }
        match &a.value {
            AttrValue::Uint(_) => {},
            AttrValue::Num(dec) => {
                if !check_decimal_wf(dec) {
                    proof {
                        assert(!attr_wf(d@.attributes[i as int]));
                    }
                    return false;
                }
                if dec.frac_digits.len() == 0 {
                    proof {
                        assert(!attr_wf(d@.attributes[i as int]));
                    }
                    return false;
                }
            },
        }
        i = i + 1;
    }
    proof {
        assert forall|j: int| 0 <= j < d@.attributes.len() implies #[trigger] crate::metadata::attr_wf(
            d@.attributes[j],
        ) by {
            assert(d@.attributes[j] == d.attributes@[j]@);
        }
    }
    true
}

/// Parses canonical metadata JSON back into a document. A parsed document
/// is always well formed and re-serializes to exactly the bytes given, and
/// parsing is owed success on the canonical text of every well-formed
/// document: serialize-then-parse loses nothing.
pub fn parse_document(t: &Vec<u8>) -> (r: Option<MetadataDocument>)
    ensures
        (match r {
            Some(d) => doc_wf(d@) && spec_doc_text(d@) == t@,
            None => true,
        }),
        (exists|d: DocModel| doc_wf(d) && spec_doc_text(d) == t@) ==> r is Some,
{
    let ghost hyp = exists|d: DocModel| doc_wf(d) && spec_doc_text(d) == t@;
    let candidate = match extract_document(t) {
        Some(d) => d,
        None => {
            proof {
                if hyp {
                    assert(false);
                }
            }
            return None;
        },
    };
    if !check_doc_wf(&candidate) {
        proof {
            if hyp {
                let d = choose|d: DocModel|
                    doc_wf(d) && spec_doc_text(d) == t@ && candidate@ == d;
                assert(false);
            }
        }
        return None;
    }
    let ser = serialize_document(&candidate);
    if bytes_eq(&ser, t) {
        Some(candidate)
    } else {
        proof {
            if hyp {
                let d = choose|d: DocModel|
                    doc_wf(d) && spec_doc_text(d) == t@ && candidate@ == d;
                assert(spec_doc_text(candidate@) == t@);
                assert(false);
            }
        }
        None
    }
}

} // verus!
