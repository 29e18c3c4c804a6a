use vstd::prelude::*;

use crate::literals::{
    bytes_attr_open, bytes_attrs_key, bytes_desc_key, bytes_doc_close, bytes_obj_open,
    bytes_value_key, lit_attr_open, lit_attrs_key, lit_desc_key, lit_doc_close, lit_obj_open,
    lit_value_key,
};
use crate::number::{
    copy_range, decimal_text, float_wf, is_digit, push_bytes, spec_decimal_text, spec_u64_text,
    u64_text, Decimal, DecimalModel,
};

verus! {

/// A byte that may stand inside a JSON string without escaping: printable
/// ASCII, excluding the quote and the backslash.
pub open spec fn json_safe_byte(b: u8) -> bool {
    &&& 0x20u8 <= b <= 0x7eu8
    &&& b != 0x22u8
    &&& b != 0x5cu8
}

/// Every byte of the sequence may stand inside a JSON string unescaped.
pub open spec fn json_safe(s: Seq<u8>) -> bool {
    forall|i: int| 0 <= i < s.len() ==> #[trigger] json_safe_byte(s[i])
}

/// A byte that may stand inside the text of a JSON number.
pub open spec fn number_byte(b: u8) -> bool {
    ||| is_digit(b)
    ||| b == 0x2du8
    ||| b == 0x2eu8
}

/// Mathematical model of one attribute value: a whole-number count or a
/// decimal measurement.
pub ghost enum ValueModel {
    Uint(u64),
    Num(DecimalModel),
}

/// One attribute value of the metadata document.
pub enum AttrValue {
    Uint(u64),
    Num(Decimal),
}

impl View for AttrValue {
    type V = ValueModel;

    open spec fn view(&self) -> ValueModel {
        match self {
            AttrValue::Uint(n) => ValueModel::Uint(*n),
            AttrValue::Num(d) => ValueModel::Num(d@),
        }
    }
}

/// Mathematical model of one (trait name, value) pair.
#[verifier::ext_equal]
pub ghost struct AttrModel {
    pub trait_name: Seq<u8>,
    pub value: ValueModel,
}

/// One (trait name, value) pair of the metadata document.
pub struct Attribute {
    pub trait_name: Vec<u8>,
    pub value: AttrValue,
}

impl View for Attribute {
    type V = AttrModel;

    open spec fn view(&self) -> AttrModel {
        AttrModel { trait_name: self.trait_name@, value: self.value@ }
    }
}

/// Mathematical model of a metadata document.
#[verifier::ext_equal]
pub ghost struct DocModel {
    pub name: Seq<u8>,
    pub description: Seq<u8>,
    pub attributes: Seq<AttrModel>,
}

/// The metadata document minted with a token: a name, a human-readable
/// description, and an ordered list of typed attributes.
pub struct MetadataDocument {
    pub name: Vec<u8>,
    pub description: Vec<u8>,
    pub attributes: Vec<Attribute>,
}

impl View for MetadataDocument {
    type V = DocModel;

    open spec fn view(&self) -> DocModel {
        DocModel {
            name: self.name@,
            description: self.description@,
            attributes: self.attributes@.map_values(|a: Attribute| a@),
        }
    }
}

/// A well-formed attribute value: a count is always well formed, a decimal
/// measurement is kept in canonical fractional form.
pub open spec fn value_wf(v: ValueModel) -> bool {
    match v {
        ValueModel::Uint(_) => true,
        ValueModel::Num(d) => float_wf(d),
    }
}

/// A well-formed attribute: an unescaped trait name and a well-formed value.
pub open spec fn attr_wf(a: AttrModel) -> bool {
    &&& json_safe(a.trait_name)
    &&& value_wf(a.value)
}

/// A well-formed document: well-formed attributes throughout. The name and
/// the description may hold any bytes; serialization escapes them.
pub open spec fn doc_wf(d: DocModel) -> bool {
    forall|i: int| 0 <= i < d.attributes.len() ==> #[trigger] attr_wf(d.attributes[i])
}

/// A byte that stands for itself inside the canonical JSON string form:
/// everything above the control range except the quote and the backslash.
/// Bytes above ASCII pass through raw, as UTF-8 sequences do in JSON.
pub open spec fn plain_string_byte(b: u8) -> bool {
    &&& b >= 0x20u8
    &&& b != 0x22u8
    &&& b != 0x5cu8
}

/// The lowercase hexadecimal digit of a value below sixteen.
pub open spec fn hex_digit(n: u8) -> u8 {
    if n < 10 {
        (0x30 + n) as u8
    } else {
        (0x57 + n) as u8
    }
}

/// The canonical escape of one byte: itself when plain, the six-byte form
/// `\u00xx` for the quote, the backslash and the control range.
pub open spec fn spec_escape_byte(b: u8) -> Seq<u8> {
    if plain_string_byte(b) {
        seq![b]
    } else {
        seq![0x5cu8, 0x75u8, 0x30u8, 0x30u8, hex_digit(b / 16), hex_digit(b % 16)]
    }
}

/// The canonical escape of a byte string, byte for byte.
pub open spec fn spec_escape(s: Seq<u8>) -> Seq<u8>
    decreases s.len(),
{
    if s.len() == 0 {
        Seq::<u8>::empty()
    } else {
        spec_escape_byte(s[0]) + spec_escape(s.skip(1))
    }
}

/// Appending one byte to the source appends its escape to the text.
pub proof fn lemma_escape_snoc(s: Seq<u8>, b: u8)
    ensures
        spec_escape(s.push(b)) == spec_escape(s) + spec_escape_byte(b),
    decreases s.len(),
{
    if s.len() == 0 {
        assert(s.push(b).skip(1) =~= Seq::<u8>::empty());
        assert(s.push(b)[0] == b);
        assert(spec_escape(s.push(b)) == spec_escape_byte(b) + spec_escape(s.push(b).skip(1)));
        assert(spec_escape(s.push(b)) =~= spec_escape(s) + spec_escape_byte(b));
    } else {
        assert(s.push(b).skip(1) =~= s.skip(1).push(b));
        assert(s.push(b)[0] == s[0]);
        lemma_escape_snoc(s.skip(1), b);
        assert(spec_escape(s.push(b)) == spec_escape_byte(s[0]) + spec_escape(s.skip(1).push(b)));
        assert(spec_escape(s.push(b)) =~= spec_escape(s) + spec_escape_byte(b));
    }
}

/// Escapes a byte string into its canonical JSON string form.
pub fn escape_bytes(v: &Vec<u8>) -> (r: Vec<u8>)
    ensures
        r@ == spec_escape(v@),
{
    let mut out: Vec<u8> = Vec::new();
    let mut i: usize = 0;
    while i < v.len()
        invariant
            0 <= i <= v@.len(),
            out@ == spec_escape(v@.take(i as int)),
        decreases v@.len() - i,
    {
        let b = v[i];
        if b >= 0x20u8 && b != 0x22u8 && b != 0x5cu8 {
            out.push(b);
        } else {
            out.push(0x5cu8);
            out.push(0x75u8);
            out.push(0x30u8);
            out.push(0x30u8);
            let hi = b / 16;
            let lo = b % 16;
            if hi < 10 {
                out.push(0x30u8 + hi);
            } else {
                out.push(0x57u8 + hi);
            }
            if lo < 10 {
                out.push(0x30u8 + lo);
            } else {
                out.push(0x57u8 + lo);
            }
        }
        proof {
            lemma_escape_snoc(v@.take(i as int), v@[i as int]);
            assert(v@.take(i as int).push(v@[i as int]) =~= v@.take(i as int + 1));
            assert(out@ =~= spec_escape(v@.take(i as int + 1)));
        }
        i = i + 1;
    }
    proof {
        assert(v@.take(v@.len() as int) =~= v@);
    }
    out
}

/// The JSON text of one attribute value.
pub open spec fn spec_value_text(v: ValueModel) -> Seq<u8> {
    match v {
        ValueModel::Uint(n) => spec_u64_text(n as nat),
        ValueModel::Num(d) => spec_decimal_text(d),
    }
}

/// The JSON text of one attribute: `{"trait_type":"<name>","value":<value>}`.
pub open spec fn spec_attr_text(a: AttrModel) -> Seq<u8> {
    lit_attr_open() + a.trait_name + lit_value_key() + spec_value_text(a.value) + seq![0x7du8]
}

/// The JSON text of all attributes after the first, each preceded by a comma.
pub open spec fn spec_attrs_rest(s: Seq<AttrModel>) -> Seq<u8>
    decreases s.len(),
{
    if s.len() == 0 {
        Seq::<u8>::empty()
    } else {
        seq![0x2cu8] + spec_attr_text(s[0]) + spec_attrs_rest(s.skip(1))
    }
}

/// The JSON text of a comma-separated attribute list.
pub open spec fn spec_attrs_text(s: Seq<AttrModel>) -> Seq<u8> {
    if s.len() == 0 {
        Seq::<u8>::empty()
    } else {
        spec_attr_text(s[0]) + spec_attrs_rest(s.skip(1))
    }
}

/// The canonical JSON text of a whole metadata document. The name and the
/// description are arbitrary byte strings and appear in escaped form; the
/// trait names are the library's own unescaped constants.
pub open spec fn spec_doc_text(d: DocModel) -> Seq<u8> {
    lit_obj_open() + spec_escape(d.name) + lit_desc_key() + spec_escape(d.description)
        + lit_attrs_key() + spec_attrs_text(d.attributes) + lit_doc_close()
}

/// Appending one attribute to the list appends a comma and its text.
pub proof fn lemma_attrs_rest_snoc(s: Seq<AttrModel>, a: AttrModel)
    ensures
        spec_attrs_rest(s.push(a)) == spec_attrs_rest(s) + seq![0x2cu8] + spec_attr_text(a),
    decreases s.len(),
{
    if s.len() == 0 {
        assert(s.push(a).skip(1) =~= Seq::<AttrModel>::empty());
        assert(s.push(a)[0] == a);
        assert(spec_attrs_rest(s.push(a)) == seq![0x2cu8] + spec_attr_text(a)
            + spec_attrs_rest(s.push(a).skip(1)));
        assert(spec_attrs_rest(Seq::<AttrModel>::empty()) == Seq::<u8>::empty());
        assert(spec_attrs_rest(s.push(a)) =~= spec_attrs_rest(s) + seq![0x2cu8] + spec_attr_text(a));
    } else {
        assert(s.push(a).skip(1) =~= s.skip(1).push(a));
        assert(s.push(a)[0] == s[0]);
        lemma_attrs_rest_snoc(s.skip(1), a);
        assert(spec_attrs_rest(s.push(a)) == seq![0x2cu8] + spec_attr_text(s[0])
            + spec_attrs_rest(s.skip(1).push(a)));
        assert(spec_attrs_rest(s.push(a)) =~= spec_attrs_rest(s) + seq![0x2cu8] + spec_attr_text(a));
    }
}

/// Appending one attribute to a non-empty list appends a comma and its text;
/// to an empty list, just its text.
pub proof fn lemma_attrs_text_snoc(s: Seq<AttrModel>, a: AttrModel)
    ensures
        s.len() == 0 ==> spec_attrs_text(s.push(a)) == spec_attr_text(a),
        s.len() > 0 ==> spec_attrs_text(s.push(a)) == spec_attrs_text(s) + seq![0x2cu8]
            + spec_attr_text(a),
{
    if s.len() == 0 {
        assert(s.push(a).skip(1) =~= Seq::<AttrModel>::empty());
        assert(spec_attrs_text(s.push(a)) =~= spec_attr_text(a));
    } else {
        assert(s.push(a).skip(1) =~= s.skip(1).push(a));
        lemma_attrs_rest_snoc(s.skip(1), a);
        assert(spec_attrs_text(s.push(a)) =~= spec_attrs_text(s) + seq![0x2cu8]
            + spec_attr_text(a));
    }
}

/// Checks that every byte of `v` may stand inside a JSON string unescaped.
pub fn check_json_safe(v: &Vec<u8>) -> (r: bool)
    ensures
        r == json_safe(v@),
{
    let mut i: usize = 0;
    while i < v.len()
        invariant
            0 <= i <= v@.len(),
            forall|j: int| 0 <= j < i ==> #[trigger] json_safe_byte(v@[j]),
        decreases v@.len() - i,
    {
        let b = v[i];
        let ok = 0x20u8 <= b && b <= 0x7eu8 && b != 0x22u8 && b != 0x5cu8;
        if !ok {
            proof {
                assert(!json_safe_byte(v@[i as int]));
            }
            return false;
        }
        i = i + 1;
    }
    true
}

/// Copies a byte string.
pub fn clone_bytes(v: &Vec<u8>) -> (r: Vec<u8>)
    ensures
        r@ == v@,
{
    let r = copy_range(v, 0, v.len());
    proof {
        assert(v@.subrange(0, v@.len() as int) =~= v@);
    }
    r
}

/// Serializes one attribute onto the end of `buf`.
fn serialize_attr(buf: &mut Vec<u8>, a: &Attribute)
    ensures
        final(buf)@ == old(buf)@ + spec_attr_text(a@),
{
    let lit = bytes_attr_open();
    push_bytes(buf, &lit);
    push_bytes(buf, &a.trait_name);
    let lit = bytes_value_key();
    push_bytes(buf, &lit);
    match &a.value {
        AttrValue::Uint(n) => {
            let t = u64_text(*n);
            push_bytes(buf, &t);
        },
        AttrValue::Num(d) => {
            let t = decimal_text(d);
            push_bytes(buf, &t);
        },
    }
    buf.push(0x7du8);
    proof {
        assert(buf@ =~= old(buf)@ + spec_attr_text(a@));
    }
}

/// Serializes a metadata document to its canonical JSON text. The attribute
/// order of the document is kept exactly; two structurally equal documents
/// serialize to byte-identical text.
pub fn serialize_document(doc: &MetadataDocument) -> (r: Vec<u8>)
    ensures
        r@ == spec_doc_text(doc@),
{
    let ghost models = doc.attributes@.map_values(|a: Attribute| a@);
    let mut buf: Vec<u8> = Vec::new();
    let lit = bytes_obj_open();
    push_bytes(&mut buf, &lit);
    let escaped = escape_bytes(&doc.name);
    push_bytes(&mut buf, &escaped);
    let lit = bytes_desc_key();
    push_bytes(&mut buf, &lit);
    let escaped = escape_bytes(&doc.description);
    push_bytes(&mut buf, &escaped);
    let lit = bytes_attrs_key();
    push_bytes(&mut buf, &lit);
    let ghost head = lit_obj_open() + spec_escape(doc@.name) + lit_desc_key()
        + spec_escape(doc@.description) + lit_attrs_key();
    proof {
        assert(buf@ =~= head);
    }
    let mut i: usize = 0;
    while i < doc.attributes.len()
        invariant
            0 <= i <= doc.attributes@.len(),
            models == doc.attributes@.map_values(|a: Attribute| a@),
            models.len() == doc.attributes@.len(),
            buf@ == head + spec_attrs_text(models.take(i as int)),
        decreases doc.attributes@.len() - i,
    {
        if i == 0 {
            serialize_attr(&mut buf, &doc.attributes[i]);
            proof {
                lemma_attrs_text_snoc(models.take(0), models[0]);
                assert(models.take(0).push(models[0]) =~= models.take(1));
                assert(buf@ =~= head + spec_attrs_text(models.take(1)));
            }
        } else {
            buf.push(0x2cu8);
            serialize_attr(&mut buf, &doc.attributes[i]);
            proof {
                lemma_attrs_text_snoc(models.take(i as int), models[i as int]);
                assert(models.take(i as int).push(models[i as int]) =~= models.take(i as int + 1));
                assert(buf@ =~= head + spec_attrs_text(models.take(i as int + 1)));
            }
        }
        i = i + 1;
    }
    let lit = bytes_doc_close();
    push_bytes(&mut buf, &lit);
    proof {
        assert(models.take(models.len() as int) =~= models);
        assert(buf@ =~= spec_doc_text(doc@));
    }
    buf
}

} // verus!
