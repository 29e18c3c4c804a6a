use mint_service::builder::build_metadata;
use mint_service::metadata::{serialize_document, AttrValue, MetadataDocument};
use mint_service::number::{parse_decimal, Decimal};
use mint_service::parser::parse_document;
use mint_service::property::PropertyRecord;

fn dec(negative: bool, int_digits: &str, frac_digits: &str) -> Decimal {
    Decimal {
        negative,
        int_digits: int_digits.as_bytes().to_vec(),
        frac_digits: frac_digits.as_bytes().to_vec(),
    }
}

fn test_record() -> PropertyRecord {
    PropertyRecord {
        name: b"Test House".to_vec(),
        bedrooms: 3,
        bathrooms: dec(false, "2", "0"),
        sqft_living: 1500,
        sqft_lot: 5000,
        floors: 1,
        waterfront: 0,
        view: 0,
        condition: 3,
        grade: 7,
        sqft_above: 1500,
        sqft_basement: 0,
        yr_built: 1990,
        yr_renovated: 0,
        zipcode: 98101,
        lat: dec(false, "47", "5"),
        long: dec(true, "122", "2"),
        sqft_living15: 1500,
        sqft_lot15: 5000,
        month: 5,
        year: 2014,
    }
}

fn contains(haystack: &[u8], needle: &[u8]) -> bool {
    haystack.windows(needle.len()).any(|w| w == needle)
}

#[test]
fn builder_is_deterministic() {
    let r = test_record();
    let p = dec(false, "450000", "0");
    let d1 = build_metadata(&r, &p);
    let d2 = build_metadata(&r, &p);
    assert_eq!(serialize_document(&d1), serialize_document(&d2));
}

#[test]
fn price_attribute_is_last() {
    let r = test_record();
    let p = dec(false, "450000", "0");
    let doc = build_metadata(&r, &p);
    assert_eq!(doc.attributes.len(), 21);
    let last = doc.attributes.last().unwrap();
    assert_eq!(last.trait_name, b"Price".to_vec());
    match &last.value {
        AttrValue::Num(d) => {
            assert!(!d.negative);
            assert_eq!(d.int_digits, b"450000".to_vec());
            assert_eq!(d.frac_digits, b"0".to_vec());
        },
        AttrValue::Uint(_) => panic!("price must be a decimal value"),
    }
}

#[test]
fn description_and_final_trait_for_test_house() {
    let r = test_record();
    let p = dec(false, "450000", "0");
    let doc = build_metadata(&r, &p);
    assert!(contains(&doc.description, b"3 bedroom house priced at $450000"));
    assert_eq!(doc.description, b"A 3 bedroom house priced at $450000".to_vec());
    let text = serialize_document(&doc);
    assert!(contains(&text, b"{\"trait_type\":\"Price\",\"value\":450000.0}"));
    assert!(contains(&text, b"\"name\":\"Test House\""));
}

#[test]
fn fractional_price_keeps_its_fraction_in_description() {
    let r = test_record();
    let p = dec(false, "450000", "5");
    let doc = build_metadata(&r, &p);
    assert_eq!(doc.description, b"A 3 bedroom house priced at $450000.5".to_vec());
}

#[test]
fn serialized_document_is_valid_json_with_expected_shape() {
    let r = test_record();
    let p = dec(false, "450000", "0");
    let doc = build_metadata(&r, &p);
    let text = serialize_document(&doc);
    let v: serde_json::Value = serde_json::from_slice(&text).expect("canonical text must parse");
    assert_eq!(v.get("name").unwrap().as_str().unwrap(), "Test House");
    let attrs = v.get("attributes").unwrap().as_array().unwrap();
    assert_eq!(attrs.len(), 21);
    assert_eq!(attrs[20].get("trait_type").unwrap().as_str().unwrap(), "Price");
    assert_eq!(attrs[20].get("value").unwrap().as_f64().unwrap(), 450000.0);
    assert_eq!(attrs[0].get("trait_type").unwrap().as_str().unwrap(), "Bedrooms");
    assert_eq!(attrs[0].get("value").unwrap().as_u64().unwrap(), 3);
}

fn docs_equal(a: &MetadataDocument, b: &MetadataDocument) -> bool {
    if a.name != b.name || a.description != b.description {
        return false;
    }
    if a.attributes.len() != b.attributes.len() {
        return false;
    }
    for (x, y) in a.attributes.iter().zip(b.attributes.iter()) {
        if x.trait_name != y.trait_name {
            return false;
        }
        let same = match (&x.value, &y.value) {
            (AttrValue::Uint(m), AttrValue::Uint(n)) => m == n,
            (AttrValue::Num(c), AttrValue::Num(d)) => {
                c.negative == d.negative && c.int_digits == d.int_digits && c.frac_digits
                    == d.frac_digits
            },
            _ => false,
        };
        if !same {
            return false;
        }
    }
    true
}

#[test]
fn serialize_then_parse_round_trips() {
    let r = test_record();
    let p = dec(false, "450000", "0");
    let doc = build_metadata(&r, &p);
    let text = serialize_document(&doc);
    let parsed = parse_document(&text).expect("canonical text must parse back");
    assert!(docs_equal(&doc, &parsed));
    assert_eq!(serialize_document(&parsed), text);
}

#[test]
fn names_with_quotes_are_escaped_and_round_trip() {
    let mut r = test_record();
    r.name = "Caf\u{e9} \"B\" \\ house".as_bytes().to_vec();
    let p = dec(false, "450000", "0");
    let doc = build_metadata(&r, &p);
    let text = serialize_document(&doc);
    // the canonical text is valid JSON and recovers the exact name
    let v: serde_json::Value = serde_json::from_slice(&text).expect("escaped text must parse");
    assert_eq!(v.get("name").unwrap().as_str().unwrap(), "Caf\u{e9} \"B\" \\ house");
    // and the library's own parser recovers the document
    let parsed = parse_document(&text).expect("canonical text must parse back");
    assert_eq!(parsed.name, r.name);
    assert_eq!(serialize_document(&parsed), text);
}

#[test]
fn parse_rejects_non_canonical_text() {
    assert!(parse_document(&b"not a document".to_vec()).is_none());
    assert!(parse_document(&b"{\"name\":\"x\"}".to_vec()).is_none());
    // trailing bytes after a well-formed document are refused
    let r = test_record();
    let p = dec(false, "1", "0");
    let mut text = serialize_document(&build_metadata(&r, &p));
    text.push(b' ');
    assert!(parse_document(&text).is_none());
}

#[test]
fn parse_decimal_accepts_the_number_grammar() {
    let d = parse_decimal(&b"450000".to_vec()).unwrap();
    assert!(!d.negative);
    assert_eq!(d.int_digits, b"450000".to_vec());
    assert!(d.frac_digits.is_empty());
    let d = parse_decimal(&b"-122.25".to_vec()).unwrap();
    assert!(d.negative);
    assert_eq!(d.int_digits, b"122".to_vec());
    assert_eq!(d.frac_digits, b"25".to_vec());
    let d = parse_decimal(&b"0.5".to_vec()).unwrap();
    assert_eq!(d.int_digits, b"0".to_vec());
    assert_eq!(d.frac_digits, b"5".to_vec());
}

#[test]
fn parse_decimal_rejects_everything_else() {
    assert!(parse_decimal(&b"".to_vec()).is_none());
    assert!(parse_decimal(&b"abc".to_vec()).is_none());
    assert!(parse_decimal(&b"05".to_vec()).is_none());
    assert!(parse_decimal(&b"1.".to_vec()).is_none());
    assert!(parse_decimal(&b".5".to_vec()).is_none());
    assert!(parse_decimal(&b"1e5".to_vec()).is_none());
    assert!(parse_decimal(&b"NaN".to_vec()).is_none());
    assert!(parse_decimal(&b"inf".to_vec()).is_none());
    assert!(parse_decimal(&b"1.2.3".to_vec()).is_none());
    assert!(parse_decimal(&b"--1".to_vec()).is_none());
}
