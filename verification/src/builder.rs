use vstd::prelude::*;

use crate::literals::{
    bytes_desc_middle, bytes_desc_prefix, lit_desc_middle, lit_desc_prefix, lit_tr_bathrooms,
    lit_tr_bedrooms, lit_tr_condition, lit_tr_floors, lit_tr_grade, lit_tr_latitude,
    lit_tr_living_area, lit_tr_longitude, lit_tr_lot_size, lit_tr_month, lit_tr_price,
    lit_tr_sqft_above, lit_tr_sqft_basement, lit_tr_view, lit_tr_waterfront, lit_tr_year,
    lit_tr_year_built, lit_tr_year_renovated, lit_tr_zipcode, bytes_tr_bathrooms,
    bytes_tr_bedrooms, bytes_tr_condition, bytes_tr_floors, bytes_tr_grade, bytes_tr_latitude,
    bytes_tr_living_area, bytes_tr_longitude, bytes_tr_lot_size, bytes_tr_month, bytes_tr_price,
    bytes_tr_sqft_above, bytes_tr_sqft_basement, bytes_tr_view, bytes_tr_waterfront,
    bytes_tr_year, bytes_tr_year_built, bytes_tr_year_renovated, bytes_tr_zipcode,
};
use crate::metadata::{
    attr_wf, clone_bytes, doc_wf, json_safe, spec_doc_text, AttrModel, AttrValue, Attribute,
    DocModel, MetadataDocument, ValueModel,
};
use crate::number::{
    decimal_display, price_wf, push_bytes, spec_decimal_display, spec_u64_text, u64_text, Decimal,
    DecimalModel,
};
use crate::property::{record_wf, PropertyRecord, RecordModel};

verus! {

/// The human-readable description of a minted property:
/// `A <bedrooms> bedroom house priced at $<price>`, with the price in
/// display form (an all-zero fraction dropped).
pub open spec fn spec_description(r: RecordModel, price: DecimalModel) -> Seq<u8> {
    lit_desc_prefix() + spec_u64_text(r.bedrooms as nat) + lit_desc_middle()
        + spec_decimal_display(price)
}

/// The attribute list of a minted property: one attribute per record field,
/// in field order, and the price attribute last.
pub open spec fn spec_attributes(r: RecordModel, price: DecimalModel) -> Seq<AttrModel> {
    seq![
        AttrModel { trait_name: lit_tr_bedrooms(), value: ValueModel::Uint(r.bedrooms) },
        AttrModel { trait_name: lit_tr_bathrooms(), value: ValueModel::Num(r.bathrooms) },
        AttrModel { trait_name: lit_tr_living_area(), value: ValueModel::Uint(r.sqft_living) },
        AttrModel { trait_name: lit_tr_lot_size(), value: ValueModel::Uint(r.sqft_lot) },
        AttrModel { trait_name: lit_tr_floors(), value: ValueModel::Uint(r.floors) },
        AttrModel { trait_name: lit_tr_waterfront(), value: ValueModel::Uint(r.waterfront) },
        AttrModel { trait_name: lit_tr_view(), value: ValueModel::Uint(r.view) },
        AttrModel { trait_name: lit_tr_condition(), value: ValueModel::Uint(r.condition) },
        AttrModel { trait_name: lit_tr_grade(), value: ValueModel::Uint(r.grade) },
        AttrModel { trait_name: lit_tr_sqft_above(), value: ValueModel::Uint(r.sqft_above) },
        AttrModel { trait_name: lit_tr_sqft_basement(), value: ValueModel::Uint(r.sqft_basement) },
        AttrModel { trait_name: lit_tr_year_built(), value: ValueModel::Uint(r.yr_built) },
        AttrModel { trait_name: lit_tr_year_renovated(), value: ValueModel::Uint(r.yr_renovated) },
        AttrModel { trait_name: lit_tr_zipcode(), value: ValueModel::Uint(r.zipcode) },
        AttrModel { trait_name: lit_tr_latitude(), value: ValueModel::Num(r.lat) },
        AttrModel { trait_name: lit_tr_longitude(), value: ValueModel::Num(r.long) },
        AttrModel { trait_name: lit_tr_living_area(), value: ValueModel::Uint(r.sqft_living15) },
        AttrModel { trait_name: lit_tr_lot_size(), value: ValueModel::Uint(r.sqft_lot15) },
        AttrModel { trait_name: lit_tr_month(), value: ValueModel::Uint(r.month) },
        AttrModel { trait_name: lit_tr_year(), value: ValueModel::Uint(r.year) },
        AttrModel { trait_name: lit_tr_price(), value: ValueModel::Num(price) },
    ]
}

/// The metadata document built for a record and a price estimate. The
/// document is a function of the record and the price alone.
pub open spec fn spec_build(r: RecordModel, price: DecimalModel) -> DocModel {
    DocModel {
        name: r.name,
        description: spec_description(r, price),
        attributes: spec_attributes(r, price),
    }
}

/// A document built from a valid record and a valid price is well formed.
pub proof fn lemma_build_wf(r: RecordModel, price: DecimalModel)
    requires
        record_wf(r),
        price_wf(price),
    ensures
        doc_wf(spec_build(r, price)),
{
    let d = spec_build(r, price);
    assert(json_safe(lit_tr_bedrooms()));
    assert(json_safe(lit_tr_bathrooms()));
    assert(json_safe(lit_tr_living_area()));
    assert(json_safe(lit_tr_lot_size()));
    assert(json_safe(lit_tr_floors()));
    assert(json_safe(lit_tr_waterfront()));
    assert(json_safe(lit_tr_view()));
    assert(json_safe(lit_tr_condition()));
    assert(json_safe(lit_tr_grade()));
    assert(json_safe(lit_tr_sqft_above()));
    assert(json_safe(lit_tr_sqft_basement()));
    assert(json_safe(lit_tr_year_built()));
    assert(json_safe(lit_tr_year_renovated()));
    assert(json_safe(lit_tr_zipcode()));
    assert(json_safe(lit_tr_latitude()));
    assert(json_safe(lit_tr_longitude()));
    assert(json_safe(lit_tr_month()));
    assert(json_safe(lit_tr_year()));
    assert(json_safe(lit_tr_price()));
    assert forall|i: int| 0 <= i < d.attributes.len() implies #[trigger] attr_wf(
        d.attributes[i],
    ) by {
        assert(d.attributes == spec_attributes(r, price));
    }
}

/// Builds the metadata document for a record and a price estimate: a pure,
/// deterministic transform of its two arguments.
pub fn build_metadata(r: &PropertyRecord, price: &Decimal) -> (doc: MetadataDocument)
    requires
        record_wf(r@),
        price_wf(price@),
    ensures
        doc@ == spec_build(r@, price@),
        doc_wf(doc@),
{
    let mut description: Vec<u8> = Vec::new();
    let lit = bytes_desc_prefix();
    push_bytes(&mut description, &lit);
    let t = u64_text(r.bedrooms);
    push_bytes(&mut description, &t);
    let lit = bytes_desc_middle();
    push_bytes(&mut description, &lit);
    let t = decimal_display(price);
    push_bytes(&mut description, &t);
    proof {
        assert(description@ =~= spec_description(r@, price@));
    }

    let bathrooms = clone_decimal(&r.bathrooms);
    let lat = clone_decimal(&r.lat);
    let long = clone_decimal(&r.long);
    let price_val = clone_decimal(price);
    let attributes: Vec<Attribute> = vec![
        Attribute { trait_name: bytes_tr_bedrooms(), value: AttrValue::Uint(r.bedrooms) },
        Attribute { trait_name: bytes_tr_bathrooms(), value: AttrValue::Num(bathrooms) },
        Attribute { trait_name: bytes_tr_living_area(), value: AttrValue::Uint(r.sqft_living) },
        Attribute { trait_name: bytes_tr_lot_size(), value: AttrValue::Uint(r.sqft_lot) },
        Attribute { trait_name: bytes_tr_floors(), value: AttrValue::Uint(r.floors) },
        Attribute { trait_name: bytes_tr_waterfront(), value: AttrValue::Uint(r.waterfront) },
        Attribute { trait_name: bytes_tr_view(), value: AttrValue::Uint(r.view) },
        Attribute { trait_name: bytes_tr_condition(), value: AttrValue::Uint(r.condition) },
        Attribute { trait_name: bytes_tr_grade(), value: AttrValue::Uint(r.grade) },
        Attribute { trait_name: bytes_tr_sqft_above(), value: AttrValue::Uint(r.sqft_above) },
        Attribute { trait_name: bytes_tr_sqft_basement(), value: AttrValue::Uint(r.sqft_basement) },
        Attribute { trait_name: bytes_tr_year_built(), value: AttrValue::Uint(r.yr_built) },
        Attribute { trait_name: bytes_tr_year_renovated(), value: AttrValue::Uint(r.yr_renovated) },
        Attribute { trait_name: bytes_tr_zipcode(), value: AttrValue::Uint(r.zipcode) },
        Attribute { trait_name: bytes_tr_latitude(), value: AttrValue::Num(lat) },
        Attribute { trait_name: bytes_tr_longitude(), value: AttrValue::Num(long) },
        Attribute { trait_name: bytes_tr_living_area(), value: AttrValue::Uint(r.sqft_living15) },
        Attribute { trait_name: bytes_tr_lot_size(), value: AttrValue::Uint(r.sqft_lot15) },
        Attribute { trait_name: bytes_tr_month(), value: AttrValue::Uint(r.month) },
        Attribute { trait_name: bytes_tr_year(), value: AttrValue::Uint(r.year) },
        Attribute { trait_name: bytes_tr_price(), value: AttrValue::Num(price_val) },
    ];
    let doc = MetadataDocument { name: clone_bytes(&r.name), description, attributes };
    proof {
        assert(doc@.attributes =~= spec_attributes(r@, price@));
        lemma_build_wf(r@, price@);
    }
    doc
}

/// Copies a decimal value.
pub fn clone_decimal(d: &Decimal) -> (r: Decimal)
    ensures
        r@ == d@,
{
    Decimal {
        negative: d.negative,
        int_digits: clone_bytes(&d.int_digits),
        frac_digits: clone_bytes(&d.frac_digits),
    }
}

/// LAW: the Metadata Builder is deterministic. Equal record and price
/// inputs yield one and the same document, and so byte-identical
/// serializations.
pub proof fn lemma_builder_deterministic(
    r1: RecordModel,
    price1: DecimalModel,
    r2: RecordModel,
    price2: DecimalModel,
)
    requires
        r1 == r2,
        price1 == price2,
    ensures
        spec_build(r1, price1) == spec_build(r2, price2),
        spec_doc_text(spec_build(r1, price1)) == spec_doc_text(spec_build(r2, price2)),
{
}

/// LAW: the price attribute is always the last entry of the built document,
/// whatever the input values.
pub proof fn lemma_price_attribute_last(r: RecordModel, price: DecimalModel)
    ensures
        spec_build(r, price).attributes.len() == 21,
        spec_build(r, price).attributes.last() == (AttrModel {
            trait_name: lit_tr_price(),
            value: ValueModel::Num(price),
        }),
{
    assert(spec_attributes(r, price)[20] == AttrModel {
        trait_name: lit_tr_price(),
        value: ValueModel::Num(price),
    });
}

} // verus!
