use vstd::prelude::*;

verus! {

/// The byte string `{"name":"`.
pub open spec fn lit_obj_open() -> Seq<u8> {
    seq![123u8, 34u8, 110u8, 97u8, 109u8, 101u8, 34u8, 58u8, 34u8]
}

/// Builds the byte string `{"name":"`.
pub fn bytes_obj_open() -> (r: Vec<u8>)
    ensures
        r@ == lit_obj_open(),
{
    let r: Vec<u8> = vec![123u8, 34u8, 110u8, 97u8, 109u8, 101u8, 34u8, 58u8, 34u8];
    proof {
        assert(r@ =~= lit_obj_open());
    }
    r
}

/// The byte string `","description":"`.
pub open spec fn lit_desc_key() -> Seq<u8> {
    seq![34u8, 44u8, 34u8, 100u8, 101u8, 115u8, 99u8, 114u8, 105u8, 112u8, 116u8, 105u8, 111u8, 110u8, 34u8, 58u8, 34u8]
}

/// Builds the byte string `","description":"`.
pub fn bytes_desc_key() -> (r: Vec<u8>)
    ensures
        r@ == lit_desc_key(),
{
    let r: Vec<u8> = vec![34u8, 44u8, 34u8, 100u8, 101u8, 115u8, 99u8, 114u8, 105u8, 112u8, 116u8, 105u8, 111u8, 110u8, 34u8, 58u8, 34u8];
    proof {
        assert(r@ =~= lit_desc_key());
    }
    r
}

/// The byte string `","attributes":[`.
pub open spec fn lit_attrs_key() -> Seq<u8> {
    seq![34u8, 44u8, 34u8, 97u8, 116u8, 116u8, 114u8, 105u8, 98u8, 117u8, 116u8, 101u8, 115u8, 34u8, 58u8, 91u8]
}

/// Builds the byte string `","attributes":[`.
pub fn bytes_attrs_key() -> (r: Vec<u8>)
    ensures
        r@ == lit_attrs_key(),
{
    let r: Vec<u8> = vec![34u8, 44u8, 34u8, 97u8, 116u8, 116u8, 114u8, 105u8, 98u8, 117u8, 116u8, 101u8, 115u8, 34u8, 58u8, 91u8];
    proof {
        assert(r@ =~= lit_attrs_key());
    }
    r
}

/// The byte string `]}`.
pub open spec fn lit_doc_close() -> Seq<u8> {
    seq![93u8, 125u8]
}

/// Builds the byte string `]}`.
pub fn bytes_doc_close() -> (r: Vec<u8>)
    ensures
        r@ == lit_doc_close(),
{
    let r: Vec<u8> = vec![93u8, 125u8];
    proof {
        assert(r@ =~= lit_doc_close());
    }
    r
}

/// The byte string `{"trait_type":"`.
pub open spec fn lit_attr_open() -> Seq<u8> {
    seq![123u8, 34u8, 116u8, 114u8, 97u8, 105u8, 116u8, 95u8, 116u8, 121u8, 112u8, 101u8, 34u8, 58u8, 34u8]
}

/// Builds the byte string `{"trait_type":"`.
pub fn bytes_attr_open() -> (r: Vec<u8>)
    ensures
        r@ == lit_attr_open(),
{
    let r: Vec<u8> = vec![123u8, 34u8, 116u8, 114u8, 97u8, 105u8, 116u8, 95u8, 116u8, 121u8, 112u8, 101u8, 34u8, 58u8, 34u8];
    proof {
        assert(r@ =~= lit_attr_open());
    }
    r
}

/// The byte string `","value":`.
pub open spec fn lit_value_key() -> Seq<u8> {
    seq![34u8, 44u8, 34u8, 118u8, 97u8, 108u8, 117u8, 101u8, 34u8, 58u8]
}

/// Builds the byte string `","value":`.
pub fn bytes_value_key() -> (r: Vec<u8>)
    ensures
        r@ == lit_value_key(),
{
    let r: Vec<u8> = vec![34u8, 44u8, 34u8, 118u8, 97u8, 108u8, 117u8, 101u8, 34u8, 58u8];
    proof {
        assert(r@ =~= lit_value_key());
    }
    r
}

/// The byte string `A `.
pub open spec fn lit_desc_prefix() -> Seq<u8> {
    seq![65u8, 32u8]
}

/// Builds the byte string `A `.
pub fn bytes_desc_prefix() -> (r: Vec<u8>)
    ensures
        r@ == lit_desc_prefix(),
{
    let r: Vec<u8> = vec![65u8, 32u8];
    proof {
        assert(r@ =~= lit_desc_prefix());
    }
    r
}

/// The byte string ` bedroom house priced at $`.
pub open spec fn lit_desc_middle() -> Seq<u8> {
    seq![32u8, 98u8, 101u8, 100u8, 114u8, 111u8, 111u8, 109u8, 32u8, 104u8, 111u8, 117u8, 115u8, 101u8, 32u8, 112u8, 114u8, 105u8, 99u8, 101u8, 100u8, 32u8, 97u8, 116u8, 32u8, 36u8]
}

/// Builds the byte string ` bedroom house priced at $`.
pub fn bytes_desc_middle() -> (r: Vec<u8>)
    ensures
        r@ == lit_desc_middle(),
{
    let r: Vec<u8> = vec![32u8, 98u8, 101u8, 100u8, 114u8, 111u8, 111u8, 109u8, 32u8, 104u8, 111u8, 117u8, 115u8, 101u8, 32u8, 112u8, 114u8, 105u8, 99u8, 101u8, 100u8, 32u8, 97u8, 116u8, 32u8, 36u8];
    proof {
        assert(r@ =~= lit_desc_middle());
    }
    r
}

/// The byte string `Bedrooms`.
pub open spec fn lit_tr_bedrooms() -> Seq<u8> {
    seq![66u8, 101u8, 100u8, 114u8, 111u8, 111u8, 109u8, 115u8]
}

/// Builds the byte string `Bedrooms`.
pub fn bytes_tr_bedrooms() -> (r: Vec<u8>)
    ensures
        r@ == lit_tr_bedrooms(),
{
    let r: Vec<u8> = vec![66u8, 101u8, 100u8, 114u8, 111u8, 111u8, 109u8, 115u8];
    proof {
        assert(r@ =~= lit_tr_bedrooms());
    }
    r
}

/// The byte string `Bathrooms`.
pub open spec fn lit_tr_bathrooms() -> Seq<u8> {
    seq![66u8, 97u8, 116u8, 104u8, 114u8, 111u8, 111u8, 109u8, 115u8]
}

/// Builds the byte string `Bathrooms`.
pub fn bytes_tr_bathrooms() -> (r: Vec<u8>)
    ensures
        r@ == lit_tr_bathrooms(),
{
    let r: Vec<u8> = vec![66u8, 97u8, 116u8, 104u8, 114u8, 111u8, 111u8, 109u8, 115u8];
    proof {
        assert(r@ =~= lit_tr_bathrooms());
    }
    r
}

/// The byte string `Living Area`.
pub open spec fn lit_tr_living_area() -> Seq<u8> {
    seq![76u8, 105u8, 118u8, 105u8, 110u8, 103u8, 32u8, 65u8, 114u8, 101u8, 97u8]
}

/// Builds the byte string `Living Area`.
pub fn bytes_tr_living_area() -> (r: Vec<u8>)
    ensures
        r@ == lit_tr_living_area(),
{
    let r: Vec<u8> = vec![76u8, 105u8, 118u8, 105u8, 110u8, 103u8, 32u8, 65u8, 114u8, 101u8, 97u8];
    proof {
        assert(r@ =~= lit_tr_living_area());
    }
    r
}

/// The byte string `Lot Size`.
pub open spec fn lit_tr_lot_size() -> Seq<u8> {
    seq![76u8, 111u8, 116u8, 32u8, 83u8, 105u8, 122u8, 101u8]
}

/// Builds the byte string `Lot Size`.
pub fn bytes_tr_lot_size() -> (r: Vec<u8>)
    ensures
        r@ == lit_tr_lot_size(),
{
    let r: Vec<u8> = vec![76u8, 111u8, 116u8, 32u8, 83u8, 105u8, 122u8, 101u8];
    proof {
        assert(r@ =~= lit_tr_lot_size());
    }
    r
}

/// The byte string `Floors`.
pub open spec fn lit_tr_floors() -> Seq<u8> {
    seq![70u8, 108u8, 111u8, 111u8, 114u8, 115u8]
}

/// Builds the byte string `Floors`.
pub fn bytes_tr_floors() -> (r: Vec<u8>)
    ensures
        r@ == lit_tr_floors(),
{
    let r: Vec<u8> = vec![70u8, 108u8, 111u8, 111u8, 114u8, 115u8];
    proof {
        assert(r@ =~= lit_tr_floors());
    }
    r
}

/// The byte string `Waterfront`.
pub open spec fn lit_tr_waterfront() -> Seq<u8> {
    seq![87u8, 97u8, 116u8, 101u8, 114u8, 102u8, 114u8, 111u8, 110u8, 116u8]
}

/// Builds the byte string `Waterfront`.
pub fn bytes_tr_waterfront() -> (r: Vec<u8>)
    ensures
        r@ == lit_tr_waterfront(),
{
    let r: Vec<u8> = vec![87u8, 97u8, 116u8, 101u8, 114u8, 102u8, 114u8, 111u8, 110u8, 116u8];
    proof {
        assert(r@ =~= lit_tr_waterfront());
    }
    r
}

/// The byte string `View`.
pub open spec fn lit_tr_view() -> Seq<u8> {
    seq![86u8, 105u8, 101u8, 119u8]
}

/// Builds the byte string `View`.
pub fn bytes_tr_view() -> (r: Vec<u8>)
    ensures
        r@ == lit_tr_view(),
{
    let r: Vec<u8> = vec![86u8, 105u8, 101u8, 119u8];
    proof {
        assert(r@ =~= lit_tr_view());
    }
    r
}

/// The byte string `Condition`.
pub open spec fn lit_tr_condition() -> Seq<u8> {
    seq![67u8, 111u8, 110u8, 100u8, 105u8, 116u8, 105u8, 111u8, 110u8]
}

/// Builds the byte string `Condition`.
pub fn bytes_tr_condition() -> (r: Vec<u8>)
    ensures
        r@ == lit_tr_condition(),
{
    let r: Vec<u8> = vec![67u8, 111u8, 110u8, 100u8, 105u8, 116u8, 105u8, 111u8, 110u8];
    proof {
        assert(r@ =~= lit_tr_condition());
    }
    r
}

/// The byte string `Grade`.
pub open spec fn lit_tr_grade() -> Seq<u8> {
    seq![71u8, 114u8, 97u8, 100u8, 101u8]
}

/// Builds the byte string `Grade`.
pub fn bytes_tr_grade() -> (r: Vec<u8>)
    ensures
        r@ == lit_tr_grade(),
{
    let r: Vec<u8> = vec![71u8, 114u8, 97u8, 100u8, 101u8];
    proof {
        assert(r@ =~= lit_tr_grade());
    }
    r
}

/// The byte string `Sqft Above`.
pub open spec fn lit_tr_sqft_above() -> Seq<u8> {
    seq![83u8, 113u8, 102u8, 116u8, 32u8, 65u8, 98u8, 111u8, 118u8, 101u8]
}

/// Builds the byte string `Sqft Above`.
pub fn bytes_tr_sqft_above() -> (r: Vec<u8>)
    ensures
        r@ == lit_tr_sqft_above(),
{
    let r: Vec<u8> = vec![83u8, 113u8, 102u8, 116u8, 32u8, 65u8, 98u8, 111u8, 118u8, 101u8];
    proof {
        assert(r@ =~= lit_tr_sqft_above());
    }
    r
}

/// The byte string `Sqft Basement`.
pub open spec fn lit_tr_sqft_basement() -> Seq<u8> {
    seq![83u8, 113u8, 102u8, 116u8, 32u8, 66u8, 97u8, 115u8, 101u8, 109u8, 101u8, 110u8, 116u8]
}

/// Builds the byte string `Sqft Basement`.
pub fn bytes_tr_sqft_basement() -> (r: Vec<u8>)
    ensures
        r@ == lit_tr_sqft_basement(),
{
    let r: Vec<u8> = vec![83u8, 113u8, 102u8, 116u8, 32u8, 66u8, 97u8, 115u8, 101u8, 109u8, 101u8, 110u8, 116u8];
    proof {
        assert(r@ =~= lit_tr_sqft_basement());
    }
    r
}

/// The byte string `Year Built`.
pub open spec fn lit_tr_year_built() -> Seq<u8> {
    seq![89u8, 101u8, 97u8, 114u8, 32u8, 66u8, 117u8, 105u8, 108u8, 116u8]
}

/// Builds the byte string `Year Built`.
pub fn bytes_tr_year_built() -> (r: Vec<u8>)
    ensures
        r@ == lit_tr_year_built(),
{
    let r: Vec<u8> = vec![89u8, 101u8, 97u8, 114u8, 32u8, 66u8, 117u8, 105u8, 108u8, 116u8];
    proof {
        assert(r@ =~= lit_tr_year_built());
    }
    r
}

/// The byte string `Year Renovated`.
pub open spec fn lit_tr_year_renovated() -> Seq<u8> {
    seq![89u8, 101u8, 97u8, 114u8, 32u8, 82u8, 101u8, 110u8, 111u8, 118u8, 97u8, 116u8, 101u8, 100u8]
}

/// Builds the byte string `Year Renovated`.
pub fn bytes_tr_year_renovated() -> (r: Vec<u8>)
    ensures
        r@ == lit_tr_year_renovated(),
{
    let r: Vec<u8> = vec![89u8, 101u8, 97u8, 114u8, 32u8, 82u8, 101u8, 110u8, 111u8, 118u8, 97u8, 116u8, 101u8, 100u8];
    proof {
        assert(r@ =~= lit_tr_year_renovated());
    }
    r
}

/// The byte string `Zipcode`.
pub open spec fn lit_tr_zipcode() -> Seq<u8> {
    seq![90u8, 105u8, 112u8, 99u8, 111u8, 100u8, 101u8]
}

/// Builds the byte string `Zipcode`.
pub fn bytes_tr_zipcode() -> (r: Vec<u8>)
    ensures
        r@ == lit_tr_zipcode(),
{
    let r: Vec<u8> = vec![90u8, 105u8, 112u8, 99u8, 111u8, 100u8, 101u8];
    proof {
        assert(r@ =~= lit_tr_zipcode());
    }
    r
}

/// The byte string `Latitude`.
pub open spec fn lit_tr_latitude() -> Seq<u8> {
    seq![76u8, 97u8, 116u8, 105u8, 116u8, 117u8, 100u8, 101u8]
}

/// Builds the byte string `Latitude`.
pub fn bytes_tr_latitude() -> (r: Vec<u8>)
    ensures
        r@ == lit_tr_latitude(),
{
    let r: Vec<u8> = vec![76u8, 97u8, 116u8, 105u8, 116u8, 117u8, 100u8, 101u8];
    proof {
        assert(r@ =~= lit_tr_latitude());
    }
    r
}

/// The byte string `Longitude`.
pub open spec fn lit_tr_longitude() -> Seq<u8> {
    seq![76u8, 111u8, 110u8, 103u8, 105u8, 116u8, 117u8, 100u8, 101u8]
}

/// Builds the byte string `Longitude`.
pub fn bytes_tr_longitude() -> (r: Vec<u8>)
    ensures
        r@ == lit_tr_longitude(),
{
    let r: Vec<u8> = vec![76u8, 111u8, 110u8, 103u8, 105u8, 116u8, 117u8, 100u8, 101u8];
    proof {
        assert(r@ =~= lit_tr_longitude());
    }
    r
}

/// The byte string `Month`.
pub open spec fn lit_tr_month() -> Seq<u8> {
    seq![77u8, 111u8, 110u8, 116u8, 104u8]
}

/// Builds the byte string `Month`.
pub fn bytes_tr_month() -> (r: Vec<u8>)
    ensures
        r@ == lit_tr_month(),
{
    let r: Vec<u8> = vec![77u8, 111u8, 110u8, 116u8, 104u8];
    proof {
        assert(r@ =~= lit_tr_month());
    }
    r
}

/// The byte string `Year`.
pub open spec fn lit_tr_year() -> Seq<u8> {
    seq![89u8, 101u8, 97u8, 114u8]
}

/// Builds the byte string `Year`.
pub fn bytes_tr_year() -> (r: Vec<u8>)
    ensures
        r@ == lit_tr_year(),
{
    let r: Vec<u8> = vec![89u8, 101u8, 97u8, 114u8];
    proof {
        assert(r@ =~= lit_tr_year());
    }
    r
}

/// The byte string `Price`.
pub open spec fn lit_tr_price() -> Seq<u8> {
    seq![80u8, 114u8, 105u8, 99u8, 101u8]
}

/// Builds the byte string `Price`.
pub fn bytes_tr_price() -> (r: Vec<u8>)
    ensures
        r@ == lit_tr_price(),
{
    let r: Vec<u8> = vec![80u8, 114u8, 105u8, 99u8, 101u8];
    proof {
        assert(r@ =~= lit_tr_price());
    }
    r
}

/// The byte string `","bedrooms":`.
pub open spec fn lit_rk_bedrooms() -> Seq<u8> {
    seq![34u8, 44u8, 34u8, 98u8, 101u8, 100u8, 114u8, 111u8, 111u8, 109u8, 115u8, 34u8, 58u8]
}

/// Builds the byte string `","bedrooms":`.
pub fn bytes_rk_bedrooms() -> (r: Vec<u8>)
    ensures
        r@ == lit_rk_bedrooms(),
{
    let r: Vec<u8> = vec![34u8, 44u8, 34u8, 98u8, 101u8, 100u8, 114u8, 111u8, 111u8, 109u8, 115u8, 34u8, 58u8];
    proof {
        assert(r@ =~= lit_rk_bedrooms());
    }
    r
}

/// The byte string `,"bathrooms":`.
pub open spec fn lit_rk_bathrooms() -> Seq<u8> {
    seq![44u8, 34u8, 98u8, 97u8, 116u8, 104u8, 114u8, 111u8, 111u8, 109u8, 115u8, 34u8, 58u8]
}

/// Builds the byte string `,"bathrooms":`.
pub fn bytes_rk_bathrooms() -> (r: Vec<u8>)
    ensures
        r@ == lit_rk_bathrooms(),
{
    let r: Vec<u8> = vec![44u8, 34u8, 98u8, 97u8, 116u8, 104u8, 114u8, 111u8, 111u8, 109u8, 115u8, 34u8, 58u8];
    proof {
        assert(r@ =~= lit_rk_bathrooms());
    }
    r
}

/// The byte string `,"sqft_living":`.
pub open spec fn lit_rk_sqft_living() -> Seq<u8> {
    seq![44u8, 34u8, 115u8, 113u8, 102u8, 116u8, 95u8, 108u8, 105u8, 118u8, 105u8, 110u8, 103u8, 34u8, 58u8]
}

/// Builds the byte string `,"sqft_living":`.
pub fn bytes_rk_sqft_living() -> (r: Vec<u8>)
    ensures
        r@ == lit_rk_sqft_living(),
{
    let r: Vec<u8> = vec![44u8, 34u8, 115u8, 113u8, 102u8, 116u8, 95u8, 108u8, 105u8, 118u8, 105u8, 110u8, 103u8, 34u8, 58u8];
    proof {
        assert(r@ =~= lit_rk_sqft_living());
    }
    r
}

/// The byte string `,"sqft_lot":`.
pub open spec fn lit_rk_sqft_lot() -> Seq<u8> {
    seq![44u8, 34u8, 115u8, 113u8, 102u8, 116u8, 95u8, 108u8, 111u8, 116u8, 34u8, 58u8]
}

/// Builds the byte string `,"sqft_lot":`.
pub fn bytes_rk_sqft_lot() -> (r: Vec<u8>)
    ensures
        r@ == lit_rk_sqft_lot(),
{
    let r: Vec<u8> = vec![44u8, 34u8, 115u8, 113u8, 102u8, 116u8, 95u8, 108u8, 111u8, 116u8, 34u8, 58u8];
    proof {
        assert(r@ =~= lit_rk_sqft_lot());
    }
    r
}

/// The byte string `,"floors":`.
pub open spec fn lit_rk_floors() -> Seq<u8> {
    seq![44u8, 34u8, 102u8, 108u8, 111u8, 111u8, 114u8, 115u8, 34u8, 58u8]
}

/// Builds the byte string `,"floors":`.
pub fn bytes_rk_floors() -> (r: Vec<u8>)
    ensures
        r@ == lit_rk_floors(),
{
    let r: Vec<u8> = vec![44u8, 34u8, 102u8, 108u8, 111u8, 111u8, 114u8, 115u8, 34u8, 58u8];
    proof {
        assert(r@ =~= lit_rk_floors());
    }
    r
}

/// The byte string `,"waterfront":`.
pub open spec fn lit_rk_waterfront() -> Seq<u8> {
    seq![44u8, 34u8, 119u8, 97u8, 116u8, 101u8, 114u8, 102u8, 114u8, 111u8, 110u8, 116u8, 34u8, 58u8]
}

/// Builds the byte string `,"waterfront":`.
pub fn bytes_rk_waterfront() -> (r: Vec<u8>)
    ensures
        r@ == lit_rk_waterfront(),
{
    let r: Vec<u8> = vec![44u8, 34u8, 119u8, 97u8, 116u8, 101u8, 114u8, 102u8, 114u8, 111u8, 110u8, 116u8, 34u8, 58u8];
    proof {
        assert(r@ =~= lit_rk_waterfront());
    }
    r
}

/// The byte string `,"view":`.
pub open spec fn lit_rk_view() -> Seq<u8> {
    seq![44u8, 34u8, 118u8, 105u8, 101u8, 119u8, 34u8, 58u8]
}

/// Builds the byte string `,"view":`.
pub fn bytes_rk_view() -> (r: Vec<u8>)
    ensures
        r@ == lit_rk_view(),
{
    let r: Vec<u8> = vec![44u8, 34u8, 118u8, 105u8, 101u8, 119u8, 34u8, 58u8];
    proof {
        assert(r@ =~= lit_rk_view());
    }
    r
}

/// The byte string `,"condition":`.
pub open spec fn lit_rk_condition() -> Seq<u8> {
    seq![44u8, 34u8, 99u8, 111u8, 110u8, 100u8, 105u8, 116u8, 105u8, 111u8, 110u8, 34u8, 58u8]
}

/// Builds the byte string `,"condition":`.
pub fn bytes_rk_condition() -> (r: Vec<u8>)
    ensures
        r@ == lit_rk_condition(),
{
    let r: Vec<u8> = vec![44u8, 34u8, 99u8, 111u8, 110u8, 100u8, 105u8, 116u8, 105u8, 111u8, 110u8, 34u8, 58u8];
    proof {
        assert(r@ =~= lit_rk_condition());
    }
    r
}

/// The byte string `,"grade":`.
pub open spec fn lit_rk_grade() -> Seq<u8> {
    seq![44u8, 34u8, 103u8, 114u8, 97u8, 100u8, 101u8, 34u8, 58u8]
}

/// Builds the byte string `,"grade":`.
pub fn bytes_rk_grade() -> (r: Vec<u8>)
    ensures
        r@ == lit_rk_grade(),
{
    let r: Vec<u8> = vec![44u8, 34u8, 103u8, 114u8, 97u8, 100u8, 101u8, 34u8, 58u8];
    proof {
        assert(r@ =~= lit_rk_grade());
    }
    r
}

/// The byte string `,"sqft_above":`.
pub open spec fn lit_rk_sqft_above() -> Seq<u8> {
    seq![44u8, 34u8, 115u8, 113u8, 102u8, 116u8, 95u8, 97u8, 98u8, 111u8, 118u8, 101u8, 34u8, 58u8]
}

/// Builds the byte string `,"sqft_above":`.
pub fn bytes_rk_sqft_above() -> (r: Vec<u8>)
    ensures
        r@ == lit_rk_sqft_above(),
{
    let r: Vec<u8> = vec![44u8, 34u8, 115u8, 113u8, 102u8, 116u8, 95u8, 97u8, 98u8, 111u8, 118u8, 101u8, 34u8, 58u8];
    proof {
        assert(r@ =~= lit_rk_sqft_above());
    }
    r
}

/// The byte string `,"sqft_basement":`.
pub open spec fn lit_rk_sqft_basement() -> Seq<u8> {
    seq![44u8, 34u8, 115u8, 113u8, 102u8, 116u8, 95u8, 98u8, 97u8, 115u8, 101u8, 109u8, 101u8, 110u8, 116u8, 34u8, 58u8]
}

/// Builds the byte string `,"sqft_basement":`.
pub fn bytes_rk_sqft_basement() -> (r: Vec<u8>)
    ensures
        r@ == lit_rk_sqft_basement(),
{
    let r: Vec<u8> = vec![44u8, 34u8, 115u8, 113u8, 102u8, 116u8, 95u8, 98u8, 97u8, 115u8, 101u8, 109u8, 101u8, 110u8, 116u8, 34u8, 58u8];
    proof {
        assert(r@ =~= lit_rk_sqft_basement());
    }
    r
}

/// The byte string `,"yr_built":`.
pub open spec fn lit_rk_yr_built() -> Seq<u8> {
    seq![44u8, 34u8, 121u8, 114u8, 95u8, 98u8, 117u8, 105u8, 108u8, 116u8, 34u8, 58u8]
}

/// Builds the byte string `,"yr_built":`.
pub fn bytes_rk_yr_built() -> (r: Vec<u8>)
    ensures
        r@ == lit_rk_yr_built(),
{
    let r: Vec<u8> = vec![44u8, 34u8, 121u8, 114u8, 95u8, 98u8, 117u8, 105u8, 108u8, 116u8, 34u8, 58u8];
    proof {
        assert(r@ =~= lit_rk_yr_built());
    }
    r
}

/// The byte string `,"yr_renovated":`.
pub open spec fn lit_rk_yr_renovated() -> Seq<u8> {
    seq![44u8, 34u8, 121u8, 114u8, 95u8, 114u8, 101u8, 110u8, 111u8, 118u8, 97u8, 116u8, 101u8, 100u8, 34u8, 58u8]
}

/// Builds the byte string `,"yr_renovated":`.
pub fn bytes_rk_yr_renovated() -> (r: Vec<u8>)
    ensures
        r@ == lit_rk_yr_renovated(),
{
    let r: Vec<u8> = vec![44u8, 34u8, 121u8, 114u8, 95u8, 114u8, 101u8, 110u8, 111u8, 118u8, 97u8, 116u8, 101u8, 100u8, 34u8, 58u8];
    proof {
        assert(r@ =~= lit_rk_yr_renovated());
    }
    r
}

/// The byte string `,"zipcode":`.
pub open spec fn lit_rk_zipcode() -> Seq<u8> {
    seq![44u8, 34u8, 122u8, 105u8, 112u8, 99u8, 111u8, 100u8, 101u8, 34u8, 58u8]
}

/// Builds the byte string `,"zipcode":`.
pub fn bytes_rk_zipcode() -> (r: Vec<u8>)
    ensures
        r@ == lit_rk_zipcode(),
{
    let r: Vec<u8> = vec![44u8, 34u8, 122u8, 105u8, 112u8, 99u8, 111u8, 100u8, 101u8, 34u8, 58u8];
    proof {
        assert(r@ =~= lit_rk_zipcode());
    }
    r
}

/// The byte string `,"lat":`.
pub open spec fn lit_rk_lat() -> Seq<u8> {
    seq![44u8, 34u8, 108u8, 97u8, 116u8, 34u8, 58u8]
}

/// Builds the byte string `,"lat":`.
pub fn bytes_rk_lat() -> (r: Vec<u8>)
    ensures
        r@ == lit_rk_lat(),
{
    let r: Vec<u8> = vec![44u8, 34u8, 108u8, 97u8, 116u8, 34u8, 58u8];
    proof {
        assert(r@ =~= lit_rk_lat());
    }
    r
}

/// The byte string `,"long":`.
pub open spec fn lit_rk_long() -> Seq<u8> {
    seq![44u8, 34u8, 108u8, 111u8, 110u8, 103u8, 34u8, 58u8]
}

/// Builds the byte string `,"long":`.
pub fn bytes_rk_long() -> (r: Vec<u8>)
    ensures
        r@ == lit_rk_long(),
{
    let r: Vec<u8> = vec![44u8, 34u8, 108u8, 111u8, 110u8, 103u8, 34u8, 58u8];
    proof {
        assert(r@ =~= lit_rk_long());
    }
    r
}

/// The byte string `,"sqft_living15":`.
pub open spec fn lit_rk_sqft_living15() -> Seq<u8> {
    seq![44u8, 34u8, 115u8, 113u8, 102u8, 116u8, 95u8, 108u8, 105u8, 118u8, 105u8, 110u8, 103u8, 49u8, 53u8, 34u8, 58u8]
}

/// Builds the byte string `,"sqft_living15":`.
pub fn bytes_rk_sqft_living15() -> (r: Vec<u8>)
    ensures
        r@ == lit_rk_sqft_living15(),
{
    let r: Vec<u8> = vec![44u8, 34u8, 115u8, 113u8, 102u8, 116u8, 95u8, 108u8, 105u8, 118u8, 105u8, 110u8, 103u8, 49u8, 53u8, 34u8, 58u8];
    proof {
        assert(r@ =~= lit_rk_sqft_living15());
    }
    r
}

/// The byte string `,"sqft_lot15":`.
pub open spec fn lit_rk_sqft_lot15() -> Seq<u8> {
    seq![44u8, 34u8, 115u8, 113u8, 102u8, 116u8, 95u8, 108u8, 111u8, 116u8, 49u8, 53u8, 34u8, 58u8]
}

/// Builds the byte string `,"sqft_lot15":`.
pub fn bytes_rk_sqft_lot15() -> (r: Vec<u8>)
    ensures
        r@ == lit_rk_sqft_lot15(),
{
    let r: Vec<u8> = vec![44u8, 34u8, 115u8, 113u8, 102u8, 116u8, 95u8, 108u8, 111u8, 116u8, 49u8, 53u8, 34u8, 58u8];
    proof {
        assert(r@ =~= lit_rk_sqft_lot15());
    }
    r
}

/// The byte string `,"month":`.
pub open spec fn lit_rk_month() -> Seq<u8> {
    seq![44u8, 34u8, 109u8, 111u8, 110u8, 116u8, 104u8, 34u8, 58u8]
}

/// Builds the byte string `,"month":`.
pub fn bytes_rk_month() -> (r: Vec<u8>)
    ensures
        r@ == lit_rk_month(),
{
    let r: Vec<u8> = vec![44u8, 34u8, 109u8, 111u8, 110u8, 116u8, 104u8, 34u8, 58u8];
    proof {
        assert(r@ =~= lit_rk_month());
    }
    r
}

/// The byte string `,"year":`.
pub open spec fn lit_rk_year() -> Seq<u8> {
    seq![44u8, 34u8, 121u8, 101u8, 97u8, 114u8, 34u8, 58u8]
}

/// Builds the byte string `,"year":`.
pub fn bytes_rk_year() -> (r: Vec<u8>)
    ensures
        r@ == lit_rk_year(),
{
    let r: Vec<u8> = vec![44u8, 34u8, 121u8, 101u8, 97u8, 114u8, 34u8, 58u8];
    proof {
        assert(r@ =~= lit_rk_year());
    }
    r
}

/// The byte string `NFT minted successfully.`.
pub open spec fn lit_msg_minted() -> Seq<u8> {
    seq![78u8, 70u8, 84u8, 32u8, 109u8, 105u8, 110u8, 116u8, 101u8, 100u8, 32u8, 115u8, 117u8, 99u8, 99u8, 101u8, 115u8, 115u8, 102u8, 117u8, 108u8, 108u8, 121u8, 46u8]
}

/// Builds the byte string `NFT minted successfully.`.
pub fn bytes_msg_minted() -> (r: Vec<u8>)
    ensures
        r@ == lit_msg_minted(),
{
    let r: Vec<u8> = vec![78u8, 70u8, 84u8, 32u8, 109u8, 105u8, 110u8, 116u8, 101u8, 100u8, 32u8, 115u8, 117u8, 99u8, 99u8, 101u8, 115u8, 115u8, 102u8, 117u8, 108u8, 108u8, 121u8, 46u8];
    proof {
        assert(r@ =~= lit_msg_minted());
    }
    r
}

/// The byte string `http://`.
pub open spec fn lit_http_prefix() -> Seq<u8> {
    seq![104u8, 116u8, 116u8, 112u8, 58u8, 47u8, 47u8]
}

/// Builds the byte string `http://`.
pub fn bytes_http_prefix() -> (r: Vec<u8>)
    ensures
        r@ == lit_http_prefix(),
{
    let r: Vec<u8> = vec![104u8, 116u8, 116u8, 112u8, 58u8, 47u8, 47u8];
    proof {
        assert(r@ =~= lit_http_prefix());
    }
    r
}

/// The byte string `https://`.
pub open spec fn lit_https_prefix() -> Seq<u8> {
    seq![104u8, 116u8, 116u8, 112u8, 115u8, 58u8, 47u8, 47u8]
}

/// Builds the byte string `https://`.
pub fn bytes_https_prefix() -> (r: Vec<u8>)
    ensures
        r@ == lit_https_prefix(),
{
    let r: Vec<u8> = vec![104u8, 116u8, 116u8, 112u8, 115u8, 58u8, 47u8, 47u8];
    proof {
        assert(r@ =~= lit_https_prefix());
    }
    r
}

/// The byte string `price service unreachable`.
pub open spec fn lit_msg_unavailable() -> Seq<u8> {
    seq![112u8, 114u8, 105u8, 99u8, 101u8, 32u8, 115u8, 101u8, 114u8, 118u8, 105u8, 99u8, 101u8, 32u8, 117u8, 110u8, 114u8, 101u8, 97u8, 99u8, 104u8, 97u8, 98u8, 108u8, 101u8]
}

/// Builds the byte string `price service unreachable`.
pub fn bytes_msg_unavailable() -> (r: Vec<u8>)
    ensures
        r@ == lit_msg_unavailable(),
{
    let r: Vec<u8> = vec![112u8, 114u8, 105u8, 99u8, 101u8, 32u8, 115u8, 101u8, 114u8, 118u8, 105u8, 99u8, 101u8, 32u8, 117u8, 110u8, 114u8, 101u8, 97u8, 99u8, 104u8, 97u8, 98u8, 108u8, 101u8];
    proof {
        assert(r@ =~= lit_msg_unavailable());
    }
    r
}

/// The byte string `price service returned a malformed response`.
pub open spec fn lit_msg_protocol() -> Seq<u8> {
    seq![112u8, 114u8, 105u8, 99u8, 101u8, 32u8, 115u8, 101u8, 114u8, 118u8, 105u8, 99u8, 101u8, 32u8, 114u8, 101u8, 116u8, 117u8, 114u8, 110u8, 101u8, 100u8, 32u8, 97u8, 32u8, 109u8, 97u8, 108u8, 102u8, 111u8, 114u8, 109u8, 101u8, 100u8, 32u8, 114u8, 101u8, 115u8, 112u8, 111u8, 110u8, 115u8, 101u8]
}

/// Builds the byte string `price service returned a malformed response`.
pub fn bytes_msg_protocol() -> (r: Vec<u8>)
    ensures
        r@ == lit_msg_protocol(),
{
    let r: Vec<u8> = vec![112u8, 114u8, 105u8, 99u8, 101u8, 32u8, 115u8, 101u8, 114u8, 118u8, 105u8, 99u8, 101u8, 32u8, 114u8, 101u8, 116u8, 117u8, 114u8, 110u8, 101u8, 100u8, 32u8, 97u8, 32u8, 109u8, 97u8, 108u8, 102u8, 111u8, 114u8, 109u8, 101u8, 100u8, 32u8, 114u8, 101u8, 115u8, 112u8, 111u8, 110u8, 115u8, 101u8];
    proof {
        assert(r@ =~= lit_msg_protocol());
    }
    r
}

/// The byte string `price missing or invalid in the prediction response`.
pub open spec fn lit_msg_missing() -> Seq<u8> {
    seq![112u8, 114u8, 105u8, 99u8, 101u8, 32u8, 109u8, 105u8, 115u8, 115u8, 105u8, 110u8, 103u8, 32u8, 111u8, 114u8, 32u8, 105u8, 110u8, 118u8, 97u8, 108u8, 105u8, 100u8, 32u8, 105u8, 110u8, 32u8, 116u8, 104u8, 101u8, 32u8, 112u8, 114u8, 101u8, 100u8, 105u8, 99u8, 116u8, 105u8, 111u8, 110u8, 32u8, 114u8, 101u8, 115u8, 112u8, 111u8, 110u8, 115u8, 101u8]
}

/// Builds the byte string `price missing or invalid in the prediction response`.
pub fn bytes_msg_missing() -> (r: Vec<u8>)
    ensures
        r@ == lit_msg_missing(),
{
    let r: Vec<u8> = vec![112u8, 114u8, 105u8, 99u8, 101u8, 32u8, 109u8, 105u8, 115u8, 115u8, 105u8, 110u8, 103u8, 32u8, 111u8, 114u8, 32u8, 105u8, 110u8, 118u8, 97u8, 108u8, 105u8, 100u8, 32u8, 105u8, 110u8, 32u8, 116u8, 104u8, 101u8, 32u8, 112u8, 114u8, 101u8, 100u8, 105u8, 99u8, 116u8, 105u8, 111u8, 110u8, 32u8, 114u8, 101u8, 115u8, 112u8, 111u8, 110u8, 115u8, 101u8];
    proof {
        assert(r@ =~= lit_msg_missing());
    }
    r
}

/// The byte string `transaction rejected by the network`.
pub open spec fn lit_msg_rejected() -> Seq<u8> {
    seq![116u8, 114u8, 97u8, 110u8, 115u8, 97u8, 99u8, 116u8, 105u8, 111u8, 110u8, 32u8, 114u8, 101u8, 106u8, 101u8, 99u8, 116u8, 101u8, 100u8, 32u8, 98u8, 121u8, 32u8, 116u8, 104u8, 101u8, 32u8, 110u8, 101u8, 116u8, 119u8, 111u8, 114u8, 107u8]
}

/// Builds the byte string `transaction rejected by the network`.
pub fn bytes_msg_rejected() -> (r: Vec<u8>)
    ensures
        r@ == lit_msg_rejected(),
{
    let r: Vec<u8> = vec![116u8, 114u8, 97u8, 110u8, 115u8, 97u8, 99u8, 116u8, 105u8, 111u8, 110u8, 32u8, 114u8, 101u8, 106u8, 101u8, 99u8, 116u8, 101u8, 100u8, 32u8, 98u8, 121u8, 32u8, 116u8, 104u8, 101u8, 32u8, 110u8, 101u8, 116u8, 119u8, 111u8, 114u8, 107u8];
    proof {
        assert(r@ =~= lit_msg_rejected());
    }
    r
}

/// The byte string `transaction confirmation timed out; the outcome is unknown, check manually before retrying`.
pub open spec fn lit_msg_timeout() -> Seq<u8> {
    seq![116u8, 114u8, 97u8, 110u8, 115u8, 97u8, 99u8, 116u8, 105u8, 111u8, 110u8, 32u8, 99u8, 111u8, 110u8, 102u8, 105u8, 114u8, 109u8, 97u8, 116u8, 105u8, 111u8, 110u8, 32u8, 116u8, 105u8, 109u8, 101u8, 100u8, 32u8, 111u8, 117u8, 116u8, 59u8, 32u8, 116u8, 104u8, 101u8, 32u8, 111u8, 117u8, 116u8, 99u8, 111u8, 109u8, 101u8, 32u8, 105u8, 115u8, 32u8, 117u8, 110u8, 107u8, 110u8, 111u8, 119u8, 110u8, 44u8, 32u8, 99u8, 104u8, 101u8, 99u8, 107u8, 32u8, 109u8, 97u8, 110u8, 117u8, 97u8, 108u8, 108u8, 121u8, 32u8, 98u8, 101u8, 102u8, 111u8, 114u8, 101u8, 32u8, 114u8, 101u8, 116u8, 114u8, 121u8, 105u8, 110u8, 103u8]
}

/// Builds the byte string `transaction confirmation timed out; the outcome is unknown, check manually before retrying`.
pub fn bytes_msg_timeout() -> (r: Vec<u8>)
    ensures
        r@ == lit_msg_timeout(),
{
    let r: Vec<u8> = vec![116u8, 114u8, 97u8, 110u8, 115u8, 97u8, 99u8, 116u8, 105u8, 111u8, 110u8, 32u8, 99u8, 111u8, 110u8, 102u8, 105u8, 114u8, 109u8, 97u8, 116u8, 105u8, 111u8, 110u8, 32u8, 116u8, 105u8, 109u8, 101u8, 100u8, 32u8, 111u8, 117u8, 116u8, 59u8, 32u8, 116u8, 104u8, 101u8, 32u8, 111u8, 117u8, 116u8, 99u8, 111u8, 109u8, 101u8, 32u8, 105u8, 115u8, 32u8, 117u8, 110u8, 107u8, 110u8, 111u8, 119u8, 110u8, 44u8, 32u8, 99u8, 104u8, 101u8, 99u8, 107u8, 32u8, 109u8, 97u8, 110u8, 117u8, 97u8, 108u8, 108u8, 121u8, 32u8, 98u8, 101u8, 102u8, 111u8, 114u8, 101u8, 32u8, 114u8, 101u8, 116u8, 114u8, 121u8, 105u8, 110u8, 103u8];
    proof {
        assert(r@ =~= lit_msg_timeout());
    }
    r
}

/// The byte string `transaction was included but reverted on chain`.
pub open spec fn lit_msg_reverted() -> Seq<u8> {
    seq![116u8, 114u8, 97u8, 110u8, 115u8, 97u8, 99u8, 116u8, 105u8, 111u8, 110u8, 32u8, 119u8, 97u8, 115u8, 32u8, 105u8, 110u8, 99u8, 108u8, 117u8, 100u8, 101u8, 100u8, 32u8, 98u8, 117u8, 116u8, 32u8, 114u8, 101u8, 118u8, 101u8, 114u8, 116u8, 101u8, 100u8, 32u8, 111u8, 110u8, 32u8, 99u8, 104u8, 97u8, 105u8, 110u8]
}

/// Builds the byte string `transaction was included but reverted on chain`.
pub fn bytes_msg_reverted() -> (r: Vec<u8>)
    ensures
        r@ == lit_msg_reverted(),
{
    let r: Vec<u8> = vec![116u8, 114u8, 97u8, 110u8, 115u8, 97u8, 99u8, 116u8, 105u8, 111u8, 110u8, 32u8, 119u8, 97u8, 115u8, 32u8, 105u8, 110u8, 99u8, 108u8, 117u8, 100u8, 101u8, 100u8, 32u8, 98u8, 117u8, 116u8, 32u8, 114u8, 101u8, 118u8, 101u8, 114u8, 116u8, 101u8, 100u8, 32u8, 111u8, 110u8, 32u8, 99u8, 104u8, 97u8, 105u8, 110u8];
    proof {
        assert(r@ =~= lit_msg_reverted());
    }
    r
}

} // verus!
