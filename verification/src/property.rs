use vstd::prelude::*;

use crate::literals::{
    bytes_obj_open, bytes_rk_bathrooms, bytes_rk_bedrooms, bytes_rk_condition, bytes_rk_floors,
    bytes_rk_grade, bytes_rk_lat, bytes_rk_long, bytes_rk_month, bytes_rk_sqft_above,
    bytes_rk_sqft_basement, bytes_rk_sqft_living, bytes_rk_sqft_living15, bytes_rk_sqft_lot,
    bytes_rk_sqft_lot15, bytes_rk_view, bytes_rk_waterfront, bytes_rk_year, bytes_rk_yr_built,
    bytes_rk_yr_renovated, bytes_rk_zipcode, lit_obj_open, lit_rk_bathrooms, lit_rk_bedrooms,
    lit_rk_condition, lit_rk_floors, lit_rk_grade, lit_rk_lat, lit_rk_long, lit_rk_month,
    lit_rk_sqft_above, lit_rk_sqft_basement, lit_rk_sqft_living, lit_rk_sqft_living15,
    lit_rk_sqft_lot, lit_rk_sqft_lot15, lit_rk_view, lit_rk_waterfront, lit_rk_year,
    lit_rk_yr_built, lit_rk_yr_renovated, lit_rk_zipcode,
};
use crate::metadata::{escape_bytes, spec_escape};
use crate::number::{
    decimal_text, float_wf, push_bytes, spec_decimal_text, spec_u64_text, u64_text, Decimal,
    DecimalModel,
};

verus! {

/// Mathematical model of a property record.
pub ghost struct RecordModel {
    pub name: Seq<u8>,
    pub bedrooms: u64,
    pub bathrooms: DecimalModel,
    pub sqft_living: u64,
    pub sqft_lot: u64,
    pub floors: u64,
    pub waterfront: u64,
    pub view: u64,
    pub condition: u64,
    pub grade: u64,
    pub sqft_above: u64,
    pub sqft_basement: u64,
    pub yr_built: u64,
    pub yr_renovated: u64,
    pub zipcode: u64,
    pub lat: DecimalModel,
    pub long: DecimalModel,
    pub sqft_living15: u64,
    pub sqft_lot15: u64,
    pub month: u64,
    pub year: u64,
}

/// The structured description of a property offered for minting. Counts and
/// calendar fields are whole numbers; fractional measurements (bathrooms) and
/// the geographic coordinates are decimals carried in textual form. The field
/// order is significant: it is the canonical attribute order of the minted
/// metadata.
pub struct PropertyRecord {
    pub name: Vec<u8>,
    pub bedrooms: u64,
    pub bathrooms: Decimal,
    pub sqft_living: u64,
    pub sqft_lot: u64,
    pub floors: u64,
    pub waterfront: u64,
    pub view: u64,
    pub condition: u64,
    pub grade: u64,
    pub sqft_above: u64,
    pub sqft_basement: u64,
    pub yr_built: u64,
    pub yr_renovated: u64,
    pub zipcode: u64,
    pub lat: Decimal,
    pub long: Decimal,
    pub sqft_living15: u64,
    pub sqft_lot15: u64,
    pub month: u64,
    pub year: u64,
}

impl View for PropertyRecord {
    type V = RecordModel;

    open spec fn view(&self) -> RecordModel {
        RecordModel {
            name: self.name@,
            bedrooms: self.bedrooms,
            bathrooms: self.bathrooms@,
            sqft_living: self.sqft_living,
            sqft_lot: self.sqft_lot,
            floors: self.floors,
            waterfront: self.waterfront,
            view: self.view,
            condition: self.condition,
            grade: self.grade,
            sqft_above: self.sqft_above,
            sqft_basement: self.sqft_basement,
            yr_built: self.yr_built,
            yr_renovated: self.yr_renovated,
            zipcode: self.zipcode,
            lat: self.lat@,
            long: self.long@,
            sqft_living15: self.sqft_living15,
            sqft_lot15: self.sqft_lot15,
            month: self.month,
            year: self.year,
        }
    }
}

/// A valid property record: every decimal measurement is in canonical
/// fractional form. Bathrooms cannot be negative; coordinates can. The name
/// may hold any bytes; serialization escapes it.
pub open spec fn record_wf(r: RecordModel) -> bool {
    &&& float_wf(r.bathrooms)
    &&& !r.bathrooms.negative
    &&& float_wf(r.lat)
    &&& float_wf(r.long)
}

/// The JSON body sent to the price prediction service: one object whose keys
/// are exactly the record's fields, in field order.
pub open spec fn spec_record_text(r: RecordModel) -> Seq<u8> {
    lit_obj_open() + spec_escape(r.name)
        + lit_rk_bedrooms() + spec_u64_text(r.bedrooms as nat)
        + lit_rk_bathrooms() + spec_decimal_text(r.bathrooms)
        + lit_rk_sqft_living() + spec_u64_text(r.sqft_living as nat)
        + lit_rk_sqft_lot() + spec_u64_text(r.sqft_lot as nat)
        + lit_rk_floors() + spec_u64_text(r.floors as nat)
        + lit_rk_waterfront() + spec_u64_text(r.waterfront as nat)
        + lit_rk_view() + spec_u64_text(r.view as nat)
        + lit_rk_condition() + spec_u64_text(r.condition as nat)
        + lit_rk_grade() + spec_u64_text(r.grade as nat)
        + lit_rk_sqft_above() + spec_u64_text(r.sqft_above as nat)
        + lit_rk_sqft_basement() + spec_u64_text(r.sqft_basement as nat)
        + lit_rk_yr_built() + spec_u64_text(r.yr_built as nat)
        + lit_rk_yr_renovated() + spec_u64_text(r.yr_renovated as nat)
        + lit_rk_zipcode() + spec_u64_text(r.zipcode as nat)
        + lit_rk_lat() + spec_decimal_text(r.lat)
        + lit_rk_long() + spec_decimal_text(r.long)
        + lit_rk_sqft_living15() + spec_u64_text(r.sqft_living15 as nat)
        + lit_rk_sqft_lot15() + spec_u64_text(r.sqft_lot15 as nat)
        + lit_rk_month() + spec_u64_text(r.month as nat)
        + lit_rk_year() + spec_u64_text(r.year as nat)
        + seq![0x7du8]
}

/// Serializes a property record to the JSON body of the price request.
pub fn serialize_record(r: &PropertyRecord) -> (out: Vec<u8>)
    ensures
        out@ == spec_record_text(r@),
{
    let mut buf: Vec<u8> = Vec::new();
    let lit = bytes_obj_open();
    push_bytes(&mut buf, &lit);
    let escaped = escape_bytes(&r.name);
    push_bytes(&mut buf, &escaped);
    let lit = bytes_rk_bedrooms();
    push_bytes(&mut buf, &lit);
    let t = u64_text(r.bedrooms);
    push_bytes(&mut buf, &t);
    let lit = bytes_rk_bathrooms();
    push_bytes(&mut buf, &lit);
    let t = decimal_text(&r.bathrooms);
    push_bytes(&mut buf, &t);
    let lit = bytes_rk_sqft_living();
    push_bytes(&mut buf, &lit);
    let t = u64_text(r.sqft_living);
    push_bytes(&mut buf, &t);
    let lit = bytes_rk_sqft_lot();
    push_bytes(&mut buf, &lit);
    let t = u64_text(r.sqft_lot);
    push_bytes(&mut buf, &t);
    let lit = bytes_rk_floors();
    push_bytes(&mut buf, &lit);
    let t = u64_text(r.floors);
    push_bytes(&mut buf, &t);
    let lit = bytes_rk_waterfront();
    push_bytes(&mut buf, &lit);
    let t = u64_text(r.waterfront);
    push_bytes(&mut buf, &t);
    let lit = bytes_rk_view();
    push_bytes(&mut buf, &lit);
    let t = u64_text(r.view);
    push_bytes(&mut buf, &t);
    let lit = bytes_rk_condition();
    push_bytes(&mut buf, &lit);
    let t = u64_text(r.condition);
    push_bytes(&mut buf, &t);
    let lit = bytes_rk_grade();
    push_bytes(&mut buf, &lit);
    let t = u64_text(r.grade);
    push_bytes(&mut buf, &t);
    let lit = bytes_rk_sqft_above();
    push_bytes(&mut buf, &lit);
    let t = u64_text(r.sqft_above);
    push_bytes(&mut buf, &t);
    let lit = bytes_rk_sqft_basement();
    push_bytes(&mut buf, &lit);
    let t = u64_text(r.sqft_basement);
    push_bytes(&mut buf, &t);
    let lit = bytes_rk_yr_built();
    push_bytes(&mut buf, &lit);
    let t = u64_text(r.yr_built);
    push_bytes(&mut buf, &t);
    let lit = bytes_rk_yr_renovated();
    push_bytes(&mut buf, &lit);
    let t = u64_text(r.yr_renovated);
    push_bytes(&mut buf, &t);
    let lit = bytes_rk_zipcode();
    push_bytes(&mut buf, &lit);
    let t = u64_text(r.zipcode);
    push_bytes(&mut buf, &t);
    let lit = bytes_rk_lat();
    push_bytes(&mut buf, &lit);
    let t = decimal_text(&r.lat);
    push_bytes(&mut buf, &t);
    let lit = bytes_rk_long();
    push_bytes(&mut buf, &lit);
    let t = decimal_text(&r.long);
    push_bytes(&mut buf, &t);
    let lit = bytes_rk_sqft_living15();
    push_bytes(&mut buf, &lit);
    let t = u64_text(r.sqft_living15);
    push_bytes(&mut buf, &t);
    let lit = bytes_rk_sqft_lot15();
    push_bytes(&mut buf, &lit);
    let t = u64_text(r.sqft_lot15);
    push_bytes(&mut buf, &t);
    let lit = bytes_rk_month();
    push_bytes(&mut buf, &lit);
    let t = u64_text(r.month);
    push_bytes(&mut buf, &t);
    let lit = bytes_rk_year();
    push_bytes(&mut buf, &lit);
    let t = u64_text(r.year);
    push_bytes(&mut buf, &t);
    buf.push(0x7du8);
    proof {
        assert(buf@ =~= spec_record_text(r@));
    }
    buf
}

} // verus!
