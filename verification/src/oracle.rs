use vstd::prelude::*;

use crate::errors::MintError;
use crate::number::{
    decimal_wf, parse_decimal, price_wf, spec_parse_decimal, Decimal, DecimalModel,
};

verus! {

/// Opaque carrier for a parsed JSON document of the outside JSON library.
#[verifier::external_type_specification]
#[verifier::external_body]
pub struct ExJsonValue(serde_json::Value);

/// Whether a byte string is a valid JSON document, as the outside JSON
/// library judges it.
pub uninterp spec fn is_json_text(s: Seq<u8>) -> bool;

/// Relies on `serde_json::from_slice::<serde_json::Value>`: parsing
/// succeeds exactly when the bytes are a valid JSON document, and depends
/// on the bytes alone.
#[verifier::external_body]
pub fn parse_json(body: &Vec<u8>) -> (r: Option<serde_json::Value>)
    ensures
        r is Some <==> is_json_text(body@),
{
    serde_json::from_slice::<serde_json::Value>(body.as_slice()).ok()
}

/// Relies on `serde_json::Value::get`, `serde_json::Value::as_f64` and the
/// standard `Display` of the numeric value, which always writes plain
/// decimal notation, never an exponent: yields the decimal text of the
/// document's `price` member, or nothing when there is no such member or it
/// is not a number.
#[verifier::external_body]
fn price_field_text(v: &serde_json::Value) -> (r: Option<Vec<u8>>)
{
    match v.get("price").and_then(serde_json::Value::as_f64) {
        Some(n) => Some(format!("{}", n).into_bytes()),
        None => None,
    }
}

/// Mathematical model of the outcome of one price request.
pub ghost enum OracleOutcomeModel {
    Unreachable,
    NotJson,
    NoPrice,
    PriceText(Seq<u8>),
}

/// The outcome of one price request: the exchange could not be completed,
/// the response body was not JSON, the body parsed but had no numeric
/// `price` member, or the member's value in plain decimal text.
pub enum OracleOutcome {
    Unreachable,
    NotJson,
    NoPrice,
    PriceText(Vec<u8>),
}

impl View for OracleOutcome {
    type V = OracleOutcomeModel;

    open spec fn view(&self) -> OracleOutcomeModel {
        match self {
            OracleOutcome::Unreachable => OracleOutcomeModel::Unreachable,
            OracleOutcome::NotJson => OracleOutcomeModel::NotJson,
            OracleOutcome::NoPrice => OracleOutcomeModel::NoPrice,
            OracleOutcome::PriceText(t) => OracleOutcomeModel::PriceText(t@),
        }
    }
}

/// Sorts a received response body into its outcome class. The transport
/// itself is outside this function: a body is only classified here.
pub fn classify_price_body(body: &Vec<u8>) -> (r: OracleOutcome)
    ensures
        !is_json_text(body@) ==> r@ == OracleOutcomeModel::NotJson,
        is_json_text(body@) ==> !(r@ is NotJson) && !(r@ is Unreachable),
{
    match parse_json(body) {
        None => OracleOutcome::NotJson,
        Some(v) => match price_field_text(&v) {
            None => OracleOutcome::NoPrice,
            Some(t) => OracleOutcome::PriceText(t),
        },
    }
}

/// A parsed price put into canonical form: a price always shows a
/// fractional part, so a whole-number price gains the fraction `0`.
pub open spec fn spec_canonical_price(d: DecimalModel) -> DecimalModel {
    if d.frac_digits.len() == 0 {
        DecimalModel { negative: d.negative, int_digits: d.int_digits, frac_digits: seq![0x30u8] }
    } else {
        d
    }
}

/// The price estimate owed for each outcome of the price request, or the
/// error class owed instead: an incomplete exchange is `UpstreamUnavailable`,
/// a non-JSON body is `UpstreamProtocolError`, and a missing `price` member
/// or one that is not a valid non-negative number is `UpstreamDataMissing`.
pub open spec fn spec_price_step(o: OracleOutcomeModel) -> Result<DecimalModel, MintError> {
    match o {
        OracleOutcomeModel::Unreachable => Err(MintError::UpstreamUnavailable),
        OracleOutcomeModel::NotJson => Err(MintError::UpstreamProtocolError),
        OracleOutcomeModel::NoPrice => Err(MintError::UpstreamDataMissing),
        OracleOutcomeModel::PriceText(t) => match spec_parse_decimal(t) {
            Some(d) => if d.negative {
                Err(MintError::UpstreamDataMissing)
            } else {
                Ok(spec_canonical_price(d))
            },
            None => Err(MintError::UpstreamDataMissing),
        },
    }
}

/// A canonical price built from a well-formed, non-negative decimal is a
/// valid price estimate.
pub proof fn lemma_canonical_price_wf(d: DecimalModel)
    requires
        decimal_wf(d),
        !d.negative,
    ensures
        price_wf(spec_canonical_price(d)),
{
}

/// Turns the outcome of one price request into a price estimate or the
/// error class owed for it, exactly as `spec_price_step` says.
pub fn price_step(o: OracleOutcome) -> (r: Result<Decimal, MintError>)
    ensures
        match r {
            Ok(p) => spec_price_step(o@) == Ok::<DecimalModel, MintError>(p@) && price_wf(p@),
            Err(e) => spec_price_step(o@) == Err::<DecimalModel, MintError>(e),
        },
{
    match o {
        OracleOutcome::Unreachable => Err(MintError::UpstreamUnavailable),
        OracleOutcome::NotJson => Err(MintError::UpstreamProtocolError),
        OracleOutcome::NoPrice => Err(MintError::UpstreamDataMissing),
        OracleOutcome::PriceText(t) => match parse_decimal(&t) {
            Some(d) => {
                if d.negative {
                    Err(MintError::UpstreamDataMissing)
                } else {
                    proof {
                        crate::number::lemma_parse_decimal_wf(t@);
                        lemma_canonical_price_wf(d@);
                    }
                    if d.frac_digits.len() == 0 {
                        let canon = Decimal {
                            negative: d.negative,
                            int_digits: d.int_digits,
                            frac_digits: vec![0x30u8],
                        };
                        proof {
                            assert(canon@.frac_digits =~= seq![0x30u8]);
                        }
                        Ok(canon)
                    } else {
                        Ok(d)
                    }
                }
            },
            None => Err(MintError::UpstreamDataMissing),
        },
    }
}

} // verus!
