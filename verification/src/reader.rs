use vstd::prelude::*;

use crate::oracle::{is_json_text, parse_json};

verus! {

/// The read-path result for one token: the token identifier and the
/// on-chain metadata text, kept only when that text is a valid JSON
/// document. `None` stands for the empty metadata object that the read
/// endpoint serves when the stored text does not parse.
pub struct TokenMetadata {
    pub token_id: u64,
    pub metadata_json: Option<Vec<u8>>,
}

/// Interprets the string fetched from the contract's metadata lookup for a
/// token: valid JSON is kept as is; anything else becomes the empty
/// metadata object rather than a failure of the whole read.
pub fn read_token_metadata(token_id: u64, uri: Vec<u8>) -> (r: TokenMetadata)
    ensures
        r.token_id == token_id,
        is_json_text(uri@) ==> (match r.metadata_json {
            Some(m) => m@ == uri@,
            None => false,
        }),
        !is_json_text(uri@) ==> r.metadata_json is None,
{
    let valid = parse_json(&uri).is_some();
    if valid {
        TokenMetadata { token_id, metadata_json: Some(uri) }
    } else {
        TokenMetadata { token_id, metadata_json: None }
    }
}

} // verus!
