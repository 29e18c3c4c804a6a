//! A minting orchestration service: given a structured property record, it
//! obtains a price estimate from an external prediction service, assembles a
//! canonical metadata document carrying that price, and sequences the
//! two-phase submission of a mint transaction to a blockchain contract. A
//! read path interprets previously minted metadata by token identifier.
//!
//! The library holds the request logic as verified state machines and pure
//! transforms over plain byte values; the network, the JSON-RPC client and
//! the HTTP front door live outside it and drive these functions.

pub mod builder;
pub mod config;
pub mod errors;
pub mod laws;
pub mod literals;
pub mod metadata;
pub mod number;
pub mod oracle;
pub mod orchestrator;
pub mod parser;
pub mod property;
pub mod reader;
pub mod submit;

use vstd::prelude::*;

verus! {

/// True when the bytes spell a finalized transaction identifier: `0x`
/// followed by exactly 64 hexadecimal digits.
pub open spec fn is_tx_hash(s: Seq<u8>) -> bool {
    &&& s.len() == 66
    &&& s[0] == 0x30u8
    &&& s[1] == 0x78u8
    &&& forall|i: int| 2 <= i < 66 ==> #[trigger] is_hex_digit(s[i])
}

/// A hexadecimal digit in ASCII: 0-9, a-f or A-F.
pub open spec fn is_hex_digit(b: u8) -> bool {
    ||| 0x30u8 <= b <= 0x39u8
    ||| 0x61u8 <= b <= 0x66u8
    ||| 0x41u8 <= b <= 0x46u8
}

/// Checks that a byte string is a well-formed transaction identifier.
pub fn check_tx_hash(s: &Vec<u8>) -> (r: bool)
    ensures
        r == is_tx_hash(s@),
{
    if s.len() != 66 {
        return false;
    }
    if s[0] != 0x30u8 || s[1] != 0x78u8 {
        return false;
    }
    let mut i: usize = 2;
    while i < 66
        invariant
            2 <= i <= 66,
            s.len() == 66,
            forall|j: int| 2 <= j < i ==> #[trigger] is_hex_digit(s@[j]),
        decreases 66 - i,
    {
        let b = s[i];
        let ok = (0x30u8 <= b && b <= 0x39u8) || (0x61u8 <= b && b <= 0x66u8)
            || (0x41u8 <= b && b <= 0x46u8);
        if !ok {
            assert(!is_hex_digit(s@[i as int]));
            return false;
        }
        i = i + 1;
    }
    true
}

} // verus!
