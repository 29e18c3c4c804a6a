use vstd::prelude::*;

use crate::errors::StartupError;
use crate::is_hex_digit;
use crate::literals::{bytes_http_prefix, bytes_https_prefix, lit_http_prefix, lit_https_prefix};

verus! {

/// The first bytes of `s` spell `p`.
pub open spec fn starts_with(s: Seq<u8>, p: Seq<u8>) -> bool {
    &&& s.len() >= p.len()
    &&& s.subrange(0, p.len() as int) == p
}

/// A syntactically well-formed contract address: `0x` followed by exactly
/// 40 hexadecimal digits.
pub open spec fn is_contract_address(s: Seq<u8>) -> bool {
    &&& s.len() == 42
    &&& s[0] == 0x30u8
    &&& s[1] == 0x78u8
    &&& forall|i: int| 2 <= i < 42 ==> #[trigger] is_hex_digit(s[i])
}

/// A valid startup configuration: the RPC endpoint is an HTTP or HTTPS
/// URL, a signing credential is present, and the contract address is well
/// formed.
pub open spec fn config_wf(rpc_url: Seq<u8>, signing_key: Seq<u8>, contract_address: Seq<u8>) -> bool {
    &&& (starts_with(rpc_url, lit_http_prefix()) || starts_with(rpc_url, lit_https_prefix()))
    &&& signing_key.len() > 0
    &&& is_contract_address(contract_address)
}

/// The validated startup configuration, constructed once at startup and
/// read-only afterwards.
pub struct ServiceConfig {
    pub rpc_url: Vec<u8>,
    pub signing_key: Vec<u8>,
    pub contract_address: Vec<u8>,
}

/// The configuration invariant carried by a constructed value.
pub open spec fn service_config_wf(c: ServiceConfig) -> bool {
    config_wf(c.rpc_url@, c.signing_key@, c.contract_address@)
}

/// Checks that the first bytes of `s` spell `p`.
fn check_prefix(s: &Vec<u8>, p: &Vec<u8>) -> (r: bool)
    ensures
        r == starts_with(s@, p@),
{
    if s.len() < p.len() {
        return false;
    }
    let mut i: usize = 0;
    while i < p.len()
        invariant
            0 <= i <= p@.len() <= s@.len(),
            forall|j: int| 0 <= j < i ==> #[trigger] s@[j] == p@[j],
        decreases p@.len() - i,
    {
        if s[i] != p[i] {
            proof {
                assert(s@.subrange(0, p@.len() as int)[i as int] != p@[i as int]);
            }
            return false;
        }
        i = i + 1;
    }
    proof {
        assert(s@.subrange(0, p@.len() as int) =~= p@);
    }
    true
}

/// Checks that a byte string is a well-formed contract address.
pub fn check_contract_address(s: &Vec<u8>) -> (r: bool)
    ensures
        r == is_contract_address(s@),
{
    if s.len() != 42 {
        return false;
    }
    if s[0] != 0x30u8 || s[1] != 0x78u8 {
        return false;
    }
    let mut i: usize = 2;
    while i < 42
        invariant
            2 <= i <= 42,
            s.len() == 42,
            forall|j: int| 2 <= j < i ==> #[trigger] is_hex_digit(s@[j]),
        decreases 42 - i,
    {
        let b = s[i];
        let ok = (0x30u8 <= b && b <= 0x39u8) || (0x61u8 <= b && b <= 0x66u8)
            || (0x41u8 <= b && b <= 0x46u8);
        if !ok {
            proof {
                assert(!is_hex_digit(s@[i as int]));
            }
            return false;
        }
        i = i + 1;
    }
    true
}

/// Validates the startup configuration. Success is owed exactly when the
/// endpoint URL carries an HTTP or HTTPS scheme, the signing credential is
/// non-empty and the contract address is well formed; otherwise startup
/// must fail with `ConfigurationInvalid` before any traffic is served.
pub fn validate_config(rpc_url: Vec<u8>, signing_key: Vec<u8>, contract_address: Vec<u8>) -> (r:
    Result<ServiceConfig, StartupError>)
    ensures
        (match r {
            Ok(c) => {
                &&& config_wf(rpc_url@, signing_key@, contract_address@)
                &&& c.rpc_url@ == rpc_url@
                &&& c.signing_key@ == signing_key@
                &&& c.contract_address@ == contract_address@
                &&& service_config_wf(c)
            },
            Err(e) => {
                &&& !config_wf(rpc_url@, signing_key@, contract_address@)
                &&& e == StartupError::ConfigurationInvalid
            },
        }),
{
    let http = bytes_http_prefix();
    let https = bytes_https_prefix();
    let url_ok = check_prefix(&rpc_url, &http) || check_prefix(&rpc_url, &https);
    let key_ok = signing_key.len() > 0;
    let addr_ok = check_contract_address(&contract_address);
    if url_ok && key_ok && addr_ok {
        Ok(ServiceConfig { rpc_url, signing_key, contract_address })
    } else {
        Err(StartupError::ConfigurationInvalid)
    }
}

} // verus!
