//! Public-IP probe: endpoint selection per family, and cleaning of the
//! plain-text response body.

use vstd::prelude::*;
use crate::errors::DdnsError;
use crate::records::Family;
use crate::text::spec_trim;
use crate::text::trim;

verus! {

/// The echo endpoint queried for a family. The endpoints differ per family
/// because a generic one would answer with whichever family the underlying
/// connection happened to use.
pub fn probe_url(family: Family) -> (r: &'static str)
    ensures
        family == Family::A ==> r@ == "https://ipinfo.io/ip"@,
        family == Family::AAAA ==> r@ == "https://ifconfig.me/ip"@,
{
    match family {
        Family::A => "https://ipinfo.io/ip",
        Family::AAAA => "https://ifconfig.me/ip",
    }
}

/// Strips surrounding whitespace from a probe response body and rejects an
/// empty result.
pub fn clean_probe_body(body: &str) -> (r: Result<String, DdnsError>)
    ensures
        ({
            let w = spec_trim(body@);
            match r {
                Ok(ip) => w.len() > 0 && ip@ == w,
                Err(e) => w.len() == 0 && e@ is EmptyResponse,
            }
        }),
{
    let ip = trim(body);
    if ip.as_str().is_empty() {
        Err(DdnsError::EmptyResponse)
    } else {
        Ok(ip)
    }
}

} // verus!
