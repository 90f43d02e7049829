//! DNS provider client core: the request lines a call needs (URL and
//! authorization header) and the interpretation of the provider's response
//! envelopes. The HTTP transport itself lives outside the library; it hands
//! decoded envelopes back in.

use vstd::prelude::*;
use vstd::string::StringExecFns;
use crate::errors::DdnsError;
use crate::errors::DdnsErrorV;
use crate::records::ApiError;
use crate::records::ApiErrorV;
use crate::records::DnsRecord;
use crate::records::DnsRecordV;
use crate::records::api_error_views;
use crate::records::record_views;

verus! {

/// The provider's reply to a list request: the common envelope around an
/// array of records.
pub struct ListEnvelope {
    pub success: bool,
    pub result: Option<Vec<DnsRecord>>,
    pub errors: Option<Vec<ApiError>>,
}

/// Ghost model of a `ListEnvelope`.
pub ghost struct ListEnvelopeV {
    pub success: bool,
    pub result: Option<Seq<DnsRecordV>>,
    pub errors: Option<Seq<ApiErrorV>>,
}

impl View for ListEnvelope {
    type V = ListEnvelopeV;

    open spec fn view(&self) -> ListEnvelopeV {
        ListEnvelopeV {
            success: self.success,
            result: match self.result {
                Some(ref v) => Some(record_views(v@)),
                None => None,
            },
            errors: match self.errors {
                Some(ref v) => Some(api_error_views(v@)),
                None => None,
            },
        }
    }
}

/// The provider's reply to a create or update request: the common envelope
/// around a single record.
pub struct RecordEnvelope {
    pub success: bool,
    pub result: Option<DnsRecord>,
    pub errors: Option<Vec<ApiError>>,
}

/// Ghost model of a `RecordEnvelope`.
pub ghost struct RecordEnvelopeV {
    pub success: bool,
    pub result: Option<DnsRecordV>,
    pub errors: Option<Seq<ApiErrorV>>,
}

impl View for RecordEnvelope {
    type V = RecordEnvelopeV;

    open spec fn view(&self) -> RecordEnvelopeV {
        RecordEnvelopeV {
            success: self.success,
            result: match self.result {
                Some(ref r) => Some(r@),
                None => None,
            },
            errors: match self.errors {
                Some(ref v) => Some(api_error_views(v@)),
                None => None,
            },
        }
    }
}

/// What a list envelope means: the record array on success (a missing
/// `result` counts as empty), the decoded error list otherwise.
pub open spec fn spec_interpret_list(env: ListEnvelopeV) -> Result<Seq<DnsRecordV>, DdnsErrorV> {
    if !env.success {
        Err(DdnsErrorV::ProviderApi(match env.errors {
            Some(es) => es,
            None => Seq::empty(),
        }))
    } else {
        Ok(
            match env.result {
                Some(rs) => rs,
                None => Seq::empty(),
            },
        )
    }
}

/// Decides a list reply: a reply is accepted only when `success` is true;
/// its missing `result` is the empty array.
pub fn interpret_list(env: ListEnvelope) -> (r: Result<Vec<DnsRecord>, DdnsError>)
    ensures
        ({
            let d = spec_interpret_list(env@);
            match r {
                Ok(records) => d is Ok && record_views(records@) == d->Ok_0,
                Err(e) => d is Err && e@ == d->Err_0,
            }
        }),
{
    if !env.success {
        let es = match env.errors {
            Some(es) => es,
            None => Vec::new(),
        };
        proof {
            assert(api_error_views(Seq::<ApiError>::empty()) =~= Seq::<ApiErrorV>::empty());
        }
        Err(DdnsError::ProviderApi(es))
    } else {
        let rs = match env.result {
            Some(rs) => rs,
            None => Vec::new(),
        };
        proof {
            assert(record_views(Seq::<DnsRecord>::empty()) =~= Seq::<DnsRecordV>::empty());
        }
        Ok(rs)
    }
}

/// What a single-record envelope means: the record on success,
/// `MissingResult` when success came without one, the decoded error list on
/// failure.
pub open spec fn spec_interpret_single(env: RecordEnvelopeV) -> Result<DnsRecordV, DdnsErrorV> {
    if !env.success {
        Err(DdnsErrorV::ProviderApi(match env.errors {
            Some(es) => es,
            None => Seq::empty(),
        }))
    } else {
        match env.result {
            Some(record) => Ok(record),
            None => Err(DdnsErrorV::MissingResult),
        }
    }
}

/// Decides a create/update reply: success must come with a result record.
pub fn interpret_single(env: RecordEnvelope) -> (r: Result<DnsRecord, DdnsError>)
    ensures
        ({
            let d = spec_interpret_single(env@);
            match r {
                Ok(record) => d is Ok && record@ == d->Ok_0,
                Err(e) => d is Err && e@ == d->Err_0,
            }
        }),
{
    if !env.success {
        let es = match env.errors {
            Some(es) => es,
            None => Vec::new(),
        };
        proof {
            assert(api_error_views(Seq::<ApiError>::empty()) =~= Seq::<ApiErrorV>::empty());
        }
        Err(DdnsError::ProviderApi(es))
    } else {
        match env.result {
            Some(record) => Ok(record),
            None => Err(DdnsError::MissingResult),
        }
    }
}

/// The records collection URL of a zone, target of list (GET) and create
/// (POST) requests.
pub fn records_url(zone_id: &str) -> (r: String)
    ensures
        r@ == "https://api.cloudflare.com/client/v4/zones/"@ + zone_id@ + "/dns_records"@,
{
    let mut url = String::from_str("https://api.cloudflare.com/client/v4/zones/");
    url.append(zone_id);
    url.append("/dns_records");
    url
}

/// The URL of one record, target of update (PATCH) requests.
pub fn record_url(zone_id: &str, record_id: &str) -> (r: String)
    ensures
        r@ == "https://api.cloudflare.com/client/v4/zones/"@ + zone_id@ + "/dns_records/"@
            + record_id@,
{
    let mut url = String::from_str("https://api.cloudflare.com/client/v4/zones/");
    url.append(zone_id);
    url.append("/dns_records/");
    url.append(record_id);
    url
}

/// The value of the `Authorization` header carried by every provider
/// request. The token flows here and nowhere else.
pub fn auth_header_value(api_token: &str) -> (r: String)
    ensures
        r@ == "Bearer "@ + api_token@,
{
    let mut h = String::from_str("Bearer ");
    h.append(api_token);
    h
}

} // verus!
