//! The error taxonomy of a run. Every kind is fatal: the reconciler halts on
//! the first one and later records are not touched.

use vstd::prelude::*;
use crate::records::ApiError;
use crate::records::ApiErrorV;
use crate::records::api_error_views;

verus! {

/// Why a run stopped.
#[derive(Debug)]
pub enum DdnsError {
    /// The configuration document was missing, unreadable, or malformed.
    /// Carries the loader's message.
    ConfigParse(String),
    /// A declared record names a type outside {A, AAAA}. Carries the
    /// offending type text.
    UnsupportedFamily(String),
    /// The HTTP request to the public-IP endpoint failed. Carries the
    /// transport's message.
    ProbeTransport(String),
    /// The public-IP endpoint answered with a body that is empty once
    /// trimmed.
    EmptyResponse,
    /// An HTTP-level failure talking to the provider (connection, TLS,
    /// decode). Carries the transport's message.
    ProviderTransport(String),
    /// The provider replied with `success == false`. Carries the decoded
    /// error list (possibly empty).
    ProviderApi(Vec<ApiError>),
    /// The provider replied `success == true` to a mutation but sent no
    /// result record.
    MissingResult,
    /// The provider listed a record without an id where an update was
    /// required.
    MissingRecordId,
}

/// Ghost model of a `DdnsError`.
pub ghost enum DdnsErrorV {
    ConfigParse(Seq<char>),
    UnsupportedFamily(Seq<char>),
    ProbeTransport(Seq<char>),
    EmptyResponse,
    ProviderTransport(Seq<char>),
    ProviderApi(Seq<ApiErrorV>),
    MissingResult,
    MissingRecordId,
}

impl View for DdnsError {
    type V = DdnsErrorV;

    open spec fn view(&self) -> DdnsErrorV {
        match self {
            DdnsError::ConfigParse(m) => DdnsErrorV::ConfigParse(m@),
            DdnsError::UnsupportedFamily(t) => DdnsErrorV::UnsupportedFamily(t@),
            DdnsError::ProbeTransport(m) => DdnsErrorV::ProbeTransport(m@),
            DdnsError::EmptyResponse => DdnsErrorV::EmptyResponse,
            DdnsError::ProviderTransport(m) => DdnsErrorV::ProviderTransport(m@),
            DdnsError::ProviderApi(es) => DdnsErrorV::ProviderApi(api_error_views(es@)),
            DdnsError::MissingResult => DdnsErrorV::MissingResult,
            DdnsError::MissingRecordId => DdnsErrorV::MissingRecordId,
        }
    }
}

impl DdnsError {
    /// The name of the failure kind, as the diagnostic line reports it.
    pub fn kind_text(&self) -> (r: &'static str)
        ensures
            self@ is ConfigParse ==> r@ == "ConfigParseError"@,
            self@ is UnsupportedFamily ==> r@ == "UnsupportedFamily"@,
            self@ is ProbeTransport ==> r@ == "ProbeTransportError"@,
            self@ is EmptyResponse ==> r@ == "EmptyResponse"@,
            self@ is ProviderTransport ==> r@ == "ProviderTransportError"@,
            self@ is ProviderApi ==> r@ == "ProviderApiError"@,
            self@ is MissingResult ==> r@ == "MissingResult"@,
            self@ is MissingRecordId ==> r@ == "MissingRecordId"@,
    {
        match self {
            DdnsError::ConfigParse(_) => "ConfigParseError",
            DdnsError::UnsupportedFamily(_) => "UnsupportedFamily",
            DdnsError::ProbeTransport(_) => "ProbeTransportError",
            DdnsError::EmptyResponse => "EmptyResponse",
            DdnsError::ProviderTransport(_) => "ProviderTransportError",
            DdnsError::ProviderApi(_) => "ProviderApiError",
            DdnsError::MissingResult => "MissingResult",
            DdnsError::MissingRecordId => "MissingRecordId",
        }
    }

    /// A field-by-field copy with a known result.
    pub fn duplicate(&self) -> (r: Self)
        ensures
            r@ == self@,
    {
        match self {
            DdnsError::ConfigParse(m) => DdnsError::ConfigParse(m.clone()),
            DdnsError::UnsupportedFamily(t) => DdnsError::UnsupportedFamily(t.clone()),
            DdnsError::ProbeTransport(m) => DdnsError::ProbeTransport(m.clone()),
            DdnsError::EmptyResponse => DdnsError::EmptyResponse,
            DdnsError::ProviderTransport(m) => DdnsError::ProviderTransport(m.clone()),
            DdnsError::ProviderApi(es) => {
                let mut out: Vec<ApiError> = Vec::new();
                let mut i: usize = 0;
                while i < es.len()
                    invariant
                        i <= es.len(),
                        out@.len() == i,
                        forall|j: int| 0 <= j < i ==> out@[j]@ == es@[j]@,
                    decreases es.len() - i,
                {
                    out.push(es[i].duplicate());
                    i = i + 1;
                }
                proof {
                    assert(api_error_views(out@) =~= api_error_views(es@));
                }
                DdnsError::ProviderApi(out)
            },
            DdnsError::MissingResult => DdnsError::MissingResult,
            DdnsError::MissingRecordId => DdnsError::MissingRecordId,
        }
    }
}

} // verus!
