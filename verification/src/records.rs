//! Data model: record families, declared records, provider records, and the
//! payload shape sent on create and update.

use vstd::prelude::*;

verus! {

/// The address family of a DNS record: `A` for IPv4, `AAAA` for IPv6.
#[derive(Clone, Copy, PartialEq, Eq, Structural, Debug)]
pub enum Family {
    A,
    AAAA,
}

impl Family {
    /// The wire text of the family, as it appears in record types and in
    /// provider requests.
    pub fn text(self) -> (r: &'static str)
        ensures
            self == Family::A ==> r@ == "A"@,
            self == Family::AAAA ==> r@ == "AAAA"@,
    {
        match self {
            Family::A => "A",
            Family::AAAA => "AAAA",
        }
    }
}

/// One declared record from the configuration: the user's intent that a
/// record of this name and family exist and carry the current public IP.
pub struct RecordConfig {
    pub name: String,
    pub family: Family,
}

/// Ghost model of a `RecordConfig`.
pub ghost struct RecordConfigV {
    pub name: Seq<char>,
    pub family: Family,
}

impl View for RecordConfig {
    type V = RecordConfigV;

    open spec fn view(&self) -> RecordConfigV {
        RecordConfigV { name: self.name@, family: self.family }
    }
}

impl RecordConfig {
    /// A field-by-field copy with a known result.
    pub fn duplicate(&self) -> (r: Self)
        ensures
            r@ == self@,
    {
        RecordConfig { name: self.name.clone(), family: self.family }
    }
}

/// A record as the provider reports it. `id` is present on listed records
/// and absent on records being submitted for creation; `ttl == 1` is the
/// provider-automatic sentinel.
pub struct DnsRecord {
    pub id: Option<String>,
    pub name: String,
    pub family: Family,
    pub content: String,
    pub ttl: u32,
    pub proxied: bool,
}

/// Ghost model of a `DnsRecord`.
pub ghost struct DnsRecordV {
    pub id: Option<Seq<char>>,
    pub name: Seq<char>,
    pub family: Family,
    pub content: Seq<char>,
    pub ttl: u32,
    pub proxied: bool,
}

impl View for DnsRecord {
    type V = DnsRecordV;

    open spec fn view(&self) -> DnsRecordV {
        DnsRecordV {
            id: match self.id {
                Some(ref s) => Some(s@),
                None => None,
            },
            name: self.name@,
            family: self.family,
            content: self.content@,
            ttl: self.ttl,
            proxied: self.proxied,
        }
    }
}

/// The ghost models of a sequence of provider records.
pub open spec fn record_views(s: Seq<DnsRecord>) -> Seq<DnsRecordV> {
    s.map_values(|r: DnsRecord| r@)
}

/// The body shape sent to the provider on create and update: no id, and the
/// fixed policy `ttl = 1` (provider-automatic), `proxied = false`.
pub struct RecordPayload {
    pub name: String,
    pub family: Family,
    pub content: String,
    pub ttl: u32,
    pub proxied: bool,
}

/// Ghost model of a `RecordPayload`.
pub ghost struct RecordPayloadV {
    pub name: Seq<char>,
    pub family: Family,
    pub content: Seq<char>,
    pub ttl: u32,
    pub proxied: bool,
}

impl View for RecordPayload {
    type V = RecordPayloadV;

    open spec fn view(&self) -> RecordPayloadV {
        RecordPayloadV {
            name: self.name@,
            family: self.family,
            content: self.content@,
            ttl: self.ttl,
            proxied: self.proxied,
        }
    }
}

/// The payload this system writes for a given intent and observed address.
pub open spec fn payload_of(name: Seq<char>, family: Family, content: Seq<char>) -> RecordPayloadV {
    RecordPayloadV { name, family, content, ttl: 1u32, proxied: false }
}

impl RecordPayload {
    /// Builds the outbound body for (name, family, content) under the fixed
    /// ttl/proxied policy.
    pub fn build(name: &String, family: Family, content: &String) -> (r: Self)
        ensures
            r@ == payload_of(name@, family, content@),
    {
        RecordPayload {
            name: name.clone(),
            family,
            content: content.clone(),
            ttl: 1,
            proxied: false,
        }
    }

    /// A field-by-field copy with a known result.
    pub fn duplicate(&self) -> (r: Self)
        ensures
            r@ == self@,
    {
        RecordPayload {
            name: self.name.clone(),
            family: self.family,
            content: self.content.clone(),
            ttl: self.ttl,
            proxied: self.proxied,
        }
    }
}

/// One error object from the provider's response envelope.
#[derive(Debug)]
pub struct ApiError {
    pub code: u32,
    pub message: String,
}

/// Ghost model of an `ApiError`.
pub ghost struct ApiErrorV {
    pub code: u32,
    pub message: Seq<char>,
}

impl View for ApiError {
    type V = ApiErrorV;

    open spec fn view(&self) -> ApiErrorV {
        ApiErrorV { code: self.code, message: self.message@ }
    }
}

/// The ghost models of a sequence of provider error objects.
pub open spec fn api_error_views(s: Seq<ApiError>) -> Seq<ApiErrorV> {
    s.map_values(|e: ApiError| e@)
}

impl ApiError {
    /// A field-by-field copy with a known result.
    pub fn duplicate(&self) -> (r: Self)
        ensures
            r@ == self@,
    {
        ApiError { code: self.code, message: self.message.clone() }
    }
}

} // verus!
