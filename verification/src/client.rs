//! Provider client mapping: each logical operation against the provider's
//! DNS endpoint as a concrete HTTP request. The embedding program performs
//! the requests; this module only states exactly what is sent.

use vstd::prelude::*;
use crate::encode::{dec_seq, json_payload, json_payload_spec, u64_decimal};
use crate::records::{DesiredRecord, DesiredRecordV};

verus! {

/// The HTTP methods the provider's surface uses.
#[derive(Clone, Copy, Debug, PartialEq, Eq, Structural)]
pub enum HttpMethod {
    Get,
    Post,
    Patch,
    Delete,
}

/// One fully determined request: method, complete URL, the value of the
/// `Authorization` header, and the body, where the operation has one.
pub struct HttpRequest {
    pub method: HttpMethod,
    pub url: String,
    pub authorization: String,
    pub body: Option<String>,
}

/// Mathematical image of an `HttpRequest`.
pub struct HttpRequestV {
    pub method: HttpMethod,
    pub url: Seq<char>,
    pub authorization: Seq<char>,
    pub body: Option<Seq<char>>,
}

impl View for HttpRequest {
    type V = HttpRequestV;

    open spec fn view(&self) -> HttpRequestV {
        HttpRequestV {
            method: self.method,
            url: self.url@,
            authorization: self.authorization@,
            body: match self.body {
                Some(b) => Some(b@),
                None => None,
            },
        }
    }
}

/// The URL of the domain's record collection: list and create go here.
pub open spec fn dns_url_spec(domain: Seq<char>) -> Seq<char> {
    "https://api.omg.lol/address/"@ + domain + "/dns"@
}

/// The URL of one record within the domain: update and delete go here.
pub open spec fn record_url_spec(domain: Seq<char>, id: u64) -> Seq<char> {
    dns_url_spec(domain) + "/"@ + dec_seq(id as nat)
}

/// The value of the `Authorization` header carried by every request.
pub open spec fn bearer_spec(credential: Seq<char>) -> Seq<char> {
    "Bearer "@ + credential
}

fn dns_url(domain: &str) -> (r: String)
    ensures
        r@ == dns_url_spec(domain@),
{
    let mut url = "https://api.omg.lol/address/".to_owned();
    url.append(domain);
    url.append("/dns");
    url
}

fn record_url(domain: &str, id: u64) -> (r: String)
    ensures
        r@ == record_url_spec(domain@, id),
{
    let mut url = dns_url(domain);
    url.append("/");
    let digits = u64_decimal(id);
    url.append(digits.as_str());
    url
}

fn bearer(credential: &str) -> (r: String)
    ensures
        r@ == bearer_spec(credential@),
{
    let mut h = "Bearer ".to_owned();
    h.append(credential);
    h
}

/// The request that lists the domain's records.
pub fn list_request(domain: &str, credential: &str) -> (r: HttpRequest)
    ensures
        r@ == (HttpRequestV {
            method: HttpMethod::Get,
            url: dns_url_spec(domain@),
            authorization: bearer_spec(credential@),
            body: None,
        }),
{
    HttpRequest {
        method: HttpMethod::Get,
        url: dns_url(domain),
        authorization: bearer(credential),
        body: None,
    }
}

/// The request that creates a record with `d`'s type, name and data.
pub fn create_request(domain: &str, credential: &str, d: &DesiredRecord) -> (r: HttpRequest)
    ensures
        r@ == create_request_spec(domain@, credential@, d@),
{
    HttpRequest {
        method: HttpMethod::Post,
        url: dns_url(domain),
        authorization: bearer(credential),
        body: Some(json_payload(d)),
    }
}

/// The request that rewrites the record `id` to `d`'s type, name and data.
pub fn update_request(domain: &str, credential: &str, id: u64, d: &DesiredRecord) -> (r:
    HttpRequest)
    ensures
        r@ == update_request_spec(domain@, credential@, id, d@),
{
    HttpRequest {
        method: HttpMethod::Patch,
        url: record_url(domain, id),
        authorization: bearer(credential),
        body: Some(json_payload(d)),
    }
}

/// The request that deletes the record `id`.
pub fn delete_request(domain: &str, credential: &str, id: u64) -> (r: HttpRequest)
    ensures
        r@ == delete_request_spec(domain@, credential@, id),
{
    HttpRequest {
        method: HttpMethod::Delete,
        url: record_url(domain, id),
        authorization: bearer(credential),
        body: None,
    }
}

/// What `create_request` sends.
pub open spec fn create_request_spec(
    domain: Seq<char>,
    credential: Seq<char>,
    d: DesiredRecordV,
) -> HttpRequestV {
    HttpRequestV {
        method: HttpMethod::Post,
        url: dns_url_spec(domain),
        authorization: bearer_spec(credential),
        body: Some(json_payload_spec(d)),
    }
}

/// What `update_request` sends.
pub open spec fn update_request_spec(
    domain: Seq<char>,
    credential: Seq<char>,
    id: u64,
    d: DesiredRecordV,
) -> HttpRequestV {
    HttpRequestV {
        method: HttpMethod::Patch,
        url: record_url_spec(domain, id),
        authorization: bearer_spec(credential),
        body: Some(json_payload_spec(d)),
    }
}

/// What `delete_request` sends.
pub open spec fn delete_request_spec(domain: Seq<char>, credential: Seq<char>, id: u64) ->
    HttpRequestV {
    HttpRequestV {
        method: HttpMethod::Delete,
        url: record_url_spec(domain, id),
        authorization: bearer_spec(credential),
        body: None,
    }
}

} // verus!
