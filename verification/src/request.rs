//! Provider adapters and the request each one prescribes.
//!
//! Two upstream WHOIS providers are known, each with its own wire contract:
//! one takes a form-encoded POST with a single `domain` field, the other a GET
//! whose URL carries the domain value interpolated literally (not
//! percent-encoded — deliberately kept) into a `domainName` query parameter.
//! Exactly one provider is active per configuration; the choice is an
//! explicit value, not a runtime fallback. No validation is performed on the
//! domain query: any string, empty or not, is forwarded as-is.

use vstd::prelude::*;
use vstd::string::StringExecFns;

verus! {

/// The HTTP method an adapter uses.
#[derive(Clone, Copy, Debug, PartialEq, Eq, Structural)]
pub enum HttpMethod {
    Post,
    Get,
}

/// One upstream WHOIS provider, chosen at configuration time.
#[derive(Clone, Copy, Debug, PartialEq, Eq, Structural)]
pub enum Provider {
    /// Form-POST style: POST to a fixed endpoint, the domain in a form field.
    FormPost,
    /// Query-GET style: GET with the domain interpolated into the URL.
    QueryGet,
}

/// Endpoint of the form-POST provider.
pub open spec fn form_post_endpoint() -> Seq<char> {
    "https://api.uutool.cn/whois/info/"@
}

/// URL head of the query-GET provider; the domain value follows it literally.
pub open spec fn query_get_url_head() -> Seq<char> {
    "https://api.uutool.cn/whois/api_whois_info?domainName="@
}

/// The one header value both adapters send, as `Accept-Language`.
pub open spec fn accept_language_value() -> Seq<char> {
    "zh-CN,zh;q=0.9,en;q=0.8,en-GB;q=0.7,en-US;q=0.6"@
}

/// Name of the single form field of the form-POST provider.
pub open spec fn form_field_name() -> Seq<char> {
    "domain"@
}

/// Everything the transport needs to issue one upstream request: the method,
/// the full URL, the `Accept-Language` header value, and the form fields of
/// the body (empty for a GET).
pub struct WhoisRequest {
    pub method: HttpMethod,
    pub url: String,
    pub accept_language: String,
    pub form_fields: Vec<(String, String)>,
}

impl WhoisRequest {
    /// The exact request shape `provider` prescribes for `domain`.
    pub open spec fn is_for(self, provider: Provider, domain: Seq<char>) -> bool {
        &&& self.accept_language@ == accept_language_value()
        &&& match provider {
            Provider::FormPost => {
                &&& self.method == HttpMethod::Post
                &&& self.url@ == form_post_endpoint()
                &&& self.form_fields@.len() == 1
                &&& self.form_fields@[0].0@ == form_field_name()
                &&& self.form_fields@[0].1@ == domain
            },
            Provider::QueryGet => {
                &&& self.method == HttpMethod::Get
                &&& self.url@ == query_get_url_head() + domain
                &&& self.form_fields@.len() == 0
            },
        }
    }
}

impl Provider {
    /// Build the request this provider prescribes for `domain`.
    ///
    /// The query-GET URL reproduces `domain` literally, without
    /// percent-encoding.
    pub fn build_request(&self, domain: &str) -> (r: WhoisRequest)
        ensures
            r.is_for(*self, domain@),
    {
        let accept_language = String::from_str("zh-CN,zh;q=0.9,en;q=0.8,en-GB;q=0.7,en-US;q=0.6");
        match self {
            Provider::FormPost => {
                let mut form_fields: Vec<(String, String)> = Vec::new();
                form_fields.push((String::from_str("domain"), String::from_str(domain)));
                WhoisRequest {
                    method: HttpMethod::Post,
                    url: String::from_str("https://api.uutool.cn/whois/info/"),
                    accept_language,
                    form_fields,
                }
            },
            Provider::QueryGet => WhoisRequest {
                method: HttpMethod::Get,
                url: String::from_str("https://api.uutool.cn/whois/api_whois_info?domainName=")
                    .concat(domain),
                accept_language,
                form_fields: Vec::new(),
            },
        }
    }
}

} // verus!
