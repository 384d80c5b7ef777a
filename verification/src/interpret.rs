//! The response interpreter: decides read and write access from a probe's
//! transport outcome, the HTTP status, and the provider-specific marker in
//! the response body.

use vstd::prelude::*;
use crate::classify::Provider;
use crate::text::{has_substring, str_contains};

verus! {

/// An HTTP response as the interpreter sees it: status code and body text.
#[derive(Clone, Debug)]
pub struct HttpResponse {
    pub status: u16,
    pub body: String,
}

/// The mathematical value of an `HttpResponse`.
pub struct SpecHttpResponse {
    pub status: u16,
    pub body: Seq<char>,
}

impl View for HttpResponse {
    type V = SpecHttpResponse;

    open spec fn view(&self) -> SpecHttpResponse {
        SpecHttpResponse { status: self.status, body: self.body@ }
    }
}

/// The view of one probe's transport outcome: `None` when the request
/// failed at the transport level (connection error, DNS failure, timeout).
pub open spec fn outcome_view(r: Option<HttpResponse>) -> Option<SpecHttpResponse> {
    match r {
        Some(resp) => Some(resp@),
        None => None,
    }
}

/// A status code in the HTTP success range.
pub open spec fn spec_success(status: u16) -> bool {
    200 <= status < 300
}

/// The provider-specific marker whose presence in a successful response
/// body shows that a bucket listing was returned. An `Unknown` provider has
/// no recognized dialect, so no body is ever trusted as a listing.
pub open spec fn spec_listing_returned(p: Provider, body: Seq<char>) -> bool {
    match p {
        Provider::AwsS3 | Provider::DigitalOceanSpaces | Provider::LinodeObjStorage
            => has_substring(body, "<ListBucketResult"@),
        Provider::AzureBlob => has_substring(body, "EnumerationResults"@),
        Provider::GcpStorage => has_substring(body, "ListBucketResult"@) || has_substring(
            body,
            "xml"@,
        ),
        Provider::Unknown => false,
    }
}

/// Read access: the read probe reached the server, the status was in the
/// success range, and the body carries the provider's listing marker.
pub open spec fn spec_readable(p: Provider, r: Option<SpecHttpResponse>) -> bool {
    match r {
        Some(resp) => spec_success(resp.status) && spec_listing_returned(p, resp.body),
        None => false,
    }
}

/// Write access: the write probe reached the server and the status was in
/// the success range. The body is not inspected.
pub open spec fn spec_writable(r: Option<SpecHttpResponse>) -> bool {
    match r {
        Some(resp) => spec_success(resp.status),
        None => false,
    }
}

fn is_success(status: u16) -> (r: bool)
    ensures
        r == spec_success(status),
{
    200 <= status && status < 300
}

/// Decide read access from a read probe's transport outcome.
pub fn is_readable(p: Provider, r: &Option<HttpResponse>) -> (b: bool)
    ensures
        b == spec_readable(p, outcome_view(*r)),
{
    match r {
        None => false,
        Some(resp) => {
            if !is_success(resp.status) {
                false
            } else {
                match p {
                    Provider::AwsS3 | Provider::DigitalOceanSpaces
                        | Provider::LinodeObjStorage => str_contains(
                        resp.body.as_str(),
                        "<ListBucketResult",
                    ),
                    Provider::AzureBlob => str_contains(resp.body.as_str(), "EnumerationResults"),
                    Provider::GcpStorage => str_contains(resp.body.as_str(), "ListBucketResult")
                        || str_contains(resp.body.as_str(), "xml"),
                    Provider::Unknown => false,
                }
            }
        },
    }
}

/// Decide write access from a write probe's transport outcome.
pub fn is_writable(r: &Option<HttpResponse>) -> (b: bool)
    ensures
        b == spec_writable(outcome_view(*r)),
{
    match r {
        None => false,
        Some(resp) => is_success(resp.status),
    }
}

/// A response outside the success range is never read access and never
/// write access, whatever its body says.
pub proof fn lemma_non_success_no_access(p: Provider, resp: SpecHttpResponse)
    requires
        !spec_success(resp.status),
    ensures
        !spec_readable(p, Some(resp)),
        !spec_writable(Some(resp)),
{
}

/// A probe that fails at the transport level grants neither capability.
pub proof fn lemma_transport_failure_no_access(p: Provider)
    ensures
        !spec_readable(p, None::<SpecHttpResponse>),
        !spec_writable(None::<SpecHttpResponse>),
{
}

/// An `Unknown` provider is never reported readable: with no recognized
/// dialect, no positive signal is trusted.
pub proof fn lemma_unknown_never_readable(r: Option<SpecHttpResponse>)
    ensures
        !spec_readable(Provider::Unknown, r),
{
}

} // verus!
