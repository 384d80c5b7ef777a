//! The URL builder: a pure function from a classified target to the
//! provider-specific read-probe and write-probe request descriptions.

use vstd::prelude::*;
use crate::classify::{Provider, SpecTarget, Target};

verus! {

/// The HTTP method of a probe request.
#[derive(Clone, Copy, PartialEq, Eq, Structural, Debug)]
pub enum ProbeMethod {
    Get,
    Put,
}

/// A fully-determined HTTP request description for one probe. The builder
/// performs no network I/O; a transport layer executes the request.
#[derive(Clone, Debug)]
pub struct ProbeRequest {
    pub method: ProbeMethod,
    pub url: String,
    pub body: Option<String>,
}

/// The mathematical value of a `ProbeRequest`.
pub struct SpecProbeRequest {
    pub method: ProbeMethod,
    pub url: Seq<char>,
    pub body: Option<Seq<char>>,
}

impl View for ProbeRequest {
    type V = SpecProbeRequest;

    open spec fn view(&self) -> SpecProbeRequest {
        SpecProbeRequest {
            method: self.method,
            url: self.url@,
            body: match self.body {
                Some(b) => Some(b@),
                None => None,
            },
        }
    }
}

/// The fixed default-region domain used for virtual-hosted-style URLs.
pub open spec fn spec_domain(p: Provider) -> Seq<char> {
    match p {
        Provider::AwsS3 => "s3.amazonaws.com"@,
        Provider::DigitalOceanSpaces => "nyc3.digitaloceanspaces.com"@,
        Provider::LinodeObjStorage => "us-east-1.linodeobjects.com"@,
        _ => ""@,
    }
}

/// The fixed key under which the write probe tries to create an object.
pub open spec fn test_object_key() -> Seq<char> {
    "bucketprobe-test-object.txt"@
}

/// The fixed literal body sent with the write probe.
pub open spec fn test_object_body() -> Seq<char> {
    "bucketprobe write test"@
}

/// The URL of the read probe (a listing request) for a target.
pub open spec fn spec_read_url(t: SpecTarget) -> Seq<char> {
    match t.provider {
        Provider::AwsS3 | Provider::DigitalOceanSpaces | Provider::LinodeObjStorage => "http://"@
            + t.bucket + "."@ + spec_domain(t.provider),
        Provider::AzureBlob => "https://"@ + t.bucket
            + ".blob.core.windows.net/?restype=container&comp=list"@,
        Provider::GcpStorage => "https://storage.googleapis.com/"@ + t.bucket + "/"@,
        Provider::Unknown => "http://"@ + t.bucket,
    }
}

/// The URL of the write probe (an object-creation request) for a target.
pub open spec fn spec_write_url(t: SpecTarget) -> Seq<char> {
    match t.provider {
        Provider::AwsS3 | Provider::DigitalOceanSpaces | Provider::LinodeObjStorage => "http://"@
            + t.bucket + "."@ + spec_domain(t.provider) + "/"@ + test_object_key(),
        Provider::AzureBlob => "https://"@ + t.bucket + ".blob.core.windows.net/"@
            + test_object_key(),
        Provider::GcpStorage => "https://storage.googleapis.com/"@ + t.bucket + "/"@
            + test_object_key(),
        Provider::Unknown => "http://"@ + t.bucket + "/"@ + test_object_key(),
    }
}

/// The complete read-probe request for a target: a GET of the listing URL
/// with no body.
pub open spec fn spec_read_probe(t: SpecTarget) -> SpecProbeRequest {
    SpecProbeRequest { method: ProbeMethod::Get, url: spec_read_url(t), body: None }
}

/// The complete write-probe request for a target: a PUT of the test-object
/// URL carrying the fixed literal body.
pub open spec fn spec_write_probe(t: SpecTarget) -> SpecProbeRequest {
    SpecProbeRequest {
        method: ProbeMethod::Put,
        url: spec_write_url(t),
        body: Some(test_object_body()),
    }
}

fn provider_domain(p: Provider) -> (r: &'static str)
    ensures
        r@ == spec_domain(p),
{
    match p {
        Provider::AwsS3 => "s3.amazonaws.com",
        Provider::DigitalOceanSpaces => "nyc3.digitaloceanspaces.com",
        Provider::LinodeObjStorage => "us-east-1.linodeobjects.com",
        _ => "",
    }
}

/// Build the read-probe URL for a target.
pub fn build_read_url(t: &Target) -> (r: String)
    ensures
        r@ == spec_read_url(t@),
{
    match t.provider {
        Provider::AwsS3 | Provider::DigitalOceanSpaces | Provider::LinodeObjStorage => {
            let d = provider_domain(t.provider);
            "http://".to_owned().concat(t.bucket.as_str()).concat(".").concat(d)
        },
        Provider::AzureBlob => "https://".to_owned().concat(t.bucket.as_str()).concat(
            ".blob.core.windows.net/?restype=container&comp=list",
        ),
        Provider::GcpStorage => "https://storage.googleapis.com/".to_owned().concat(
            t.bucket.as_str(),
        ).concat("/"),
        Provider::Unknown => "http://".to_owned().concat(t.bucket.as_str()),
    }
}

/// Build the write-probe URL for a target.
pub fn build_write_url(t: &Target) -> (r: String)
    ensures
        r@ == spec_write_url(t@),
{
    match t.provider {
        Provider::AwsS3 | Provider::DigitalOceanSpaces | Provider::LinodeObjStorage => {
            let d = provider_domain(t.provider);
            "http://".to_owned().concat(t.bucket.as_str()).concat(".").concat(d).concat(
                "/",
            ).concat("bucketprobe-test-object.txt")
        },
        Provider::AzureBlob => "https://".to_owned().concat(t.bucket.as_str()).concat(
            ".blob.core.windows.net/",
        ).concat("bucketprobe-test-object.txt"),
        Provider::GcpStorage => "https://storage.googleapis.com/".to_owned().concat(
            t.bucket.as_str(),
        ).concat("/").concat("bucketprobe-test-object.txt"),
        Provider::Unknown => "http://".to_owned().concat(t.bucket.as_str()).concat("/").concat(
            "bucketprobe-test-object.txt",
        ),
    }
}

/// Build the complete read-probe request for a target.
pub fn build_read_probe(t: &Target) -> (r: ProbeRequest)
    ensures
        r@ == spec_read_probe(t@),
{
    let url = build_read_url(t);
    ProbeRequest { method: ProbeMethod::Get, url, body: None }
}

/// Build the complete write-probe request for a target.
pub fn build_write_probe(t: &Target) -> (r: ProbeRequest)
    ensures
        r@ == spec_write_probe(t@),
{
    let url = build_write_url(t);
    ProbeRequest {
        method: ProbeMethod::Put,
        url,
        body: Some("bucketprobe write test".to_owned()),
    }
}

/// Building a probe request is a pure function of the target: equal targets
/// always yield identical request descriptions.
pub proof fn lemma_build_pure(a: SpecTarget, b: SpecTarget)
    requires
        a == b,
    ensures
        spec_read_probe(a) == spec_read_probe(b),
        spec_write_probe(a) == spec_write_probe(b),
{
}

/// The write-probe URL extends the read-probe URL by exactly the appended
/// test-object path of the provider's template; for Azure both URLs extend
/// the container root, one with the listing query and one with the object
/// key. In every case the two URLs differ.
pub proof fn lemma_write_url_extends_read(t: SpecTarget)
    ensures
        t.provider == Provider::AwsS3 || t.provider == Provider::DigitalOceanSpaces
            || t.provider == Provider::LinodeObjStorage || t.provider == Provider::Unknown
            ==> spec_write_url(t) == spec_read_url(t) + "/"@ + test_object_key(),
        t.provider == Provider::GcpStorage ==> spec_write_url(t) == spec_read_url(t)
            + test_object_key(),
        t.provider == Provider::AzureBlob ==> {
            let root = "https://"@ + t.bucket + ".blob.core.windows.net/"@;
            spec_read_url(t) == root + "?restype=container&comp=list"@ && spec_write_url(t)
                == root + test_object_key()
        },
        spec_write_url(t) != spec_read_url(t),
{
    reveal_strlit("/");
    reveal_strlit("bucketprobe-test-object.txt");
    reveal_strlit(".blob.core.windows.net/");
    reveal_strlit("?restype=container&comp=list");
    reveal_strlit(".blob.core.windows.net/?restype=container&comp=list");
    match t.provider {
        Provider::AzureBlob => {
            let root = "https://"@ + t.bucket + ".blob.core.windows.net/"@;
            assert(spec_read_url(t) =~= root + "?restype=container&comp=list"@);
            assert(spec_write_url(t) == root + test_object_key());
            assert(spec_read_url(t).len() != spec_write_url(t).len());
        },
        _ => {
            assert(spec_write_url(t).len() > spec_read_url(t).len());
        },
    }
}

} // verus!
