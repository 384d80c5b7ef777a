use bucketprobe::classify::{classify_all, Provider, Target};
use bucketprobe::interpret::{is_readable, is_writable, HttpResponse};
use bucketprobe::probe::{settle, settle_all, ProbeEvidence, ProbeOutcome};
use bucketprobe::report::{provider_label, report_line, status_tag, summarize, summary_line};

fn target(provider: Provider, bucket: &str) -> Target {
    Target { provider, bucket: String::from(bucket) }
}

fn response(status: u16, body: &str) -> Option<HttpResponse> {
    Some(HttpResponse { status, body: String::from(body) })
}

const AWS_LISTING: &str =
    "<?xml version=\"1.0\"?><ListBucketResult xmlns=\"x\"><Name>b</Name></ListBucketResult>";

#[test]
fn aws_success_listing_is_readable() {
    let r = response(200, AWS_LISTING);
    assert!(is_readable(Provider::AwsS3, &r));
}

#[test]
fn aws_success_unrelated_body_is_not_readable() {
    let r = response(200, "<html>welcome</html>");
    assert!(!is_readable(Provider::AwsS3, &r));
}

#[test]
fn non_success_status_is_never_readable() {
    assert!(!is_readable(Provider::AwsS3, &response(403, AWS_LISTING)));
    assert!(!is_readable(Provider::AwsS3, &response(301, AWS_LISTING)));
    assert!(!is_readable(Provider::AwsS3, &response(500, AWS_LISTING)));
}

#[test]
fn transport_failure_is_neither_readable_nor_writable() {
    assert!(!is_readable(Provider::AwsS3, &None));
    assert!(!is_writable(&None));
}

#[test]
fn azure_marker_is_enumeration_results() {
    let r = response(200, "<EnumerationResults ServiceEndpoint=\"x\"/>");
    assert!(is_readable(Provider::AzureBlob, &r));
    assert!(!is_readable(Provider::AzureBlob, &response(200, "<ListBucketResult/>")));
}

#[test]
fn gcp_accepts_listing_or_xml_marker() {
    assert!(is_readable(Provider::GcpStorage, &response(200, "<ListBucketResult/>")));
    assert!(is_readable(Provider::GcpStorage, &response(200, "some xml payload")));
    assert!(!is_readable(Provider::GcpStorage, &response(200, "plain text")));
}

#[test]
fn unknown_provider_is_never_readable() {
    assert!(!is_readable(Provider::Unknown, &response(200, AWS_LISTING)));
    assert!(!is_readable(Provider::Unknown, &response(200, "xml")));
}

#[test]
fn writable_goes_by_status_alone() {
    assert!(is_writable(&response(200, "")));
    assert!(is_writable(&response(201, "created")));
    assert!(is_writable(&response(299, "")));
    assert!(!is_writable(&response(403, "denied")));
    assert!(!is_writable(&response(300, "")));
    assert!(!is_writable(&response(199, "")));
}

#[test]
fn settle_combines_both_probes() {
    let t = target(Provider::AwsS3, "open");
    let o = settle(t, response(200, AWS_LISTING), response(200, ""));
    assert!(o.readable);
    assert!(o.writable);
    assert_eq!(o.target.bucket, "open");
}

#[test]
fn settle_downgrades_transport_errors() {
    let t = target(Provider::AwsS3, "dark");
    let o = settle(t, None, None);
    assert!(!o.readable);
    assert!(!o.writable);
}

#[test]
fn status_tags_cover_all_four_cases() {
    assert_eq!(status_tag(true, true), "[read] [write]");
    assert_eq!(status_tag(true, false), "[read]");
    assert_eq!(status_tag(false, true), "[write]");
    assert_eq!(status_tag(false, false), "[no access]");
}

#[test]
fn provider_labels_are_exact() {
    assert_eq!(provider_label(Provider::AwsS3), "AWS S3");
    assert_eq!(provider_label(Provider::AzureBlob), "Azure Blob");
    assert_eq!(provider_label(Provider::GcpStorage), "GCP Storage");
    assert_eq!(provider_label(Provider::DigitalOceanSpaces), "DigitalOcean Spaces");
    assert_eq!(provider_label(Provider::LinodeObjStorage), "Linode Object Storage");
    assert_eq!(provider_label(Provider::Unknown), "Unknown");
}

#[test]
fn report_line_has_exact_form() {
    let o = settle(
        target(Provider::AwsS3, "mybucket"),
        response(200, AWS_LISTING),
        response(403, ""),
    );
    assert_eq!(report_line(&o), "AWS S3 | mybucket | [read]");
}

#[test]
fn summary_line_annotates_permissions() {
    let both = settle(
        target(Provider::GcpStorage, "g"),
        response(200, "xml"),
        response(204, ""),
    );
    assert_eq!(summary_line(&both), "GCP Storage | g | [read, write]");
}

#[test]
fn simulated_timeouts_still_yield_one_outcome_per_target() {
    let mut evidence: Vec<ProbeEvidence> = Vec::new();
    for i in 0..6u32 {
        let name = format!("bucket{}", i);
        let t = target(Provider::AwsS3, &name);
        if i % 2 == 0 {
            // simulated timeout: both probes failed at the transport level
            evidence.push(ProbeEvidence { target: t, read: None, write: None });
        } else {
            evidence.push(ProbeEvidence {
                target: t,
                read: response(200, AWS_LISTING),
                write: response(200, ""),
            });
        }
    }
    let outcomes = settle_all(evidence);
    assert_eq!(outcomes.len(), 6);
    for (i, o) in outcomes.iter().enumerate() {
        assert_eq!(o.target.bucket, format!("bucket{}", i));
        if i % 2 == 0 {
            assert_eq!(status_tag(o.readable, o.writable), "[no access]");
        } else {
            assert_eq!(status_tag(o.readable, o.writable), "[read] [write]");
        }
    }
}

#[test]
fn end_to_end_two_targets_one_blank_line() {
    let lines = vec![
        String::from("a.s3.amazonaws.com"),
        String::from(""),
        String::from("b.blob.core.windows.net"),
    ];
    let targets = classify_all(&lines);
    assert_eq!(targets.len(), 2);

    let mut evidence: Vec<ProbeEvidence> = Vec::new();
    let mut it = targets.into_iter();
    let a = it.next().unwrap();
    let b = it.next().unwrap();
    evidence.push(ProbeEvidence {
        target: a,
        read: response(200, AWS_LISTING),
        write: response(403, "denied"),
    });
    evidence.push(ProbeEvidence {
        target: b,
        read: response(403, "denied"),
        write: response(403, "denied"),
    });
    let outcomes: Vec<ProbeOutcome> = settle_all(evidence);
    assert_eq!(outcomes.len(), 2);
    assert_eq!(outcomes[0].target.provider, Provider::AwsS3);
    assert_eq!(outcomes[0].target.bucket, "a");
    assert!(outcomes[0].readable);
    assert!(!outcomes[0].writable);
    assert_eq!(outcomes[1].target.provider, Provider::AzureBlob);
    assert_eq!(outcomes[1].target.bucket, "b");
    assert!(!outcomes[1].readable);
    assert!(!outcomes[1].writable);

    let summary = summarize(&outcomes);
    assert_eq!(summary.len(), 1);
    assert_eq!(summary[0], "AWS S3 | a | [read]");
}

#[test]
fn summary_keeps_reporting_order_and_filters_closed_targets() {
    let outcomes = vec![
        settle(target(Provider::AwsS3, "one"), response(200, AWS_LISTING), None),
        settle(target(Provider::Unknown, "closed.example"), None, None),
        settle(target(Provider::AzureBlob, "two"), None, response(201, "")),
    ];
    let summary = summarize(&outcomes);
    assert_eq!(summary.len(), 2);
    assert_eq!(summary[0], "AWS S3 | one | [read]");
    assert_eq!(summary[1], "Azure Blob | two | [write]");
}
