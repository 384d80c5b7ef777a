use bucketprobe::classify::{classify, classify_all, Provider, Target};

fn expect(line: &str, provider: Provider, bucket: &str) {
    let t = classify(line).expect("line should classify");
    assert_eq!(t.provider, provider);
    assert_eq!(t.bucket, bucket);
}

#[test]
fn blank_lines_yield_nothing() {
    assert!(classify("").is_none());
    assert!(classify("   ").is_none());
    assert!(classify("\t \r\n").is_none());
}

#[test]
fn non_blank_lines_always_classify() {
    assert!(classify("x").is_some());
    assert!(classify("  x  ").is_some());
    assert!(classify("anything at all").is_some());
}

#[test]
fn aws_virtual_hosted_suffix() {
    expect("mybucket.s3.amazonaws.com", Provider::AwsS3, "mybucket");
}

#[test]
fn aws_path_style_prefix() {
    expect("s3.amazonaws.com/otherbucket", Provider::AwsS3, "otherbucket");
}

#[test]
fn aws_path_style_takes_first_segment() {
    expect("s3.amazonaws.com/bkt/key.txt", Provider::AwsS3, "bkt");
}

#[test]
fn aws_path_style_empty_segment() {
    expect("s3.amazonaws.com/", Provider::AwsS3, "");
}

#[test]
fn digitalocean_spaces_suffix() {
    expect("foo.digitaloceanspaces.com", Provider::DigitalOceanSpaces, "foo");
    expect(
        "bar.nyc3.digitaloceanspaces.com",
        Provider::DigitalOceanSpaces,
        "bar",
    );
}

#[test]
fn linode_object_storage_suffix() {
    expect(
        "stuff.us-east-1.linodeobjects.com",
        Provider::LinodeObjStorage,
        "stuff",
    );
}

#[test]
fn azure_blob_suffix() {
    expect("cont.blob.core.windows.net", Provider::AzureBlob, "cont");
}

#[test]
fn gcp_virtual_hosted_suffix() {
    expect("bkt.storage.googleapis.com", Provider::GcpStorage, "bkt");
}

#[test]
fn gcp_path_style_prefix() {
    expect("storage.googleapis.com/bkt2", Provider::GcpStorage, "bkt2");
}

#[test]
fn unmatched_host_falls_back_to_unknown() {
    expect(
        "random-host.example.com",
        Provider::Unknown,
        "random-host.example.com",
    );
}

#[test]
fn surrounding_whitespace_is_trimmed() {
    expect("  mybucket.s3.amazonaws.com \n", Provider::AwsS3, "mybucket");
    expect("\tplain-name ", Provider::Unknown, "plain-name");
}

#[test]
fn unicode_whitespace_only_lines_yield_nothing() {
    assert!(classify("\u{a0}").is_none());
    assert!(classify("\u{a0}\u{2003}\u{3000}").is_none());
    assert!(classify(" \u{85}\u{1680}\u{2028}\u{202f}\u{205f} ").is_none());
}

#[test]
fn unicode_whitespace_padding_is_trimmed() {
    expect(
        "\u{a0}mybucket.s3.amazonaws.com\u{3000}",
        Provider::AwsS3,
        "mybucket",
    );
    expect("\u{2003}cont.blob.core.windows.net\u{200a}", Provider::AzureBlob, "cont");
}

#[test]
fn classification_is_pure() {
    let a = classify("repeat.s3.amazonaws.com").unwrap();
    let b = classify("repeat.s3.amazonaws.com").unwrap();
    assert_eq!(a.provider, b.provider);
    assert_eq!(a.bucket, b.bucket);
}

#[test]
fn classify_all_drops_blank_lines_keeps_order() {
    let lines = vec![
        String::from("a.s3.amazonaws.com"),
        String::from(""),
        String::from("  "),
        String::from("b.blob.core.windows.net"),
        String::from("c.example.org"),
    ];
    let targets: Vec<Target> = classify_all(&lines);
    assert_eq!(targets.len(), 3);
    assert_eq!(targets[0].provider, Provider::AwsS3);
    assert_eq!(targets[0].bucket, "a");
    assert_eq!(targets[1].provider, Provider::AzureBlob);
    assert_eq!(targets[1].bucket, "b");
    assert_eq!(targets[2].provider, Provider::Unknown);
    assert_eq!(targets[2].bucket, "c.example.org");
}
