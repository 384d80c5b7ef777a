//! The result aggregator: the per-target report line emitted as each
//! outcome becomes available, and the final summary of targets with any
//! open permission, kept in reporting order.

use vstd::prelude::*;
use crate::classify::Provider;
use crate::probe::{ProbeOutcome, SpecProbeOutcome};

verus! {

/// The human-readable label of each provider.
pub open spec fn spec_label(p: Provider) -> Seq<char> {
    match p {
        Provider::AwsS3 => "AWS S3"@,
        Provider::AzureBlob => "Azure Blob"@,
        Provider::GcpStorage => "GCP Storage"@,
        Provider::DigitalOceanSpaces => "DigitalOcean Spaces"@,
        Provider::LinodeObjStorage => "Linode Object Storage"@,
        Provider::Unknown => "Unknown"@,
    }
}

/// Name a provider for console output.
pub fn provider_label(p: Provider) -> (r: &'static str)
    ensures
        r@ == spec_label(p),
{
    match p {
        Provider::AwsS3 => "AWS S3",
        Provider::AzureBlob => "Azure Blob",
        Provider::GcpStorage => "GCP Storage",
        Provider::DigitalOceanSpaces => "DigitalOcean Spaces",
        Provider::LinodeObjStorage => "Linode Object Storage",
        Provider::Unknown => "Unknown",
    }
}

/// The status token reported beside a target.
pub open spec fn spec_status_tag(readable: bool, writable: bool) -> Seq<char> {
    if readable && writable {
        "[read] [write]"@
    } else if readable {
        "[read]"@
    } else if writable {
        "[write]"@
    } else {
        "[no access]"@
    }
}

/// The status token for one pair of capabilities.
pub fn status_tag(readable: bool, writable: bool) -> (r: &'static str)
    ensures
        r@ == spec_status_tag(readable, writable),
{
    if readable && writable {
        "[read] [write]"
    } else if readable {
        "[read]"
    } else if writable {
        "[write]"
    } else {
        "[no access]"
    }
}

/// The immediate per-target report line.
pub open spec fn spec_report_line(o: SpecProbeOutcome) -> Seq<char> {
    spec_label(o.target.provider) + " | "@ + o.target.bucket + " | "@ + spec_status_tag(
        o.readable,
        o.writable,
    )
}

/// Render the report line for one outcome.
pub fn report_line(o: &ProbeOutcome) -> (r: String)
    ensures
        r@ == spec_report_line(o@),
{
    provider_label(o.target.provider).to_owned().concat(" | ").concat(
        o.target.bucket.as_str(),
    ).concat(" | ").concat(status_tag(o.readable, o.writable))
}

/// The comma-separated permissions found on an open target.
pub open spec fn spec_perms(readable: bool, writable: bool) -> Seq<char> {
    if readable && writable {
        "read, write"@
    } else if readable {
        "read"@
    } else if writable {
        "write"@
    } else {
        ""@
    }
}

/// One summary line for a target with an open permission.
pub open spec fn spec_summary_line(o: SpecProbeOutcome) -> Seq<char> {
    spec_label(o.target.provider) + " | "@ + o.target.bucket + " | ["@ + spec_perms(
        o.readable,
        o.writable,
    ) + "]"@
}

/// Render the summary line for one outcome.
pub fn summary_line(o: &ProbeOutcome) -> (r: String)
    ensures
        r@ == spec_summary_line(o@),
{
    let perms = if o.readable && o.writable {
        "read, write"
    } else if o.readable {
        "read"
    } else if o.writable {
        "write"
    } else {
        ""
    };
    provider_label(o.target.provider).to_owned().concat(" | ").concat(
        o.target.bucket.as_str(),
    ).concat(" | [").concat(perms).concat("]")
}

/// A target with any open permission.
pub open spec fn spec_open_access(o: SpecProbeOutcome) -> bool {
    o.readable || o.writable
}

/// The final summary: one line for every outcome with an open permission,
/// in the same order the outcomes were reported.
pub open spec fn spec_summary(outcomes: Seq<SpecProbeOutcome>) -> Seq<Seq<char>> {
    outcomes.filter(|o: SpecProbeOutcome| spec_open_access(o)).map_values(
        |o: SpecProbeOutcome| spec_summary_line(o),
    )
}

/// Build the summary section from the collected outcomes: exactly the open
/// targets, in collection order, each with its permissions annotation.
pub fn summarize(outcomes: &Vec<ProbeOutcome>) -> (r: Vec<String>)
    ensures
        r@.map_values(|s: String| s@) == spec_summary(
            outcomes@.map_values(|o: ProbeOutcome| o@),
        ),
{
    let mut out: Vec<String> = Vec::new();
    let mut i: usize = 0;
    proof {
        reveal_with_fuel(Seq::filter, 2);
        assert(outcomes@.subrange(0, 0).map_values(|o: ProbeOutcome| o@)
            =~= Seq::<SpecProbeOutcome>::empty());
        assert(out@.map_values(|s: String| s@) =~= Seq::<Seq<char>>::empty());
        assert(Seq::<SpecProbeOutcome>::empty().filter(
            |o: SpecProbeOutcome| spec_open_access(o),
        ) =~= Seq::<SpecProbeOutcome>::empty());
    }
    while i < outcomes.len()
        invariant
            0 <= i <= outcomes.len(),
            out@.map_values(|s: String| s@) == spec_summary(
                outcomes@.subrange(0, i as int).map_values(|o: ProbeOutcome| o@),
            ),
        decreases outcomes.len() - i,
    {
        let ghost prefix = outcomes@.subrange(0, i as int).map_values(|o: ProbeOutcome| o@);
        let ghost prevout = out@;
        let o = &outcomes[i];
        let ghost ov = o@;
        if o.readable || o.writable {
            let line = summary_line(o);
            let ghost lv = line@;
            out.push(line);
            proof {
                assert(out@.map_values(|s: String| s@) =~= prevout.map_values(
                    |s: String| s@,
                ).push(lv));
            }
        }
        proof {
            reveal_with_fuel(Seq::filter, 2);
            let next = outcomes@.subrange(0, i + 1).map_values(|o: ProbeOutcome| o@);
            let pred = |o: SpecProbeOutcome| spec_open_access(o);
            assert(next =~= prefix + seq![ov]);
            Seq::<SpecProbeOutcome>::filter_distributes_over_add(prefix, seq![ov], pred);
            assert(seq![ov].drop_last() =~= Seq::<SpecProbeOutcome>::empty());
            if spec_open_access(ov) {
                assert(seq![ov].filter(pred) =~= seq![ov]);
                assert(next.filter(pred) =~= prefix.filter(pred).push(ov));
                assert(next.filter(pred).map_values(|o: SpecProbeOutcome| spec_summary_line(o))
                    =~= prefix.filter(pred).map_values(
                    |o: SpecProbeOutcome| spec_summary_line(o),
                ).push(spec_summary_line(ov)));
            } else {
                assert(seq![ov].filter(pred) =~= Seq::<SpecProbeOutcome>::empty());
                assert(next.filter(pred) =~= prefix.filter(pred));
            }
        }
        i = i + 1;
    }
    proof {
        assert(outcomes@.subrange(0, outcomes@.len() as int) =~= outcomes@);
    }
    out
}

} // verus!
