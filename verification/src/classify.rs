//! The identifier classifier: turns one free-form input line into a
//! `Target` naming the storage provider and the bucket (or container), or
//! nothing when the line is blank.

use vstd::prelude::*;
use crate::text::{
    ends_with, head_before, head_segment, segment_after, spec_trim, starts_with, str_ends_with,
    str_starts_with, trim_line,
};

verus! {

/// The cloud storage dialects this tool recognizes.
#[derive(Clone, Copy, PartialEq, Eq, Structural, Debug)]
pub enum Provider {
    AwsS3,
    AzureBlob,
    GcpStorage,
    DigitalOceanSpaces,
    LinodeObjStorage,
    Unknown,
}

/// A classified probe target: a provider together with the bucket or
/// container name extracted from the input line.
#[derive(Clone, Debug)]
pub struct Target {
    pub provider: Provider,
    pub bucket: String,
}

/// The mathematical value of a `Target`.
pub struct SpecTarget {
    pub provider: Provider,
    pub bucket: Seq<char>,
}

impl View for Target {
    type V = SpecTarget;

    open spec fn view(&self) -> SpecTarget {
        SpecTarget { provider: self.provider, bucket: self.bucket@ }
    }
}

/// Provider-pattern matching over an already-trimmed, non-empty line, in
/// fixed priority order; unmatched text falls back to `Unknown` with the
/// whole text as the name.
pub open spec fn spec_classify_trimmed(t: Seq<char>) -> SpecTarget {
    if ends_with(t, ".s3.amazonaws.com"@) {
        SpecTarget {
            provider: Provider::AwsS3,
            bucket: t.subrange(0, t.len() - ".s3.amazonaws.com"@.len()),
        }
    } else if starts_with(t, "s3.amazonaws.com/"@) {
        SpecTarget {
            provider: Provider::AwsS3,
            bucket: segment_after(t, '/', "s3.amazonaws.com/"@.len() as int),
        }
    } else if ends_with(t, ".digitaloceanspaces.com"@) {
        SpecTarget { provider: Provider::DigitalOceanSpaces, bucket: head_segment(t, '.') }
    } else if ends_with(t, ".linodeobjects.com"@) {
        SpecTarget { provider: Provider::LinodeObjStorage, bucket: head_segment(t, '.') }
    } else if ends_with(t, ".blob.core.windows.net"@) {
        SpecTarget { provider: Provider::AzureBlob, bucket: head_segment(t, '.') }
    } else if ends_with(t, ".storage.googleapis.com"@) {
        SpecTarget {
            provider: Provider::GcpStorage,
            bucket: t.subrange(0, t.len() - ".storage.googleapis.com"@.len()),
        }
    } else if starts_with(t, "storage.googleapis.com/"@) {
        SpecTarget {
            provider: Provider::GcpStorage,
            bucket: segment_after(t, '/', "storage.googleapis.com/"@.len() as int),
        }
    } else {
        SpecTarget { provider: Provider::Unknown, bucket: t }
    }
}

/// What classification yields for one raw line: nothing for a blank line,
/// otherwise the first matching provider pattern.
pub open spec fn spec_classify(line: Seq<char>) -> Option<SpecTarget> {
    if spec_trim(line).len() == 0 {
        None
    } else {
        Some(spec_classify_trimmed(spec_trim(line)))
    }
}

/// Classify one input line.
pub fn classify(line: &str) -> (r: Option<Target>)
    ensures
        r is Some <==> spec_trim(line@).len() != 0,
        match r {
            Some(t) => spec_classify(line@) == Some(t@),
            None => spec_classify(line@) is None,
        },
{
    let trimmed = trim_line(line);
    let t = trimmed.as_str();
    if t.unicode_len() == 0 {
        return None;
    }
    if str_ends_with(t, ".s3.amazonaws.com") {
        let bl = t.unicode_len() - ".s3.amazonaws.com".unicode_len();
        let bucket = t.substring_char(0, bl).to_owned();
        return Some(Target { provider: Provider::AwsS3, bucket });
    }
    if str_starts_with(t, "s3.amazonaws.com/") {
        let start = "s3.amazonaws.com/".unicode_len();
        let rest = t.substring_char(start, t.unicode_len());
        let bucket = head_before(rest, '/');
        return Some(Target { provider: Provider::AwsS3, bucket });
    }
    if str_ends_with(t, ".digitaloceanspaces.com") {
        let bucket = head_before(t, '.');
        return Some(Target { provider: Provider::DigitalOceanSpaces, bucket });
    }
    if str_ends_with(t, ".linodeobjects.com") {
        let bucket = head_before(t, '.');
        return Some(Target { provider: Provider::LinodeObjStorage, bucket });
    }
    if str_ends_with(t, ".blob.core.windows.net") {
        let bucket = head_before(t, '.');
        return Some(Target { provider: Provider::AzureBlob, bucket });
    }
    if str_ends_with(t, ".storage.googleapis.com") {
        let bl = t.unicode_len() - ".storage.googleapis.com".unicode_len();
        let bucket = t.substring_char(0, bl).to_owned();
        return Some(Target { provider: Provider::GcpStorage, bucket });
    }
    if str_starts_with(t, "storage.googleapis.com/") {
        let start = "storage.googleapis.com/".unicode_len();
        let rest = t.substring_char(start, t.unicode_len());
        let bucket = head_before(rest, '/');
        return Some(Target { provider: Provider::GcpStorage, bucket });
    }
    Some(Target { provider: Provider::Unknown, bucket: t.to_owned() })
}

/// Classification is total over lines that are not blank: exactly the lines
/// with a non-whitespace character yield a target.
pub proof fn lemma_classify_total(line: Seq<char>)
    ensures
        spec_classify(line) is Some <==> spec_trim(line).len() != 0,
{
}

/// Classification is a pure function of the line's characters: the same
/// line always yields the same target.
pub proof fn lemma_classify_pure(a: Seq<char>, b: Seq<char>)
    requires
        a == b,
    ensures
        spec_classify(a) == spec_classify(b),
{
}

/// The targets that a sequence of raw lines yields, in input order; blank
/// lines contribute nothing.
pub open spec fn spec_classify_all(lines: Seq<Seq<char>>) -> Seq<SpecTarget>
    decreases lines.len(),
{
    if lines.len() == 0 {
        Seq::empty()
    } else {
        let rest = spec_classify_all(lines.drop_last());
        match spec_classify(lines.last()) {
            Some(t) => rest.push(t),
            None => rest,
        }
    }
}

/// Classify every line of an input list, dropping blank lines.
pub fn classify_all(lines: &Vec<String>) -> (r: Vec<Target>)
    ensures
        r@.map_values(|t: Target| t@) == spec_classify_all(
            lines@.map_values(|l: String| l@),
        ),
{
    let mut out: Vec<Target> = Vec::new();
    let mut i: usize = 0;
    proof {
        assert(lines@.subrange(0, 0).map_values(|l: String| l@) =~= Seq::<Seq<char>>::empty());
        assert(out@.map_values(|t: Target| t@) =~= Seq::<SpecTarget>::empty());
    }
    while i < lines.len()
        invariant
            0 <= i <= lines.len(),
            out@.map_values(|t: Target| t@) == spec_classify_all(
                lines@.subrange(0, i as int).map_values(|l: String| l@),
            ),
        decreases lines.len() - i,
    {
        let ghost prefix = lines@.subrange(0, i as int).map_values(|l: String| l@);
        let ghost prev = out@;
        match classify(&lines[i]) {
            Some(t) => {
                let ghost tv = t@;
                out.push(t);
                proof {
                    assert(out@.map_values(|t: Target| t@) =~= prev.map_values(
                        |t: Target| t@,
                    ).push(tv));
                }
            },
            None => {},
        }
        proof {
            let next = lines@.subrange(0, i + 1).map_values(|l: String| l@);
            assert(next.drop_last() =~= prefix);
            assert(next.last() == lines@[i as int]@);
        }
        i = i + 1;
    }
    proof {
        assert(lines@.subrange(0, lines@.len() as int) =~= lines@);
    }
    out
}

} // verus!
