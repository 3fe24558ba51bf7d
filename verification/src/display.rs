//! What the analysis of an OCI tarball shows, line by line.

use vstd::prelude::*;

use crate::builder::cmdline::{concat, concat3, push_arg};
use crate::oci::{snip_contents, snipped, ManifestInfo};
use crate::text::{decimal_string, decimal_text};

verus! {

/// How many characters of a manifest's contents a summary shows.
pub const SUMMARY_MAX_LEN: usize = 600;

/// The heading of an entry: the index first, then numbered manifests.
pub open spec fn entry_title(i: int, info: ManifestInfo) -> Seq<char> {
    if i == 0 {
        "Index ("@ + info.path@ + "):"@
    } else {
        "Manifest "@ + decimal_text(i) + " ("@ + info.path@ + "):"@
    }
}

/// The platform as shown: `-` when there is none.
pub open spec fn platform_shown(p: Option<Seq<char>>) -> Seq<char> {
    match p {
        Some(t) => t,
        None => "-"@,
    }
}

/// The lines of one entry: a blank line, its heading, digest, media type, platform and
/// contents (in full, or summarized).
pub open spec fn entry_lines(i: int, info: ManifestInfo, full: bool) -> Seq<Seq<char>> {
    seq![
        seq![],
        entry_title(i, info),
        "  Digest: "@ + info.digest@,
        "  Media type: "@ + info.media_type@,
        "  Platform: "@ + platform_shown(info.platform.deep_view()),
        "  Contents: "@ + (if full {
            info.contents@
        } else {
            snipped(info.contents@, SUMMARY_MAX_LEN)
        }),
    ]
}

/// The lines of the first `k` entries.
pub open spec fn entries_lines(parsed: Seq<ManifestInfo>, full: bool, k: int) -> Seq<Seq<char>>
    decreases k,
{
    if k <= 0 {
        seq![]
    } else {
        entries_lines(parsed, full, k - 1) + entry_lines(k - 1, parsed[k - 1], full)
    }
}

/// The report on a parsed tarball (index first): a count of manifests, the image digest
/// when there is a manifest, each entry, and a closing blank line.
pub open spec fn info_report(parsed: Seq<ManifestInfo>, full: bool) -> Seq<Seq<char>> {
    seq![
        "The OCI tarball contains an index and "@ + decimal_text(parsed.len() - 1) + " manifest(s):"@,
        seq![],
    ] + (if parsed.len() > 1 {
        seq!["Image digest: "@ + parsed[1].digest@]
    } else {
        seq![]
    }) + entries_lines(parsed, full, parsed.len() as int) + seq![seq![]]
}

fn push_entry(lines: &mut Vec<String>, i: usize, info: &ManifestInfo, full: bool)
    ensures
        final(lines).deep_view() == old(lines).deep_view() + entry_lines(i as int, *info, full),
{
    let ghost start = lines.deep_view();
    push_arg(lines, String::new());
    if i == 0 {
        push_arg(lines, concat3("Index (", info.path.as_str(), "):"));
    } else {
        let n = decimal_string(i as i128);
        let mut t = concat3("Manifest ", n.as_str(), " (");
        t.append(info.path.as_str());
        t.append("):");
        push_arg(lines, t);
    }
    push_arg(lines, concat("  Digest: ", info.digest.as_str()));
    push_arg(lines, concat("  Media type: ", info.media_type.as_str()));
    match &info.platform {
        Some(p) => push_arg(lines, concat("  Platform: ", p.as_str())),
        None => push_arg(lines, concat("  Platform: ", "-")),
    }
    let contents = if full {
        info.contents.clone()
    } else {
        snip_contents(info.contents.as_str(), SUMMARY_MAX_LEN)
    };
    push_arg(lines, concat("  Contents: ", contents.as_str()));
    assert(lines.deep_view() =~= start + entry_lines(i as int, *info, full));
}

/// The lines that describe a parsed tarball (index first), for printing one per line.
pub fn info_lines(parsed: &[ManifestInfo], full: bool) -> (r: Vec<String>)
    requires
        parsed@.len() >= 1,
    ensures
        r.deep_view() == info_report(parsed@, full),
{
    let mut lines: Vec<String> = Vec::new();
    let count = decimal_string((parsed.len() - 1) as i128);
    push_arg(&mut lines, concat3("The OCI tarball contains an index and ", count.as_str(), " manifest(s):"));
    push_arg(&mut lines, String::new());
    if parsed.len() > 1 {
        push_arg(&mut lines, concat("Image digest: ", parsed[1].digest.as_str()));
    }
    let ghost head = lines.deep_view();
    assert(head =~= seq![
        "The OCI tarball contains an index and "@ + decimal_text(parsed@.len() - 1) + " manifest(s):"@,
        seq![],
    ] + (if parsed@.len() > 1 {
        seq!["Image digest: "@ + parsed@[1].digest@]
    } else {
        seq![]
    }));
    let mut i: usize = 0;
    while i < parsed.len()
        invariant
            i <= parsed@.len(),
            lines.deep_view() == head + entries_lines(parsed@, full, i as int),
        decreases parsed@.len() - i,
    {
        push_entry(&mut lines, i, &parsed[i], full);
        assert(head + entries_lines(parsed@, full, i as int) + entry_lines(i as int, parsed@[i as int], full)
            =~= head + entries_lines(parsed@, full, i + 1));
        i = i + 1;
    }
    let ghost body = lines.deep_view();
    push_arg(&mut lines, String::new());
    assert(lines.deep_view() =~= body + seq![seq![]]);
    lines
}

proof fn entries_lines_len(parsed: Seq<ManifestInfo>, full: bool, k: int)
    requires
        k >= 0,
    ensures
        entries_lines(parsed, full, k).len() == 6 * k,
    decreases k,
{
    if k > 0 {
        entries_lines_len(parsed, full, k - 1);
    }
}

proof fn entries_lines_at(parsed: Seq<ManifestInfo>, full: bool, k: int, i: int)
    requires
        0 <= i < k,
    ensures
        entries_lines(parsed, full, k).subrange(6 * i, 6 * i + 6) == entry_lines(i, parsed[i], full),
    decreases k,
{
    entries_lines_len(parsed, full, k - 1);
    let head = entries_lines(parsed, full, k - 1);
    let tail = entry_lines(k - 1, parsed[k - 1], full);
    if i < k - 1 {
        entries_lines_at(parsed, full, k - 1, i);
        assert((head + tail).subrange(6 * i, 6 * i + 6) =~= head.subrange(6 * i, 6 * i + 6));
    } else {
        assert((head + tail).subrange(6 * i, 6 * i + 6) =~= tail);
    }
}

/// The image digest that a report shows is the digest of the first manifest after the
/// index (the one that `verify_digest` checks), however many manifests follow: it stands
/// on the third line, after the count of manifests and a blank line, and is the digest
/// that the entry of manifest 1 shows.
pub proof fn report_shows_first_manifest_digest(parsed: Seq<ManifestInfo>, full: bool)
    requires
        parsed.len() > 1,
    ensures
        info_report(parsed, full)[0] == "The OCI tarball contains an index and "@ + decimal_text(
            parsed.len() - 1,
        ) + " manifest(s):"@,
        info_report(parsed, full)[1] == Seq::<char>::empty(),
        info_report(parsed, full)[2] == "Image digest: "@ + parsed[1].digest@,
        info_report(parsed, full)[11] == "  Digest: "@ + parsed[1].digest@,
{
    entries_lines_len(parsed, full, parsed.len() as int);
    entries_lines_at(parsed, full, parsed.len() as int, 1);
    let r = info_report(parsed, full);
    let e = entries_lines(parsed, full, parsed.len() as int);
    assert(r[11] == e[8]);
    assert(e.subrange(6, 12)[2] == e[8]);
}

/// Every entry of a report has its six lines in order of the entries, after the header
/// (the count, a blank line, and the image digest when there is a manifest), and the
/// report ends with one blank line.
pub proof fn report_lists_each_entry(parsed: Seq<ManifestInfo>, full: bool, i: int)
    requires
        0 <= i < parsed.len(),
    ensures
        ({
            let base = if parsed.len() > 1 { 3int } else { 2int };
            let r = info_report(parsed, full);
            &&& r.len() == base + 6 * parsed.len() + 1
            &&& r.subrange(base + 6 * i, base + 6 * i + 6) == entry_lines(i, parsed[i], full)
            &&& r[base + 6 * i + 2] == "  Digest: "@ + parsed[i].digest@
            &&& r[r.len() - 1] == Seq::<char>::empty()
        }),
{
    let base = if parsed.len() > 1 { 3int } else { 2int };
    let r = info_report(parsed, full);
    let e = entries_lines(parsed, full, parsed.len() as int);
    entries_lines_len(parsed, full, parsed.len() as int);
    entries_lines_at(parsed, full, parsed.len() as int, i);
    assert(r.subrange(base + 6 * i, base + 6 * i + 6) =~= e.subrange(6 * i, 6 * i + 6));
    assert(r[base + 6 * i + 2] == r.subrange(base + 6 * i, base + 6 * i + 6)[2]);
}

} // verus!
