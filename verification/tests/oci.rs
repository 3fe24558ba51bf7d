use repro::display::info_lines;
use repro::hashing::sha256_hex;
use repro::oci::{
    digest_of, get_file_from_tarball, is_gzip_extension, normalize_path, platform_string,
    read_tarball, snip_contents, strip_sha256_prefix, verify_digest, ManifestDescriptor,
    ManifestInfo, ManifestJson, ManifestWalk, OciError, PlatformSpec,
};
use repro::testutil::OciTarballFixture;

// --- helpers: the program's side of the walk (JSON decoding) ---

fn decode(text: &str) -> Result<ManifestJson, String> {
    let v: serde_json::Value = serde_json::from_str(text).map_err(|e| e.to_string())?;
    let media_type = v
        .get("mediaType")
        .and_then(|m| m.as_str())
        .ok_or("missing mediaType")?
        .to_string();
    let mut manifests = Vec::new();
    if let Some(arr) = v.get("manifests").and_then(|m| m.as_array()) {
        for d in arr {
            let digest = d
                .get("digest")
                .and_then(|x| x.as_str())
                .ok_or("missing digest")?
                .to_string();
            let media_type = d.get("mediaType").and_then(|x| x.as_str()).map(String::from);
            let platform = match d.get("platform") {
                Some(p) => Some(PlatformSpec {
                    os: p.get("os").and_then(|x| x.as_str()).ok_or("missing os")?.to_string(),
                    architecture: p
                        .get("architecture")
                        .and_then(|x| x.as_str())
                        .ok_or("missing architecture")?
                        .to_string(),
                }),
                None => None,
            };
            manifests.push(ManifestDescriptor { digest, media_type, platform });
        }
    }
    Ok(ManifestJson { media_type, manifests })
}

fn parse(bytes: &[u8], gzip: bool) -> Result<Vec<ManifestInfo>, String> {
    let tar = read_tarball(bytes, gzip);
    let mut walk = ManifestWalk::new();
    while !walk.is_done() {
        let file = walk.next_file(&tar).map_err(|e| e.message())?;
        let json = decode(&file.contents)?;
        walk.record(file, json);
    }
    Ok(walk.finish())
}

fn tar_of(files: &[(&str, &[u8])]) -> Vec<u8> {
    let mut builder = tar::Builder::new(Vec::new());
    for (path, data) in files {
        let mut header = tar::Header::new_gnu();
        header.set_size(data.len() as u64);
        header.set_mode(0o644);
        header.set_cksum();
        builder.append_data(&mut header, path, *data).expect("append");
    }
    builder.into_inner().expect("finish tar")
}

fn make_manifest(digest: &str) -> ManifestInfo {
    ManifestInfo {
        path: "test".into(),
        contents: "{}".into(),
        digest: digest.into(),
        media_type: "application/vnd.oci.image.manifest.v1+json".into(),
        platform: None,
        manifests: vec![],
    }
}

// --- normalize_path ---

#[test]
fn normalize_path_sha256_prefix() {
    assert_eq!(normalize_path("sha256:abc123"), "blobs/sha256/abc123");
}

#[test]
fn normalize_path_passthrough() {
    assert_eq!(normalize_path("index.json"), "index.json");
    assert_eq!(normalize_path("blobs/sha256/abc"), "blobs/sha256/abc");
}

#[test]
fn normalize_path_twice_is_once() {
    let once = normalize_path("sha256:abc123");
    assert_eq!(normalize_path(&once), once);
}

// --- snip_contents ---

#[test]
fn snip_contents_short_string() {
    let input = "hello world";
    assert_eq!(snip_contents(input, 100), "hello world");
}

#[test]
fn snip_contents_truncates() {
    let input = "a".repeat(200);
    let result = snip_contents(&input, 50);
    assert!(result.starts_with(&"a".repeat(50)));
    assert!(result.contains("150 characters omitted"));
}

#[test]
fn snip_contents_strips_newlines() {
    let input = "line1\nline2\nline3";
    let result = snip_contents(input, 100);
    assert!(!result.contains('\n'));
    assert_eq!(result, "line1line2line3");
}

#[test]
fn snip_contents_exact_text_of_note() {
    assert_eq!(
        snip_contents("ab\ncdef", 3),
        "abc  [... 3 characters omitted. Pass --show-contents to print them in their entirety]"
    );
    // exactly at the limit: shown whole
    assert_eq!(snip_contents("abc\n", 3), "abc");
    // counts characters, not bytes
    assert_eq!(snip_contents("ééé", 3), "ééé");
}

// --- verify_digest ---

#[test]
fn verify_digest_match() {
    let index = make_manifest("sha256:0000");
    let manifest = make_manifest("sha256:abcd1234");
    let parsed = vec![index, manifest];
    assert!(verify_digest(&parsed, "sha256:abcd1234").is_ok());
}

#[test]
fn verify_digest_match_without_prefix() {
    let index = make_manifest("sha256:0000");
    let manifest = make_manifest("sha256:abcd1234");
    let parsed = vec![index, manifest];
    assert!(verify_digest(&parsed, "abcd1234").is_ok());
}

#[test]
fn verify_digest_mismatch() {
    let index = make_manifest("sha256:0000");
    let manifest = make_manifest("sha256:abcd1234");
    let parsed = vec![index, manifest];
    assert!(verify_digest(&parsed, "sha256:wrong").is_err());
}

#[test]
fn verify_digest_empty_parsed() {
    let result = verify_digest(&[], "sha256:abc");
    assert!(result.is_err());
    assert!(result.unwrap_err().message().contains("no manifest"));
}

#[test]
fn verify_digest_only_index() {
    let parsed = vec![make_manifest("sha256:0000")];
    assert!(verify_digest(&parsed, "sha256:abc").is_err());
}

#[test]
fn verify_digest_reports_both_hashes() {
    let parsed = vec![make_manifest("sha256:0000"), make_manifest("sha256:abcd1234")];
    let err = verify_digest(&parsed, "sha256:wrong").unwrap_err();
    assert!(matches!(&err, OciError::DigestMismatch(a, e) if a == "abcd1234" && e == "wrong"));
    assert_eq!(err.message(), "image does not have the expected digest: abcd1234 != wrong");
    assert_eq!(verify_digest(&parsed, "abcd1234").unwrap(), "abcd1234");
}

#[test]
fn strip_sha256_prefix_only_once() {
    assert_eq!(strip_sha256_prefix("sha256:sha256:ab"), "sha256:ab");
    assert_eq!(strip_sha256_prefix("ab"), "ab");
}

// --- digests ---

#[test]
fn sha256_hex_known_values() {
    assert_eq!(
        sha256_hex(b""),
        "e3b0c44298fc1c149afbf4c8996fb92427ae41e4649b934ca495991b7852b855"
    );
    assert_eq!(
        digest_of("abc"),
        "sha256:ba7816bf8f01cfea414140de5dae2223b00361a396177a9cb410ff61f20015ad"
    );
}

#[test]
fn own_digest_verifies_with_and_without_prefix() {
    let text = "{\"mediaType\":\"x\"}";
    let digest = digest_of(text);
    let parsed = vec![make_manifest("sha256:0000"), make_manifest(&digest)];
    assert!(verify_digest(&parsed, &digest).is_ok());
    assert!(verify_digest(&parsed, digest.strip_prefix("sha256:").unwrap()).is_ok());
    assert!(verify_digest(&parsed, "sha256:0000dead").is_err());
}

// --- reading tarballs ---

#[test]
fn gzip_extensions() {
    assert!(is_gzip_extension("gz"));
    assert!(is_gzip_extension("tgz"));
    assert!(!is_gzip_extension("tar"));
    assert!(!is_gzip_extension(""));
}

#[test]
fn platform_is_os_slash_architecture() {
    let p = PlatformSpec { os: "linux".into(), architecture: "arm64".into() };
    assert_eq!(platform_string(&p), "linux/arm64");
}

#[test]
fn file_lookup_accepts_dot_slash_and_reports_missing_files() {
    let bytes = tar_of(&[("./a.txt", b"alpha"), ("b.txt", b"beta"), ("bad", &[0xff, 0xfe])]);
    let tar = read_tarball(&bytes, false);
    assert!(tar.complete);
    assert_eq!(get_file_from_tarball(&tar, "a.txt").unwrap(), "alpha");
    assert_eq!(get_file_from_tarball(&tar, "b.txt").unwrap(), "beta");
    let missing = get_file_from_tarball(&tar, "c.txt").unwrap_err();
    assert!(matches!(&missing, OciError::FileNotFound(p) if p == "c.txt"));
    assert_eq!(missing.message(), "extracting c.txt: file not found in tarball: c.txt");
    assert!(matches!(get_file_from_tarball(&tar, "bad"), Err(OciError::NotUtf8(_))));
}

#[test]
fn unreadable_archive_is_a_read_error() {
    let tar = read_tarball(&[b'x'; 512], false);
    assert!(!tar.complete);
    assert!(matches!(get_file_from_tarball(&tar, "index.json"), Err(OciError::TarRead(_))));
    let gz = read_tarball(b"not gzip at all", true);
    assert!(!gz.complete);
}

#[test]
fn empty_archive_has_no_index() {
    let bytes = tar_of(&[]);
    let err = parse(&bytes, false).unwrap_err();
    assert_eq!(err, "extracting index.json: file not found in tarball: index.json");
}

#[test]
fn parse_tarball_minimal_oci() {
    // Build a minimal OCI tarball: index.json -> one manifest blob
    let manifest_content = r#"{"mediaType":"application/vnd.oci.image.manifest.v1+json","config":{"digest":"sha256:dead"},"layers":[]}"#;
    let manifest_digest = digest_of(manifest_content);
    let manifest_blob_path = format!(
        "blobs/sha256/{}",
        manifest_digest.strip_prefix("sha256:").unwrap()
    );
    let index_content = format!(
        r#"{{"mediaType":"application/vnd.oci.image.index.v1+json","manifests":[{{"digest":"{manifest_digest}","mediaType":"application/vnd.oci.image.manifest.v1+json"}}]}}"#
    );
    let bytes = tar_of(&[
        ("index.json", index_content.as_bytes()),
        (&manifest_blob_path, manifest_content.as_bytes()),
    ]);

    let parsed = parse(&bytes, false).expect("should parse");
    assert_eq!(parsed.len(), 2, "index + 1 manifest");
    assert_eq!(parsed[0].path, "index.json");
    assert_eq!(parsed[1].digest, manifest_digest);
}

#[test]
fn walk_is_depth_first_from_the_index() {
    let leaf_a = r#"{"mediaType":"application/vnd.oci.image.manifest.v1+json","layers":["a"]}"#;
    let leaf_b = r#"{"mediaType":"application/vnd.oci.image.manifest.v1+json","layers":["b"]}"#;
    let leaf_c = r#"{"mediaType":"application/vnd.oci.image.manifest.v1+json","layers":["c"]}"#;
    let (da, db, dc) = (digest_of(leaf_a), digest_of(leaf_b), digest_of(leaf_c));
    let nested = format!(
        r#"{{"mediaType":"application/vnd.oci.image.index.v1+json","manifests":[{{"digest":"{da}","platform":{{"os":"linux","architecture":"amd64"}}}},{{"digest":"{db}"}}]}}"#
    );
    let dn = digest_of(&nested);
    let index = format!(
        r#"{{"mediaType":"application/vnd.oci.image.index.v1+json","manifests":[{{"digest":"{dn}"}},{{"digest":"{dc}","platform":{{"os":"linux","architecture":"arm64"}}}}]}}"#
    );
    let blob = |d: &str| normalize_path(d);
    let bytes = tar_of(&[
        ("index.json", index.as_bytes()),
        (&blob(&dn), nested.as_bytes()),
        (&blob(&da), leaf_a.as_bytes()),
        (&blob(&db), leaf_b.as_bytes()),
        (&blob(&dc), leaf_c.as_bytes()),
    ]);
    let parsed = parse(&bytes, false).expect("should parse nested index");
    let digests: Vec<&str> = parsed.iter().map(|m| m.digest.as_str()).collect();
    assert_eq!(digests, vec![digest_of(&index).as_str(), &dn, &da, &db, &dc]);
    let platforms: Vec<Option<&str>> = parsed.iter().map(|m| m.platform.as_deref()).collect();
    assert_eq!(platforms, vec![None, None, Some("linux/amd64"), None, Some("linux/arm64")]);
    assert_eq!(parsed[1].path, blob(&dn));
    assert_eq!(parsed[1].manifests.len(), 2);
    assert_eq!(parsed[2].contents, leaf_a);
}

#[test]
fn walk_reports_a_missing_blob() {
    let index = r#"{"mediaType":"application/vnd.oci.image.index.v1+json","manifests":[{"digest":"sha256:0123"}]}"#;
    let bytes = tar_of(&[("index.json", index.as_bytes())]);
    let err = parse(&bytes, false).unwrap_err();
    assert_eq!(err, "extracting blobs/sha256/0123: file not found in tarball: blobs/sha256/0123");
}

// --- fixture tarballs ---

#[test]
fn fixture_default_tarball_parses() {
    let (bytes, digests) = OciTarballFixture::default().build().expect("build fixture");
    let parsed = parse(&bytes, false).expect("should parse");
    assert_eq!(parsed.len(), 2, "index + 1 manifest");
    assert_eq!(parsed[0].path, "index.json");
    assert_eq!(parsed[1].digest, digests[0]);
}

#[test]
fn fixture_dot_slash_prefix_parses() {
    let (bytes, digests) = OciTarballFixture::default()
        .with_dot_slash_prefix()
        .build()
        .expect("build fixture");
    let parsed = parse(&bytes, false).expect("should parse with ./ prefix");
    assert_eq!(parsed.len(), 2);
    assert_eq!(parsed[1].digest, digests[0]);
}

#[test]
fn fixture_multi_manifest_parses() {
    let manifest_a = r#"{"mediaType":"application/vnd.oci.image.manifest.v1+json","config":{"digest":"sha256:aaaa"},"layers":[]}"#;
    let manifest_b = r#"{"mediaType":"application/vnd.oci.image.manifest.v1+json","config":{"digest":"sha256:bbbb"},"layers":[]}"#;

    let (bytes, digests) = OciTarballFixture::default()
        .with_manifest(manifest_a)
        .add_manifest(manifest_b, "linux", "amd64")
        .build()
        .expect("build fixture");

    let parsed = parse(&bytes, false).expect("should parse multi-manifest");
    assert_eq!(parsed.len(), 3);
    assert_eq!(parsed[1].digest, digests[0]);
    assert_eq!(parsed[2].digest, digests[1]);
    assert_eq!(parsed[2].platform.as_deref(), Some("linux/amd64"));
}

#[test]
fn fixture_verify_digest_match_and_mismatch() {
    let (bytes, digests) = OciTarballFixture::default().build().expect("build fixture");
    let parsed = parse(&bytes, false).expect("should parse");

    verify_digest(&parsed, &digests[0]).expect("should match with prefix");

    let hash = digests[0].strip_prefix("sha256:").unwrap();
    verify_digest(&parsed, hash).expect("should match without prefix");

    assert!(verify_digest(&parsed, "sha256:0000dead").is_err());
}

#[test]
fn fixture_gzip_tarball_parses() {
    let (bytes, digests) = OciTarballFixture::default().with_gzip().build().expect("build fixture");
    let parsed = parse(&bytes, true).expect("should parse gzip tarball");
    assert_eq!(parsed.len(), 2);
    assert_eq!(parsed[1].digest, digests[0]);
}

#[test]
fn fixture_index_text_and_digest() {
    let (bytes, digests) = OciTarballFixture::default()
        .add_manifest("{\"mediaType\":\"m\"}", "linux", "s390x")
        .build()
        .expect("build fixture");
    let tar = read_tarball(&bytes, false);
    let index = get_file_from_tarball(&tar, "index.json").unwrap();
    assert_eq!(
        index,
        format!(
            r#"{{"mediaType":"application/vnd.oci.image.index.v1+json","manifests":[{{"digest":"{}","mediaType":"application/vnd.oci.image.manifest.v1+json"}},{{"digest":"{}","mediaType":"application/vnd.oci.image.manifest.v1+json","platform":{{"os":"linux","architecture":"s390x"}}}}]}}"#,
            digests[0], digests[1]
        )
    );
    assert_eq!(digests[1], digest_of("{\"mediaType\":\"m\"}"));
    assert_eq!(tar.entries.len(), 3);
}

// --- display ---

fn sample_info() -> Vec<ManifestInfo> {
    vec![
        ManifestInfo {
            path: "index.json".into(),
            digest: "sha256:aaa".into(),
            media_type: "application/vnd.oci.image.index.v1+json".into(),
            contents: "{}".into(),
            platform: None,
            manifests: vec![],
        },
        ManifestInfo {
            path: "blobs/sha256/bbb".into(),
            digest: "sha256:bbb".into(),
            media_type: "application/vnd.oci.image.manifest.v1+json".into(),
            contents: r#"{"config":{}}"#.into(),
            platform: Some("linux/amd64".into()),
            manifests: vec![],
        },
    ]
}

#[test]
fn print_info_does_not_panic_on_single_manifest() {
    let info = sample_info();
    let summary = info_lines(&info, false);
    let full = info_lines(&info, true);
    assert_eq!(summary.len(), full.len());
}

#[test]
fn info_lines_exact_report() {
    let lines = info_lines(&sample_info(), false);
    let expected: Vec<String> = vec![
        "The OCI tarball contains an index and 1 manifest(s):",
        "",
        "Image digest: sha256:bbb",
        "",
        "Index (index.json):",
        "  Digest: sha256:aaa",
        "  Media type: application/vnd.oci.image.index.v1+json",
        "  Platform: -",
        "  Contents: {}",
        "",
        "Manifest 1 (blobs/sha256/bbb):",
        "  Digest: sha256:bbb",
        "  Media type: application/vnd.oci.image.manifest.v1+json",
        "  Platform: linux/amd64",
        "  Contents: {\"config\":{}}",
        "",
    ]
    .into_iter()
    .map(String::from)
    .collect();
    assert_eq!(lines, expected);
}

#[test]
fn info_lines_summarizes_long_contents_unless_full() {
    let mut info = sample_info();
    info[1].contents = "x".repeat(700);
    let summary = info_lines(&info, false);
    assert!(summary[14].starts_with(&format!("  Contents: {}  [... 100 characters omitted", "x".repeat(600))));
    let full = info_lines(&info, true);
    assert_eq!(full[14], format!("  Contents: {}", "x".repeat(700)));
    let only_index = info_lines(&info[..1], false);
    assert_eq!(only_index[0], "The OCI tarball contains an index and 0 manifest(s):");
    assert_eq!(only_index[2], "");
    assert_eq!(only_index.len(), 9);
}

#[test]
fn self_referencing_index_ends_with_a_cycle_error() {
    let index = r#"{"mediaType":"x","manifests":[{"digest":"index.json"}]}"#;
    let bytes = tar_of(&[("index.json", index.as_bytes())]);
    let err = parse(&bytes, false).unwrap_err();
    assert_eq!(err, "manifest refers back to a manifest that contains it: index.json");
}

#[test]
fn shared_manifest_is_listed_for_each_reference() {
    let leaf = r#"{"mediaType":"application/vnd.oci.image.manifest.v1+json"}"#;
    let d = digest_of(leaf);
    let index = format!(
        r#"{{"mediaType":"application/vnd.oci.image.index.v1+json","manifests":[{{"digest":"{d}"}},{{"digest":"{d}"}}]}}"#
    );
    let bytes = tar_of(&[("index.json", index.as_bytes()), (&normalize_path(&d), leaf.as_bytes())]);
    let parsed = parse(&bytes, false).expect("a manifest listed twice is no cycle");
    assert_eq!(parsed.len(), 3);
}
