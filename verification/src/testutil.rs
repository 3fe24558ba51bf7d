//! Synthetic OCI tarballs for exercising the analyzer: an `index.json` that refers to each
//! manifest by digest (with its platform, when it has one), and one blob per manifest.

use vstd::prelude::*;
use vstd::utf8::encode_utf8;

use crate::archive::{
    gzip_fast, gzip_fast_of, is_alnum, name_follows_slash, plain_path, read_back, storable,
    stored_path, tar_append, tar_archive_of, tar_finish, tar_writer, tar_written,
};
use crate::builder::cmdline::{concat, concat3};
use crate::hashing::{hex_digit, lower_hex, sha256_hex, sha256_hex_of};
use crate::oci::{
    digest_of, entry_matches, extracted, find_entry, manifest_digest, normalized, tarball_entries,
    OciFailure,
};

verus! {

/// File mode of the archive's entries (0o644).
pub const TAR_FILE_MODE: u32 = 0o644;

/// The manifest a fixture holds unless told otherwise.
pub const DEFAULT_FIXTURE_MANIFEST: &'static str = "{\"mediaType\":\"application/vnd.oci.image.manifest.v1+json\",\"config\":{\"digest\":\"sha256:dead\"},\"layers\":[]}";

/// A fixture's manifest as text: its content and, when it has one, its platform (os, architecture).
pub type FixtureManifestSpec = (Seq<char>, Option<(Seq<char>, Seq<char>)>);

/// What a fixture describes: its manifests in order, whether entry paths start with `./`,
/// and whether the tarball is gzipped.
pub ghost struct FixtureSpec {
    pub manifests: Seq<FixtureManifestSpec>,
    pub dot_slash: bool,
    pub gzip: bool,
}

/// Builder for synthetic OCI tarballs with configurable manifests.
pub struct OciTarballFixture {
    manifests: Vec<(String, Option<(String, String)>)>,
    use_dot_slash_prefix: bool,
    gzip: bool,
}

impl View for OciTarballFixture {
    type V = FixtureSpec;

    closed spec fn view(&self) -> FixtureSpec {
        FixtureSpec {
            manifests: self.manifests.deep_view(),
            dot_slash: self.use_dot_slash_prefix,
            gzip: self.gzip,
        }
    }
}

impl Default for OciTarballFixture {
    /// One manifest (`DEFAULT_FIXTURE_MANIFEST`, no platform), plain paths, no gzip.
    fn default() -> (r: Self)
        ensures
            r@ == (FixtureSpec {
                manifests: seq![(DEFAULT_FIXTURE_MANIFEST@, None::<(Seq<char>, Seq<char>)>)],
                dot_slash: false,
                gzip: false,
            }),
    {
        let mut manifests: Vec<(String, Option<(String, String)>)> = Vec::new();
        manifests.push((String::from_str(DEFAULT_FIXTURE_MANIFEST), None));
        let r = OciTarballFixture { manifests, use_dot_slash_prefix: false, gzip: false };
        assert(r@.manifests =~= seq![(DEFAULT_FIXTURE_MANIFEST@, None::<(Seq<char>, Seq<char>)>)]);
        r
    }
}

/// The `platform` member the index gives a manifest with a platform.
pub open spec fn platform_json(p: Option<(Seq<char>, Seq<char>)>) -> Seq<char> {
    match p {
        Some(pa) => ",\"platform\":{\"os\":\""@ + pa.0 + "\",\"architecture\":\""@ + pa.1 + "\"}"@,
        None => Seq::empty(),
    }
}

/// How the index refers to a manifest: its digest, its media type and its platform.
pub open spec fn manifest_ref(m: FixtureManifestSpec) -> Seq<char> {
    "{\"digest\":\""@ + manifest_digest(m.0) + "\",\"mediaType\":\"application/vnd.oci.image.manifest.v1+json\""@
        + platform_json(m.1) + "}"@
}

/// The references to the manifests, in order, separated by commas.
pub open spec fn manifest_refs(ms: Seq<FixtureManifestSpec>) -> Seq<char>
    decreases ms.len(),
{
    if ms.len() == 0 {
        Seq::empty()
    } else if ms.len() == 1 {
        manifest_ref(ms[0])
    } else {
        manifest_refs(ms.drop_last()) + ","@ + manifest_ref(ms.last())
    }
}

/// The text of `index.json`: an image index listing the manifests.
pub open spec fn index_json(ms: Seq<FixtureManifestSpec>) -> Seq<char> {
    "{\"mediaType\":\"application/vnd.oci.image.index.v1+json\",\"manifests\":["@ + manifest_refs(ms) + "]}"@
}

/// What entry paths start with: `./`, or nothing.
pub open spec fn entry_prefix(dot_slash: bool) -> Seq<char> {
    if dot_slash {
        "./"@
    } else {
        Seq::empty()
    }
}

/// Where a manifest's blob lies: `blobs/sha256/` and the hex of its digest.
pub open spec fn blob_path(content: Seq<char>) -> Seq<char> {
    "blobs/sha256/"@ + sha256_hex_of(encode_utf8(content))
}

/// The blob file of a manifest.
pub open spec fn blob_file(dot_slash: bool, m: FixtureManifestSpec) -> (Seq<char>, u32, Seq<u8>) {
    (entry_prefix(dot_slash) + blob_path(m.0), TAR_FILE_MODE, encode_utf8(m.0))
}

/// The files of a fixture's tarball, in order: `index.json`, then each manifest's blob.
pub open spec fn fixture_files(f: FixtureSpec) -> Seq<(Seq<char>, u32, Seq<u8>)> {
    seq![(entry_prefix(f.dot_slash) + "index.json"@, TAR_FILE_MODE, encode_utf8(index_json(f.manifests)))]
        + f.manifests.map_values(|m: FixtureManifestSpec| blob_file(f.dot_slash, m))
}

/// The digests of a fixture's manifests, in order.
pub open spec fn fixture_digests(f: FixtureSpec) -> Seq<Seq<char>> {
    f.manifests.map_values(|m: FixtureManifestSpec| manifest_digest(m.0))
}

/// The bytes of a fixture's tarball: the archive of its files, gzipped when asked.
pub open spec fn fixture_bytes(f: FixtureSpec) -> Seq<u8> {
    if f.gzip {
        gzip_fast_of(tar_archive_of(fixture_files(f)))
    } else {
        tar_archive_of(fixture_files(f))
    }
}

/// What the analyzer finds in a fixture's tarball: the listing reads to its end,
/// `index.json` holds the index, and at the path each manifest's digest names lies a text
/// with that digest.
pub open spec fn fixture_readable(f: FixtureSpec, bytes: Seq<u8>) -> bool {
    let listing = tarball_entries(bytes, f.gzip);
    &&& listing.1
    &&& extracted(listing.0, listing.1, "index.json"@) == Ok::<Seq<char>, OciFailure>(index_json(f.manifests))
    &&& forall|i: int| 0 <= i < f.manifests.len() ==> (#[trigger] extracted(listing.0, listing.1, normalized(fixture_digests(f)[i]))
        matches Ok(t) && manifest_digest(t) == fixture_digests(f)[i])
}

proof fn hex_chars_are_alnum(data: Seq<u8>)
    ensures
        forall|k: int| 0 <= k < lower_hex(data).len() ==> is_alnum(#[trigger] lower_hex(data)[k]),
{
    assert forall|k: int| 0 <= k < lower_hex(data).len() implies is_alnum(#[trigger] lower_hex(data)[k]) by {
        let n = if k % 2 == 0 {
            data[k / 2] as int / 16
        } else {
            data[k / 2] as int % 16
        };
        assert(lower_hex(data)[k] == hex_digit(n));
    }
}

proof fn index_path_facts()
    ensures
        plain_path("index.json"@),
        stored_path("index.json"@) == "index.json"@,
        stored_path("./"@ + "index.json"@) == "index.json"@,
        "index.json"@[0] == 'i',
{
    reveal_strlit("index.json");
    reveal_strlit("./");
    assert(("./"@ + "index.json"@).skip(2) =~= "index.json"@);
}

proof fn blob_path_shape(content: Seq<char>)
    ensures
        blob_path(content).len() >= 13,
        blob_path(content)[0] == 'b',
        stored_path(blob_path(content)) == blob_path(content),
        stored_path("./"@ + blob_path(content)) == blob_path(content),
        normalized(manifest_digest(content)) == blob_path(content),
{
    reveal_strlit("blobs/sha256/");
    reveal_strlit("./");
    reveal_strlit("sha256:");
    let h = sha256_hex_of(encode_utf8(content));
    assert(("./"@ + blob_path(content)).skip(2) =~= blob_path(content));
    let d = manifest_digest(content);
    assert(d.subrange(0, 7) =~= "sha256:"@);
    assert(d.skip(7) =~= h);
}

proof fn blob_path_is_plain(content: Seq<char>)
    requires
        sha256_hex_of(encode_utf8(content)).len() == 64,
    ensures
        plain_path(blob_path(content)),
{
    reveal_strlit("blobs/sha256/");
    let h = sha256_hex_of(encode_utf8(content));
    let p = blob_path(content);
    hex_chars_are_alnum(crate::hashing::sha256_of(encode_utf8(content)));
    assert forall|i: int| 0 <= i < p.len() implies is_alnum(#[trigger] p[i]) || p[i] == '.' || p[i] == '_'
        || p[i] == '-' || p[i] == '/' by {
        if i >= 13 {
            assert(p[i] == h[i - 13]);
        }
    }
    assert forall|i: int| 0 <= i < p.len() - 1 implies #[trigger] name_follows_slash(p, i) by {
        if i >= 13 {
            assert(p[i] == h[i - 13]);
            assert(is_alnum(h[i - 13]));
        }
        if i + 1 >= 13 {
            assert(p[i + 1] == h[i + 1 - 13]);
        }
    }
    assert(p.last() == h[63]);
}

proof fn same_blob_same_digest(a: Seq<char>, b: Seq<char>)
    requires
        blob_path(a) == blob_path(b),
    ensures
        manifest_digest(a) == manifest_digest(b),
{
    reveal_strlit("blobs/sha256/");
    assert(blob_path(a).skip(13) =~= sha256_hex_of(encode_utf8(a)));
    assert(blob_path(b).skip(13) =~= sha256_hex_of(encode_utf8(b)));
}

proof fn find_entry_reaches(entries: Seq<(Seq<char>, Seq<u8>)>, path: Seq<char>, lo: int, k: int)
    requires
        0 <= lo <= k < entries.len(),
        entry_matches(entries[k].0, path),
    ensures
        find_entry(entries, path, lo) matches Some(j) && lo <= j <= k && entry_matches(entries[j].0, path),
    decreases k - lo,
{
    if !entry_matches(entries[lo].0, path) {
        find_entry_reaches(entries, path, lo + 1, k);
    }
}

/// The text of an entry whose data is a text's UTF-8 encoding, found for `path`.
proof fn extracted_text(entries: Seq<(Seq<char>, Seq<u8>)>, path: Seq<char>, j: int, text: Seq<char>)
    requires
        find_entry(entries, path, 0) == Some(j),
        0 <= j < entries.len(),
        entries[j].1 == encode_utf8(text),
    ensures
        extracted(entries, true, path) == Ok::<Seq<char>, OciFailure>(text),
{
    vstd::utf8::encode_utf8_valid_utf8(text);
    vstd::utf8::encode_utf8_decode_utf8(text);
}

/// The listing of a fixture's tarball, read back.
pub open spec fn fixture_listing(f: FixtureSpec) -> Seq<(Seq<char>, Seq<u8>)> {
    fixture_files(f).map_values(|x: (Seq<char>, u32, Seq<u8>)| read_back(x))
}

proof fn listing_blob(f: FixtureSpec, k: int)
    requires
        0 <= k < f.manifests.len(),
    ensures
        fixture_listing(f)[k + 1] == (blob_path(f.manifests[k].0), encode_utf8(f.manifests[k].0)),
        fixture_listing(f).len() == f.manifests.len() + 1,
{
    let files = fixture_files(f);
    blob_path_shape(f.manifests[k].0);
    assert(files[k + 1] == blob_file(f.dot_slash, f.manifests[k]));
}

proof fn listing_index(f: FixtureSpec)
    ensures
        fixture_listing(f)[0].0 == "index.json"@,
        fixture_listing(f)[0].1 == encode_utf8(index_json(f.manifests)),
{
    let entries = fixture_listing(f);
    let files = fixture_files(f);
    index_path_facts();
    assert(entries[0] == read_back(files[0]));
}

proof fn index_readable(f: FixtureSpec)
    ensures
        extracted(fixture_listing(f), true, "index.json"@) == Ok::<Seq<char>, OciFailure>(index_json(f.manifests)),
{
    let entries = fixture_listing(f);
    listing_index(f);
    assert(entry_matches(entries[0].0, "index.json"@));
    assert(find_entry(entries, "index.json"@, 0) == Some(0int));
    extracted_text(entries, "index.json"@, 0, index_json(f.manifests));
}

proof fn index_name_is_not_a_blob(p: Seq<char>, q: Seq<char>)
    requires
        p == "index.json"@,
        q.len() > 0,
        q[0] == 'b',
    ensures
        !entry_matches(p, q),
{
    index_path_facts();
    assert((seq!['.', '/'] + q)[0] == '.');
}

proof fn blob_entry_matches(f: FixtureSpec, j: int, q: Seq<char>)
    requires
        1 <= j <= f.manifests.len(),
        q.len() > 0,
        q[0] == 'b',
        entry_matches(fixture_listing(f)[j].0, q),
    ensures
        blob_path(f.manifests[j - 1].0) == q,
        fixture_listing(f)[j].1 == encode_utf8(f.manifests[j - 1].0),
{
    reveal_strlit("./");
    listing_blob(f, j - 1);
    assert(("./"@ + q)[0] == '.');
    blob_path_shape(f.manifests[j - 1].0);
}

proof fn manifest_readable(f: FixtureSpec, i: int)
    requires
        0 <= i < f.manifests.len(),
    ensures
        extracted(fixture_listing(f), true, normalized(fixture_digests(f)[i])) matches Ok(t)
            && manifest_digest(t) == fixture_digests(f)[i],
{
    let entries = fixture_listing(f);
    let c = f.manifests[i].0;
    blob_path_shape(c);
    let q = normalized(fixture_digests(f)[i]);
    assert(q == blob_path(c));
    listing_blob(f, i);
    assert(entry_matches(entries[i + 1].0, q));
    find_entry_reaches(entries, q, 0, i + 1);
    let j = find_entry(entries, q, 0)->0;
    listing_index(f);
    index_name_is_not_a_blob(entries[0].0, q);
    assert(j != 0);
    blob_entry_matches(f, j, q);
    let cj = f.manifests[j - 1].0;
    same_blob_same_digest(cj, c);
    extracted_text(entries, q, j, cj);
}

/// Read back, a fixture's files give the index at `index.json` and, at the path of each
/// manifest's digest, a text with that digest.
proof fn fixture_listing_readable(f: FixtureSpec)
    ensures
        extracted(fixture_listing(f), true, "index.json"@) == Ok::<Seq<char>, OciFailure>(index_json(f.manifests)),
        forall|i: int| 0 <= i < f.manifests.len() ==> (#[trigger] extracted(fixture_listing(f), true, normalized(fixture_digests(f)[i]))
            matches Ok(t) && manifest_digest(t) == fixture_digests(f)[i]),
{
    index_readable(f);
    assert forall|i: int| 0 <= i < f.manifests.len() implies (#[trigger] extracted(fixture_listing(f), true, normalized(fixture_digests(f)[i]))
        matches Ok(t) && manifest_digest(t) == fixture_digests(f)[i]) by {
        manifest_readable(f, i);
    }
}

/// The reference the index makes to a manifest.
fn manifest_ref_text(content: &str, platform: &Option<(String, String)>) -> (r: String)
    ensures
        r@ == manifest_ref((content@, platform.deep_view())),
{
    let digest = digest_of(content);
    let mut r = concat3("{\"digest\":\"", digest.as_str(), "\",\"mediaType\":\"application/vnd.oci.image.manifest.v1+json\"");
    match platform {
        Some(p) => {
            let pj = concat3(",\"platform\":{\"os\":\"", p.0.as_str(), "\",\"architecture\":\"");
            r.append(pj.as_str());
            r.append(p.1.as_str());
            r.append("\"}");
        },
        None => {},
    }
    r.append("}");
    r
}

impl OciTarballFixture {
    /// Entry paths start with `./` (exercises path matching).
    pub fn with_dot_slash_prefix(self) -> (r: Self)
        ensures
            r@ == (FixtureSpec { dot_slash: true, ..self@ }),
    {
        OciTarballFixture { manifests: self.manifests, use_dot_slash_prefix: true, gzip: self.gzip }
    }

    /// The tarball is gzipped (exercises decompression).
    pub fn with_gzip(self) -> (r: Self)
        ensures
            r@ == (FixtureSpec { gzip: true, ..self@ }),
    {
        OciTarballFixture { manifests: self.manifests, use_dot_slash_prefix: self.use_dot_slash_prefix, gzip: true }
    }

    /// Replaces the manifests with one of the given content, without platform.
    pub fn with_manifest(self, content: &str) -> (r: Self)
        ensures
            r@ == (FixtureSpec { manifests: seq![(content@, None::<(Seq<char>, Seq<char>)>)], ..self@ }),
    {
        let mut manifests: Vec<(String, Option<(String, String)>)> = Vec::new();
        manifests.push((String::from_str(content), None));
        let r = OciTarballFixture { manifests, use_dot_slash_prefix: self.use_dot_slash_prefix, gzip: self.gzip };
        assert(r@.manifests =~= seq![(content@, None::<(Seq<char>, Seq<char>)>)]);
        r
    }

    /// Adds a manifest of the given content for the platform `os/arch`.
    pub fn add_manifest(self, content: &str, os: &str, arch: &str) -> (r: Self)
        ensures
            r@ == (FixtureSpec { manifests: self@.manifests.push((content@, Some((os@, arch@)))), ..self@ }),
    {
        let mut manifests = self.manifests;
        let ghost before = manifests.deep_view();
        manifests.push((String::from_str(content), Some((String::from_str(os), String::from_str(arch)))));
        let r = OciTarballFixture { manifests, use_dot_slash_prefix: self.use_dot_slash_prefix, gzip: self.gzip };
        assert(r@.manifests =~= before.push((content@, Some((os@, arch@)))));
        r
    }

    /// Builds the tarball: its bytes and the digests of its manifests, in order. Read back,
    /// the tarball holds the index and, at the path each digest names, a manifest with that
    /// digest. It is always built (`Some`).
    pub fn build(self) -> (r: Option<(Vec<u8>, Vec<String>)>)
        ensures
            r is Some,
            r matches Some(out) ==> out.0@ == fixture_bytes(self@) && out.1.deep_view() == fixture_digests(self@),
            r matches Some(out) ==> fixture_readable(self@, out.0@),
    {
        let ghost f = self@;
        let ghost files = fixture_files(f);
        let n = self.manifests.len();
        let mut digests: Vec<String> = Vec::new();
        let mut refs = String::new();
        let mut i: usize = 0;
        while i < n
            invariant
                i <= n,
                n == f.manifests.len(),
                f == self@,
                digests.deep_view() == fixture_digests(f).take(i as int),
                refs@ == manifest_refs(f.manifests.take(i as int)),
            decreases n - i,
        {
            let m = &self.manifests[i];
            let ghost ms = f.manifests.take(i as int + 1);
            assert(ms.drop_last() =~= f.manifests.take(i as int));
            assert(f.manifests[i as int] == (m.0@, m.1.deep_view()));
            if i > 0 {
                refs.append(",");
            } else {
                assert(f.manifests.take(0) =~= Seq::<FixtureManifestSpec>::empty());
            }
            let r = manifest_ref_text(m.0.as_str(), &m.1);
            refs.append(r.as_str());
            let ghost before = digests.deep_view();
            digests.push(digest_of(m.0.as_str()));
            assert(digests.deep_view() =~= before.push(manifest_digest(m.0@)));
            assert(fixture_digests(f).take(i as int + 1) =~= fixture_digests(f).take(i as int).push(
                manifest_digest(m.0@),
            ));
            i = i + 1;
        }
        assert(f.manifests.take(n as int) =~= f.manifests);
        assert(fixture_digests(f).take(n as int) =~= fixture_digests(f));
        let index = concat3(
            "{\"mediaType\":\"application/vnd.oci.image.index.v1+json\",\"manifests\":[",
            refs.as_str(),
            "]}",
        );
        let prefix = if self.use_dot_slash_prefix { "./" } else { "" };
        assert(prefix@ == entry_prefix(f.dot_slash)) by {
            reveal_strlit("");
        }
        let mut w = tar_writer();
        let index_path = concat(prefix, "index.json");
        proof {
            index_path_facts();
            assert(index_path@ =~= files[0].0);
            if !f.dot_slash {
                assert(files[0].0 =~= "index.json"@);
            }
            assert(storable(files[0].0));
        }
        if !tar_append(&mut w, index_path.as_str(), TAR_FILE_MODE, index.as_str().as_bytes()) {
            return None;
        }
        assert(tar_written(w) =~= files.take(1));
        let mut j: usize = 0;
        while j < n
            invariant
                j <= n,
                n == f.manifests.len(),
                f == self@,
                files == fixture_files(f),
                files.len() == n + 1,
                prefix@ == entry_prefix(f.dot_slash),
                tar_written(w) == files.take(j as int + 1),
                forall|k: int| 0 <= k <= j ==> #[trigger] storable(files[k].0),
            decreases n - j,
        {
            let m = &self.manifests[j];
            assert(files[j as int + 1] == blob_file(f.dot_slash, (m.0@, m.1.deep_view())));
            let hex = sha256_hex(m.0.as_str().as_bytes());
            let path = concat3(prefix, "blobs/sha256/", hex.as_str());
            assert(path@ =~= files[j as int + 1].0);
            assert(encode_utf8(m.0@) == files[j as int + 1].2);
            proof {
                blob_path_is_plain(m.0@);
                blob_path_shape(m.0@);
                if !f.dot_slash {
                    assert(files[j as int + 1].0 =~= blob_path(m.0@));
                }
                assert(storable(files[j as int + 1].0));
            }
            if !tar_append(&mut w, path.as_str(), TAR_FILE_MODE, m.0.as_str().as_bytes()) {
                return None;
            }
            assert(tar_written(w) =~= files.take(j as int + 2));
            j = j + 1;
        }
        assert(files.take(n as int + 1) =~= files);
        let ghost written = tar_written(w);
        let archive = match tar_finish(w) {
            Some(a) => a,
            None => {
                return None;
            },
        };
        proof {
            assert(written == files);
            assert(written.map_values(|x: (Seq<char>, u32, Seq<u8>)| read_back(x)) == fixture_listing(f));
            fixture_listing_readable(f);
        }
        if self.gzip {
            match gzip_fast(archive.as_slice()) {
                Some(gz) => Some((gz, digests)),
                None => None,
            }
        } else {
            Some((archive, digests))
        }
    }
}

} // verus!
