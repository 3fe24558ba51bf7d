//! OCI tarball parsing and analysis (OCI image layout: `index.json`, `blobs/sha256/...`).
//!
//! The walk over an image's manifests is a state machine: the program reads the tarball
//! and decodes each manifest's JSON; this module finds files in the archive, computes
//! digests, and decides which manifest comes next (depth first, from `index.json`).

use vstd::prelude::*;
use vstd::utf8::{decode_utf8, encode_utf8, valid_utf8};

use crate::archive::{gunzip, gunzip_of, tar_entries, tar_entries_of};
use crate::builder::cmdline::{concat, concat3};
use crate::hashing::{sha256_hex, sha256_hex_of};
use crate::text::{
    decimal_string, decimal_text, decimal_text_has_no_newline, push_char, remove_newlines,
    starts_with, str_eq, strip_prefix, utf8_decode, without_newlines, without_newlines_has_none,
};

verus! {

/// The platform a manifest is built for.
#[derive(Debug, Clone)]
pub struct PlatformSpec {
    pub os: String,
    pub architecture: String,
}

/// A manifest referenced from an index.
#[derive(Debug, Clone)]
pub struct ManifestDescriptor {
    pub digest: String,
    pub media_type: Option<String>,
    pub platform: Option<PlatformSpec>,
}

/// What an index or manifest's JSON says that the walk needs.
pub struct ManifestJson {
    pub media_type: String,
    pub manifests: Vec<ManifestDescriptor>,
}

/// A parsed manifest or index entry of an OCI tarball.
#[derive(Debug, Clone)]
pub struct ManifestInfo {
    pub path: String,
    pub contents: String,
    pub digest: String,
    pub media_type: String,
    pub platform: Option<String>,
    pub manifests: Vec<ManifestDescriptor>,
}

/// A manifest file read from the tarball: its normalized path, its text and its digest.
pub struct ManifestFile {
    pub path: String,
    pub contents: String,
    pub digest: String,
}

/// The entries of a tarball (path, data), in order, up to the first read error, and
/// whether it was read to its end without one.
pub struct TarballContents {
    pub entries: Vec<(String, Vec<u8>)>,
    pub complete: bool,
}

/// Why an OCI tarball could not be analyzed.
#[derive(Debug)]
pub enum OciError {
    /// Reading the archive failed before the file (its normalized path) was found.
    TarRead(String),
    /// The archive has no file at the path (or at `./` and the path).
    FileNotFound(String),
    /// The file at the path is not valid UTF-8.
    NotUtf8(String),
    /// The tarball has no manifest besides the index.
    NoManifest,
    /// The image digest differs from the expected one (actual, expected; both without `sha256:`).
    DigestMismatch(String, String),
    /// A manifest refers back to a manifest that contains it (its normalized path).
    ManifestCycle(String),
}

/// An OCI error with its texts as character sequences.
pub ghost enum OciFailure {
    TarRead(Seq<char>),
    FileNotFound(Seq<char>),
    NotUtf8(Seq<char>),
    NoManifest,
    DigestMismatch(Seq<char>, Seq<char>),
    ManifestCycle(Seq<char>),
}

impl View for OciError {
    type V = OciFailure;

    open spec fn view(&self) -> OciFailure {
        match self {
            OciError::TarRead(p) => OciFailure::TarRead(p@),
            OciError::FileNotFound(p) => OciFailure::FileNotFound(p@),
            OciError::NotUtf8(p) => OciFailure::NotUtf8(p@),
            OciError::NoManifest => OciFailure::NoManifest,
            OciError::DigestMismatch(a, e) => OciFailure::DigestMismatch(a@, e@),
            OciError::ManifestCycle(p) => OciFailure::ManifestCycle(p@),
        }
    }
}

/// The message of an OCI error.
pub open spec fn oci_message(f: OciFailure) -> Seq<char> {
    match f {
        OciFailure::TarRead(p) => "extracting "@ + p + ": reading tar entry"@,
        OciFailure::FileNotFound(p) => "extracting "@ + p + ": file not found in tarball: "@ + p,
        OciFailure::NotUtf8(p) => "extracting "@ + p + ": reading "@ + p,
        OciFailure::NoManifest => "no manifest found in tarball to verify"@,
        OciFailure::DigestMismatch(a, e) => "image does not have the expected digest: "@ + a + " != "@ + e,
        OciFailure::ManifestCycle(p) => "manifest refers back to a manifest that contains it: "@ + p,
    }
}

impl OciError {
    /// The error's message.
    pub fn message(&self) -> (r: String)
        ensures
            r@ == oci_message(self@),
    {
        match self {
            OciError::TarRead(p) => concat3("extracting ", p.as_str(), ": reading tar entry"),
            OciError::FileNotFound(p) => {
                let mut m = concat3("extracting ", p.as_str(), ": file not found in tarball: ");
                m.append(p.as_str());
                m
            },
            OciError::NotUtf8(p) => {
                let mut m = concat3("extracting ", p.as_str(), ": reading ");
                m.append(p.as_str());
                m
            },
            OciError::NoManifest => String::from_str("no manifest found in tarball to verify"),
            OciError::DigestMismatch(a, e) => {
                let mut s = concat3("image does not have the expected digest: ", a.as_str(), " != ");
                s.append(e.as_str());
                s
            },
            OciError::ManifestCycle(p) => concat("manifest refers back to a manifest that contains it: ", p.as_str()),
        }
    }
}

/// `sha256:`
pub open spec fn sha256_prefix() -> Seq<char> {
    "sha256:"@
}

/// An OCI path: `sha256:<hex>` names the blob `blobs/sha256/<hex>`; other paths stand as they are.
pub open spec fn normalized(path: Seq<char>) -> Seq<char> {
    if starts_with(path, sha256_prefix()) {
        "blobs/sha256/"@ + path.skip(7)
    } else {
        path
    }
}

/// Normalizes an OCI path (`sha256:abc...` becomes `blobs/sha256/abc...`).
pub fn normalize_path(path: &str) -> (r: String)
    ensures
        r@ == normalized(path@),
{
    proof {
        reveal_strlit("sha256:");
    }
    match strip_prefix(path, "sha256:") {
        Some(checksum) => concat("blobs/sha256/", checksum.as_str()),
        None => String::from_str(path),
    }
}

/// A file extension that marks a gzip-compressed tarball.
pub open spec fn is_gzip_ext(ext: Seq<char>) -> bool {
    ext == "gz"@ || ext == "tgz"@
}

/// Whether a tarball with this file extension is gzip-compressed (`gz` or `tgz`).
pub fn is_gzip_extension(ext: &str) -> (r: bool)
    ensures
        r == is_gzip_ext(ext@),
{
    str_eq(ext, "gz") || str_eq(ext, "tgz")
}

/// The entries of a tarball's bytes, decompressed first when it is gzipped; it is complete
/// only when both the decompression and the archive read to their end.
pub open spec fn tarball_entries(raw: Seq<u8>, gzip: bool) -> (Seq<(Seq<char>, Seq<u8>)>, bool) {
    if gzip {
        let (data, ok) = gunzip_of(raw);
        (tar_entries_of(data).0, tar_entries_of(data).1 && ok)
    } else {
        tar_entries_of(raw)
    }
}

/// Reads the entries of a tarball held in memory, gzipped or not.
pub fn read_tarball(raw: &[u8], gzip: bool) -> (r: TarballContents)
    ensures
        r.entries.deep_view() == tarball_entries(raw@, gzip).0,
        r.complete == tarball_entries(raw@, gzip).1,
{
    if gzip {
        let (data, ok) = gunzip(raw);
        let (entries, complete) = tar_entries(data.as_slice());
        TarballContents { entries, complete: complete && ok }
    } else {
        let (entries, complete) = tar_entries(raw);
        TarballContents { entries, complete }
    }
}

/// An entry stands for `path` when its path is `path` or `./` followed by `path`.
pub open spec fn entry_matches(entry_path: Seq<char>, path: Seq<char>) -> bool {
    entry_path == path || entry_path == seq!['.', '/'] + path
}

/// The first entry at or after `i` that stands for `path`.
pub open spec fn find_entry(entries: Seq<(Seq<char>, Seq<u8>)>, path: Seq<char>, i: int) -> Option<int>
    decreases entries.len() - i,
{
    if i < 0 || i >= entries.len() {
        None
    } else if entry_matches(entries[i].0, path) {
        Some(i)
    } else {
        find_entry(entries, path, i + 1)
    }
}

/// What extracting `path` from the entries gives: the first matching entry's text; or,
/// with no matching entry, a read error when the archive was not read to its end and
/// `FileNotFound` when it was.
pub open spec fn extracted(entries: Seq<(Seq<char>, Seq<u8>)>, complete: bool, path: Seq<char>) -> Result<Seq<char>, OciFailure> {
    match find_entry(entries, path, 0) {
        Some(i) => if valid_utf8(entries[i].1) {
            Ok(decode_utf8(entries[i].1))
        } else {
            Err(OciFailure::NotUtf8(path))
        },
        None => if complete {
            Err(OciFailure::FileNotFound(path))
        } else {
            Err(OciFailure::TarRead(path))
        },
    }
}

/// Extracts a file's text from a tarball, accepting the `./` prefix on entry paths.
pub fn get_file_from_tarball(tar: &TarballContents, path: &str) -> (r: Result<String, OciError>)
    ensures
        match extracted(tar.entries.deep_view(), tar.complete, path@) {
            Ok(s) => (r matches Ok(x) && x@ == s),
            Err(f) => (r matches Err(e) && e@ == f),
        },
{
    let mut dotslash = String::new();
    push_char(&mut dotslash, '.');
    push_char(&mut dotslash, '/');
    dotslash.append(path);
    assert(dotslash@ =~= seq!['.', '/'] + path@);
    let ghost entries = tar.entries.deep_view();
    let mut i: usize = 0;
    while i < tar.entries.len()
        invariant
            i <= tar.entries.len(),
            entries == tar.entries.deep_view(),
            dotslash@ == seq!['.', '/'] + path@,
            find_entry(entries, path@, 0) == find_entry(entries, path@, i as int),
        decreases tar.entries.len() - i,
    {
        let entry_path = tar.entries[i].0.as_str();
        if str_eq(entry_path, path) || str_eq(entry_path, dotslash.as_str()) {
            assert(entries[i as int].0 == entry_path@);
            assert(entry_matches(entries[i as int].0, path@));
            assert(find_entry(entries, path@, i as int) == Some(i as int));
            let data = tar.entries[i].1.clone();
            assert(data@ == entries[i as int].1);
            return match utf8_decode(data) {
                Some(text) => Ok(text),
                None => Err(OciError::NotUtf8(String::from_str(path))),
            };
        }
        i = i + 1;
    }
    if tar.complete {
        Err(OciError::FileNotFound(String::from_str(path)))
    } else {
        Err(OciError::TarRead(String::from_str(path)))
    }
}

/// The digest OCI gives a text: `sha256:` and the SHA-256 of its UTF-8 bytes in lowercase hex.
pub open spec fn manifest_digest(contents: Seq<char>) -> Seq<char> {
    sha256_prefix() + sha256_hex_of(encode_utf8(contents))
}

/// The digest of a manifest's text.
pub fn digest_of(contents: &str) -> (r: String)
    ensures
        r@ == manifest_digest(contents@),
{
    let hex = sha256_hex(contents.as_bytes());
    concat("sha256:", hex.as_str())
}

/// Whether `r` is what loading the manifest at `path` from the entries gives.
pub open spec fn loaded(entries: Seq<(Seq<char>, Seq<u8>)>, complete: bool, path: Seq<char>, r: Result<ManifestFile, OciError>) -> bool {
    match extracted(entries, complete, normalized(path)) {
        Ok(text) => (r matches Ok(f) && f.path@ == normalized(path) && f.contents@ == text
            && f.digest@ == manifest_digest(text)),
        Err(e) => (r matches Err(x) && x@ == e),
    }
}

/// Loads the manifest at an OCI path: normalizes the path, extracts the file and digests it.
pub fn load_manifest(tar: &TarballContents, path: &str) -> (r: Result<ManifestFile, OciError>)
    ensures
        loaded(tar.entries.deep_view(), tar.complete, path@, r),
{
    let normalized_path = normalize_path(path);
    let contents = get_file_from_tarball(tar, normalized_path.as_str())?;
    let digest = digest_of(contents.as_str());
    Ok(ManifestFile { path: normalized_path, contents, digest })
}

/// `os/architecture`.
pub open spec fn platform_text(p: PlatformSpec) -> Seq<char> {
    p.os@ + "/"@ + p.architecture@
}

/// How a descriptor's platform is shown: `os/architecture`.
pub fn platform_string(p: &PlatformSpec) -> (r: String)
    ensures
        r@ == platform_text(*p),
{
    concat3(p.os.as_str(), "/", p.architecture.as_str())
}

/// A manifest still to be visited: its OCI path, the platform its index gave it, and the
/// normalized paths of the manifests that contain it (outermost first).
pub struct PendingManifest {
    pub path: String,
    pub platform: Option<String>,
    pub ancestors: Vec<String>,
}

/// A walk request as texts: path, platform, containing manifests.
pub type WalkRequest = (Seq<char>, Option<Seq<char>>, Seq<Seq<char>>);

/// A pending manifest as (path, platform, containing manifests) texts.
pub open spec fn pending_view(p: PendingManifest) -> WalkRequest {
    (p.path@, p.platform.deep_view(), p.ancestors.deep_view())
}

/// Where a descriptor leads the walk: its digest, with its platform as `os/architecture`,
/// inside the given manifests.
pub open spec fn descriptor_request(d: ManifestDescriptor, ancestors: Seq<Seq<char>>) -> WalkRequest {
    (d.digest@, match d.platform {
        Some(p) => Some(platform_text(p)),
        None => None,
    }, ancestors)
}

/// The walk of an OCI tarball's manifests, depth first from `index.json`: the manifests
/// visited so far, in order, and the stack of those still to visit (next on top).
pub struct ManifestWalk {
    pub visited: Vec<ManifestInfo>,
    pub pending: Vec<PendingManifest>,
}

/// The pending stack as texts, bottom first.
pub open spec fn pending_stack(w: ManifestWalk) -> Seq<WalkRequest> {
    w.pending@.map_values(|p: PendingManifest| pending_view(p))
}

/// The children of a manifest as walk requests, in the order its JSON lists them, each
/// inside the given manifests.
pub open spec fn child_requests(ds: Seq<ManifestDescriptor>, ancestors: Seq<Seq<char>>) -> Seq<WalkRequest> {
    ds.map_values(|d: ManifestDescriptor| descriptor_request(d, ancestors))
}

/// Whether a walk request names a manifest that contains it: a cycle.
pub open spec fn cyclic(req: WalkRequest) -> bool {
    req.2.contains(normalized(req.0))
}

/// A copy of a list of texts.
fn copy_texts(v: &Vec<String>) -> (r: Vec<String>)
    ensures
        r.deep_view() == v.deep_view(),
{
    let mut r: Vec<String> = Vec::new();
    let mut i: usize = 0;
    while i < v.len()
        invariant
            i <= v.len(),
            r.deep_view() == v.deep_view().take(i as int),
        decreases v.len() - i,
    {
        let ghost before = r.deep_view();
        r.push(v[i].clone());
        assert(r.deep_view() =~= before.push(v.deep_view()[i as int]));
        assert(v.deep_view().take(i as int + 1) =~= v.deep_view().take(i as int).push(v.deep_view()[i as int]));
        i = i + 1;
    }
    assert(v.deep_view().take(v.len() as int) =~= v.deep_view());
    r
}

/// Whether a list of texts holds the text.
fn holds_text(v: &Vec<String>, t: &str) -> (r: bool)
    ensures
        r == v.deep_view().contains(t@),
{
    let mut i: usize = 0;
    while i < v.len()
        invariant
            i <= v.len(),
            forall|k: int| 0 <= k < i ==> v.deep_view()[k] != t@,
        decreases v.len() - i,
    {
        if str_eq(v[i].as_str(), t) {
            assert(v.deep_view()[i as int] == t@);
            return true;
        }
        i = i + 1;
    }
    false
}

/// A manifest visited by the walk: its normalized path and the platform its index gave it.
pub type VisitSpec = (Seq<char>, Option<Seq<char>>);

/// The state of a walk as texts: the manifests visited, in order; the stack of requests
/// still to visit (next on top); and the failure that ended it, if one did.
pub ghost struct WalkSpec {
    pub visited: Seq<VisitSpec>,
    pub pending: Seq<WalkRequest>,
    pub failure: Option<OciFailure>,
}

/// A walk under way, as texts.
pub open spec fn walk_view(w: ManifestWalk) -> WalkSpec {
    WalkSpec {
        visited: w.visited@.map_values(|i: ManifestInfo| (i.path@, i.platform.deep_view())),
        pending: pending_stack(w),
        failure: None,
    }
}

/// Recording the manifest on top of the stack, loaded from `path`, whose JSON lists
/// `children`: it is visited with its platform, and its children replace it on the stack,
/// the first on top, inside the manifests that contained it and inside it.
pub open spec fn record_step(s: WalkSpec, path: Seq<char>, children: Seq<ManifestDescriptor>) -> WalkSpec {
    let top = s.pending.last();
    WalkSpec {
        visited: s.visited.push((path, top.1)),
        pending: s.pending.drop_last() + child_requests(children, top.2.push(path)).reverse(),
        failure: s.failure,
    }
}

/// One step of the walk over a tarball's entries, with `decode` giving the descriptors a
/// manifest's text lists: the request on top is refused as a cycle, fails to load, or is
/// recorded (`next_file`, then `record`). A finished or failed walk stays as it is.
pub open spec fn walk_step(
    entries: Seq<(Seq<char>, Seq<u8>)>,
    complete: bool,
    decode: spec_fn(Seq<char>) -> Seq<ManifestDescriptor>,
    s: WalkSpec,
) -> WalkSpec {
    if s.failure is Some || s.pending.len() == 0 {
        s
    } else {
        let top = s.pending.last();
        if cyclic(top) {
            WalkSpec { failure: Some(OciFailure::ManifestCycle(normalized(top.0))), ..s }
        } else {
            match extracted(entries, complete, normalized(top.0)) {
                Ok(text) => record_step(s, normalized(top.0), decode(text)),
                Err(f) => WalkSpec { failure: Some(f), ..s },
            }
        }
    }
}

/// The walk after `k` steps.
pub open spec fn run_walk(
    entries: Seq<(Seq<char>, Seq<u8>)>,
    complete: bool,
    decode: spec_fn(Seq<char>) -> Seq<ManifestDescriptor>,
    s: WalkSpec,
    k: nat,
) -> WalkSpec
    decreases k,
{
    if k == 0 {
        s
    } else {
        run_walk(entries, complete, decode, walk_step(entries, complete, decode, s), (k - 1) as nat)
    }
}

/// The walk's start: nothing visited, `index.json` to visit.
pub open spec fn initial_walk() -> WalkSpec {
    WalkSpec {
        visited: Seq::empty(),
        pending: seq![("index.json"@, None::<Seq<char>>, Seq::<Seq<char>>::empty())],
        failure: None,
    }
}

/// The depth-first preorder from a request, looking at most `fuel` levels deep (`None`
/// when that is not deep enough): the request itself with its platform, then what each
/// child gives, in the order its JSON lists them; or the first failure met in that order
/// (a cycle, or a file that does not load).
pub open spec fn preorder(
    entries: Seq<(Seq<char>, Seq<u8>)>,
    complete: bool,
    decode: spec_fn(Seq<char>) -> Seq<ManifestDescriptor>,
    req: WalkRequest,
    fuel: nat,
) -> Option<Result<Seq<VisitSpec>, OciFailure>>
    decreases fuel, 0nat,
{
    if fuel == 0 {
        None
    } else if cyclic(req) {
        Some(Err(OciFailure::ManifestCycle(normalized(req.0))))
    } else {
        match extracted(entries, complete, normalized(req.0)) {
            Err(f) => Some(Err(f)),
            Ok(text) => match preorder_all(
                entries,
                complete,
                decode,
                child_requests(decode(text), req.2.push(normalized(req.0))),
                (fuel - 1) as nat,
            ) {
                Some(Ok(v)) => Some(Ok(seq![(normalized(req.0), req.1)] + v)),
                other => other,
            },
        }
    }
}

/// The preorders from requests in turn, run together; or the first failure.
pub open spec fn preorder_all(
    entries: Seq<(Seq<char>, Seq<u8>)>,
    complete: bool,
    decode: spec_fn(Seq<char>) -> Seq<ManifestDescriptor>,
    reqs: Seq<WalkRequest>,
    fuel: nat,
) -> Option<Result<Seq<VisitSpec>, OciFailure>>
    decreases fuel, reqs.len(),
{
    if reqs.len() == 0 {
        Some(Ok(Seq::empty()))
    } else {
        match preorder(entries, complete, decode, reqs[0], fuel) {
            Some(Ok(v)) => match preorder_all(entries, complete, decode, reqs.drop_first(), fuel) {
                Some(Ok(w)) => Some(Ok(v + w)),
                other => other,
            },
            other => other,
        }
    }
}

impl ManifestWalk {
    /// A walk that starts at `index.json`, with no platform.
    pub fn new() -> (r: Self)
        ensures
            r.visited@.len() == 0,
            pending_stack(r) == seq![("index.json"@, None::<Seq<char>>, Seq::<Seq<char>>::empty())],
    {
        let mut pending: Vec<PendingManifest> = Vec::new();
        let ancestors: Vec<String> = Vec::new();
        assert(ancestors.deep_view() =~= Seq::<Seq<char>>::empty());
        pending.push(PendingManifest { path: String::from_str("index.json"), platform: None, ancestors });
        let r = ManifestWalk { visited: Vec::new(), pending };
        assert(pending_stack(r) =~= seq![("index.json"@, None::<Seq<char>>, Seq::<Seq<char>>::empty())]);
        r
    }

    /// Whether every manifest has been visited.
    pub fn is_done(&self) -> (r: bool)
        ensures
            r == (self.pending@.len() == 0),
    {
        self.pending.len() == 0
    }

    /// Loads the file of the manifest to visit next (the top of the stack); a manifest that
    /// one of the manifests containing it names again is a cycle, which ends the walk.
    pub fn next_file(&self, tar: &TarballContents) -> (r: Result<ManifestFile, OciError>)
        requires
            self.pending@.len() > 0,
        ensures
            cyclic(pending_view(self.pending@.last())) ==> (r matches Err(e)
                && e@ == OciFailure::ManifestCycle(normalized(self.pending@.last().path@))),
            !cyclic(pending_view(self.pending@.last())) ==> loaded(tar.entries.deep_view(), tar.complete, self.pending@.last().path@, r),
    {
        let top = &self.pending[self.pending.len() - 1];
        let path = normalize_path(top.path.as_str());
        if holds_text(&top.ancestors, path.as_str()) {
            return Err(OciError::ManifestCycle(path));
        }
        load_manifest(tar, top.path.as_str())
    }

    /// Records the manifest on top of the stack, loaded as `file` and decoded as `json`:
    /// it joins the visited list with the platform its index gave it, and its children
    /// take its place on the stack so that the first child is visited next; they are
    /// inside the manifests that contained it and inside it (`file`'s path).
    pub fn record(&mut self, file: ManifestFile, json: ManifestJson)
        requires
            old(self).pending@.len() > 0,
        ensures
            final(self).visited@.len() == old(self).visited@.len() + 1,
            forall|i: int| 0 <= i < old(self).visited@.len() ==> final(self).visited@[i] == old(self).visited@[i],
            ({
                let info = final(self).visited@.last();
                &&& info.path@ == file.path@
                &&& info.contents@ == file.contents@
                &&& info.digest@ == file.digest@
                &&& info.media_type@ == json.media_type@
                &&& info.platform.deep_view() == old(self).pending@.last().platform.deep_view()
                &&& info.manifests@ == json.manifests@
            }),
            pending_stack(*final(self)) == pending_stack(*old(self)).drop_last() + child_requests(
                json.manifests@,
                old(self).pending@.last().ancestors.deep_view().push(file.path@),
            ).reverse(),
            walk_view(*final(self)) == record_step(walk_view(*old(self)), file.path@, json.manifests@),
    {
        let ghost old_stack = pending_stack(*self);
        let ghost old_view = walk_view(*self);
        let top = self.pending.pop().unwrap();
        assert(old_stack.last() == pending_view(top));
        assert(pending_stack(*self) =~= old_stack.drop_last());
        let ghost base = pending_stack(*self);
        let mut inside = copy_texts(&top.ancestors);
        let ghost before_inside = inside.deep_view();
        inside.push(file.path.clone());
        assert(inside.deep_view() =~= before_inside.push(file.path@));
        let ghost children = child_requests(json.manifests@, inside.deep_view());
        let n = json.manifests.len();
        let mut k: usize = n;
        while k > 0
            invariant
                k <= n,
                n == json.manifests@.len(),
                self.visited@ == old(self).visited@,
                children == child_requests(json.manifests@, inside.deep_view()),
                pending_stack(*self) == base + children.subrange(k as int, n as int).reverse(),
            decreases k,
        {
            k = k - 1;
            let d = &json.manifests[k];
            let platform = match &d.platform {
                Some(p) => Some(platform_string(p)),
                None => None,
            };
            let ghost before = pending_stack(*self);
            let ancestors = copy_texts(&inside);
            self.pending.push(PendingManifest { path: d.digest.clone(), platform, ancestors });
            assert(children.subrange(k as int, n as int).reverse() =~= children.subrange(k + 1, n as int).reverse().push(children[k as int]));
            assert(pending_stack(*self) =~= before.push(descriptor_request(json.manifests@[k as int], inside.deep_view())));
        }
        assert(children.subrange(0, n as int) =~= children);
        let info = ManifestInfo {
            path: file.path,
            contents: file.contents,
            digest: file.digest,
            media_type: json.media_type,
            platform: top.platform,
            manifests: json.manifests,
        };
        let ghost path = info.path@;
        let ghost plat = info.platform.deep_view();
        self.visited.push(info);
        assert(walk_view(*self).visited =~= old_view.visited.push((path, plat)));
        assert(walk_view(*self).pending =~= old_view.pending.drop_last() + child_requests(
            json.manifests@,
            old_view.pending.last().2.push(path),
        ).reverse());
    }

    /// The manifests visited, in the order visited.
    pub fn finish(self) -> (r: Vec<ManifestInfo>)
        ensures
            r@ == self.visited@,
    {
        self.visited
    }
}

proof fn run_walk_compose(
    entries: Seq<(Seq<char>, Seq<u8>)>,
    complete: bool,
    decode: spec_fn(Seq<char>) -> Seq<ManifestDescriptor>,
    s: WalkSpec,
    a: nat,
    b: nat,
)
    ensures
        run_walk(entries, complete, decode, s, a + b) == run_walk(
            entries,
            complete,
            decode,
            run_walk(entries, complete, decode, s, a),
            b,
        ),
    decreases a,
{
    if a > 0 {
        run_walk_compose(entries, complete, decode, walk_step(entries, complete, decode, s), (a - 1) as nat, b);
        assert((a + b - 1) as nat == (a - 1) as nat + b);
    }
}

/// The walk runs the preorder of the request on top of its stack: after some steps the
/// request's preorder is visited and the rest of the stack remains; or the walk has failed
/// as the preorder does.
proof fn preorder_runs(
    entries: Seq<(Seq<char>, Seq<u8>)>,
    complete: bool,
    decode: spec_fn(Seq<char>) -> Seq<ManifestDescriptor>,
    req: WalkRequest,
    fuel: nat,
    rest: Seq<WalkRequest>,
    visited: Seq<VisitSpec>,
) -> (k: nat)
    requires
        preorder(entries, complete, decode, req, fuel) is Some,
    ensures
        ({
            let s = WalkSpec { visited, pending: rest.push(req), failure: None };
            let out = run_walk(entries, complete, decode, s, k);
            &&& preorder(entries, complete, decode, req, fuel) matches Some(Ok(v)) ==> out == (WalkSpec {
                visited: visited + v,
                pending: rest,
                failure: None,
            })
            &&& preorder(entries, complete, decode, req, fuel) matches Some(Err(f)) ==> out.failure == Some(f)
        }),
    decreases fuel, 0nat,
{
    let s = WalkSpec { visited, pending: rest.push(req), failure: None };
    assert(s.pending.last() == req);
    let s1 = walk_step(entries, complete, decode, s);
    assert(run_walk(entries, complete, decode, s1, 0) == s1);
    assert(run_walk(entries, complete, decode, s, 1) == s1);
    if cyclic(req) {
        return 1;
    }
    match extracted(entries, complete, normalized(req.0)) {
        Err(f) => {
            return 1;
        },
        Ok(text) => {
            let node = (normalized(req.0), req.1);
            let kids = child_requests(decode(text), req.2.push(normalized(req.0)));
            assert(s.pending.drop_last() =~= rest);
            assert(s1 == (WalkSpec { visited: visited.push(node), pending: rest + kids.reverse(), failure: None }));
            let k2 = preorder_all_runs(entries, complete, decode, kids, (fuel - 1) as nat, rest, visited.push(node));
            run_walk_compose(entries, complete, decode, s, 1, k2);
            match preorder_all(entries, complete, decode, kids, (fuel - 1) as nat) {
                Some(Ok(w)) => {
                    assert(visited.push(node) + w =~= visited + (seq![node] + w));
                },
                _ => {},
            }
            1 + k2
        },
    }
}

/// The walk runs the preorders of requests pushed in reverse, so that the first is on top.
proof fn preorder_all_runs(
    entries: Seq<(Seq<char>, Seq<u8>)>,
    complete: bool,
    decode: spec_fn(Seq<char>) -> Seq<ManifestDescriptor>,
    reqs: Seq<WalkRequest>,
    fuel: nat,
    rest: Seq<WalkRequest>,
    visited: Seq<VisitSpec>,
) -> (k: nat)
    requires
        preorder_all(entries, complete, decode, reqs, fuel) is Some,
    ensures
        ({
            let s = WalkSpec { visited, pending: rest + reqs.reverse(), failure: None };
            let out = run_walk(entries, complete, decode, s, k);
            &&& preorder_all(entries, complete, decode, reqs, fuel) matches Some(Ok(v)) ==> out == (WalkSpec {
                visited: visited + v,
                pending: rest,
                failure: None,
            })
            &&& preorder_all(entries, complete, decode, reqs, fuel) matches Some(Err(f)) ==> out.failure == Some(f)
        }),
    decreases fuel, reqs.len(),
{
    let s = WalkSpec { visited, pending: rest + reqs.reverse(), failure: None };
    if reqs.len() == 0 {
        assert(rest + reqs.reverse() =~= rest);
        assert(visited + Seq::<VisitSpec>::empty() =~= visited);
        return 0;
    }
    let r0 = reqs[0];
    let tail = reqs.drop_first();
    let rest1 = rest + tail.reverse();
    assert(rest + reqs.reverse() =~= rest1.push(r0));
    let k1 = preorder_runs(entries, complete, decode, r0, fuel, rest1, visited);
    let s1 = run_walk(entries, complete, decode, s, k1);
    match preorder(entries, complete, decode, r0, fuel) {
        Some(Ok(v1)) => {
            let k2 = preorder_all_runs(entries, complete, decode, tail, fuel, rest, visited + v1);
            run_walk_compose(entries, complete, decode, s, k1, k2);
            match preorder_all(entries, complete, decode, tail, fuel) {
                Some(Ok(w)) => {
                    assert(visited + v1 + w =~= visited + (v1 + w));
                },
                _ => {},
            }
            k1 + k2
        },
        _ => k1,
    }
}

/// The walk of a tarball is the depth-first preorder from `index.json`: started as `new`
/// does and moved on by `next_file` and `record` (see `walk_step`), with `decode` giving
/// each manifest's listed descriptors, it visits, in order, each manifest with the platform
/// its index gave it, the index first and then what each listed manifest leads to, in the
/// order listed, and ends with nothing left to visit; or it ends with the first failure
/// met in that order. `fuel` bounds the depth the preorder looks at.
pub proof fn walk_is_depth_first(
    entries: Seq<(Seq<char>, Seq<u8>)>,
    complete: bool,
    decode: spec_fn(Seq<char>) -> Seq<ManifestDescriptor>,
    fuel: nat,
) -> (k: nat)
    requires
        preorder(entries, complete, decode, initial_walk().pending[0], fuel) is Some,
    ensures
        preorder(entries, complete, decode, initial_walk().pending[0], fuel) matches Some(Ok(v)) ==> run_walk(
            entries,
            complete,
            decode,
            initial_walk(),
            k,
        ) == (WalkSpec { visited: v, pending: Seq::empty(), failure: None }),
        preorder(entries, complete, decode, initial_walk().pending[0], fuel) matches Some(Err(f)) ==> run_walk(
            entries,
            complete,
            decode,
            initial_walk(),
            k,
        ).failure == Some(f),
{
    let root = initial_walk().pending[0];
    assert(initial_walk().pending =~= Seq::<WalkRequest>::empty().push(root));
    assert(initial_walk() == (WalkSpec { visited: Seq::empty(), pending: Seq::<WalkRequest>::empty().push(root), failure: None }));
    let k = preorder_runs(entries, complete, decode, root, fuel, Seq::empty(), Seq::empty());
    match preorder(entries, complete, decode, root, fuel) {
        Some(Ok(v)) => {
            assert(Seq::<VisitSpec>::empty() + v =~= v);
        },
        _ => {},
    }
    k
}

/// A manifest that lists itself (by any path that normalizes to its own) makes a cycle:
/// the child request is refused by `next_file` instead of being visited again, and so on
/// for any manifest that names one that contains it.
pub proof fn self_reference_is_a_cycle(d: ManifestDescriptor, ancestors: Seq<Seq<char>>)
    ensures
        cyclic(descriptor_request(d, ancestors.push(normalized(d.digest@)))),
{
    let a = ancestors.push(normalized(d.digest@));
    assert(a[ancestors.len() as int] == normalized(d.digest@));
}

/// A digest without its `sha256:` prefix, if it has one.
pub open spec fn without_sha256_prefix(s: Seq<char>) -> Seq<char> {
    if starts_with(s, sha256_prefix()) {
        s.skip(7)
    } else {
        s
    }
}

/// Removes a leading `sha256:` from a digest, if present.
pub fn strip_sha256_prefix(s: &str) -> (r: String)
    ensures
        r@ == without_sha256_prefix(s@),
{
    proof {
        reveal_strlit("sha256:");
    }
    match strip_prefix(s, "sha256:") {
        Some(rest) => rest,
        None => String::from_str(s),
    }
}

/// Verifies that the image digest (that of the first manifest after the index) is the
/// expected one, comparing both without a `sha256:` prefix. Gives the expected hash on a match.
pub fn verify_digest(parsed: &[ManifestInfo], expected: &str) -> (r: Result<String, OciError>)
    ensures
        parsed@.len() < 2 ==> (r matches Err(e) && e@ == OciFailure::NoManifest),
        parsed@.len() >= 2 ==> ({
            let actual = without_sha256_prefix(parsed@[1].digest@);
            let wanted = without_sha256_prefix(expected@);
            &&& actual == wanted ==> (r matches Ok(h) && h@ == wanted)
            &&& actual != wanted ==> (r matches Err(e) && e@ == OciFailure::DigestMismatch(actual, wanted))
        }),
{
    if parsed.len() < 2 {
        return Err(OciError::NoManifest);
    }
    let cur_digest = strip_sha256_prefix(parsed[1].digest.as_str());
    let expected_hash = strip_sha256_prefix(expected);
    if cur_digest != expected_hash {
        return Err(OciError::DigestMismatch(cur_digest, expected_hash));
    }
    Ok(expected_hash)
}

/// The note that replaces the characters a summary leaves out.
pub open spec fn omitted_note(omitted: int) -> Seq<char> {
    "  [... "@ + decimal_text(omitted) + " characters omitted. Pass --show-contents to print them in their entirety]"@
}

/// A text for display: without line feeds, and cut to `max_len` characters with a note
/// of how many were left out when it is longer.
pub open spec fn snipped(contents: Seq<char>, max_len: usize) -> Seq<char> {
    let flat = without_newlines(contents);
    if flat.len() > max_len {
        flat.take(max_len as int) + omitted_note(flat.len() - max_len)
    } else {
        flat
    }
}

/// Shortens a text for display: removes line feeds and truncates it to `max_len` characters.
pub fn snip_contents(contents: &str, max_len: usize) -> (r: String)
    ensures
        r@ == snipped(contents@, max_len),
{
    let flat = remove_newlines(contents);
    let char_count = flat.as_str().unicode_len();
    if char_count > max_len {
        let omitted = char_count - max_len;
        let truncated = flat.as_str().substring_char(0, max_len);
        let count = decimal_string(omitted as i128);
        let mut out = concat3(truncated, "  [... ", count.as_str());
        out.append(" characters omitted. Pass --show-contents to print them in their entirety]");
        assert(out@ =~= snipped(contents@, max_len));
        out
    } else {
        flat
    }
}

/// Normalizing an OCI path twice is normalizing it once: a blob path does not start
/// with `sha256:`.
pub proof fn normalize_path_idempotent(path: Seq<char>)
    ensures
        normalized(normalized(path)) == normalized(path),
{
    reveal_strlit("sha256:");
    reveal_strlit("blobs/sha256/");
    if starts_with(path, sha256_prefix()) {
        let n = normalized(path);
        assert(n[0] == 'b');
        assert(n.subrange(0, 7)[0] == 'b');
    }
}

/// A shortened text never holds a line feed.
pub proof fn snipped_has_no_newline(contents: Seq<char>, max_len: usize)
    ensures
        forall|i: int| 0 <= i < snipped(contents, max_len).len() ==> snipped(contents, max_len)[i] != '\n',
{
    let flat = without_newlines(contents);
    without_newlines_has_none(contents);
    if flat.len() > max_len {
        let head = flat.take(max_len as int);
        let d = decimal_text(flat.len() - max_len);
        decimal_text_has_no_newline(flat.len() - max_len);
        reveal_strlit("  [... ");
        reveal_strlit(" characters omitted. Pass --show-contents to print them in their entirety]");
        let note = omitted_note(flat.len() - max_len);
        assert forall|i: int| 0 <= i < note.len() implies note[i] != '\n' by {
            if i < 7 {
            } else if i < 7 + d.len() {
                assert(note[i] == d[i - 7]);
            } else {
            }
        }
        assert forall|i: int| 0 <= i < snipped(contents, max_len).len() implies snipped(contents, max_len)[i] != '\n' by {
            if i < head.len() {
                assert(snipped(contents, max_len)[i] == flat[i]);
            } else {
                assert(snipped(contents, max_len)[i] == note[i - head.len()]);
            }
        }
    }
}

/// A text no longer than the limit (once without line feeds) is shown whole; a longer
/// one is cut to the limit, followed by the count of the characters left out.
pub proof fn snipped_shape(contents: Seq<char>, max_len: usize)
    ensures
        without_newlines(contents).len() <= max_len ==> snipped(contents, max_len) == without_newlines(contents),
        without_newlines(contents).len() > max_len ==> snipped(contents, max_len).take(max_len as int)
            == without_newlines(contents).take(max_len as int),
{
    let flat = without_newlines(contents);
    if flat.len() > max_len {
        assert(snipped(contents, max_len).take(max_len as int) =~= flat.take(max_len as int));
    }
}

/// The `sha256:` prefix of an expected digest is optional: with or without it, the same
/// hash is compared (for any hash that does not itself start with `sha256:`).
pub proof fn digest_prefix_is_optional(hash: Seq<char>)
    requires
        !starts_with(hash, sha256_prefix()),
    ensures
        without_sha256_prefix(sha256_prefix() + hash) == hash,
        without_sha256_prefix(hash) == hash,
{
    reveal_strlit("sha256:");
    let d = sha256_prefix() + hash;
    assert(d.subrange(0, 7) =~= sha256_prefix());
    assert(d.skip(7) =~= hash);
}

/// The hex of a digest never starts with `sha256:` (its first character is a hex digit).
pub proof fn hex_is_not_prefixed(data: Seq<u8>)
    ensures
        !starts_with(sha256_hex_of(data), sha256_prefix()),
{
    reveal_strlit("sha256:");
    let h = sha256_hex_of(data);
    if h.len() >= 7 {
        assert(h.subrange(0, 7)[0] == h[0]);
        assert(h[0] != 's');
    }
}

/// A manifest's digest and its bare hex compare equal once `sha256:` is dropped: an image
/// digest verifies against the manifest's digest written with or without the prefix.
pub proof fn own_digest_verifies(contents: Seq<char>)
    ensures
        without_sha256_prefix(manifest_digest(contents)) == sha256_hex_of(encode_utf8(contents)),
        without_sha256_prefix(sha256_hex_of(encode_utf8(contents))) == sha256_hex_of(encode_utf8(contents)),
{
    hex_is_not_prefixed(encode_utf8(contents));
    digest_prefix_is_optional(sha256_hex_of(encode_utf8(contents)));
}

} // verus!
