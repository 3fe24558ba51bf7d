//! Tar archives (`tar`) and gzip streams (`flate2`) held in memory: reading and writing.

use vstd::prelude::*;
use std::io::{Read, Write};
use tar::Builder as TarWriter;

verus! {

/// The entries `tar::Archive` reads from an archive's bytes, in order (path as text, data),
/// up to the first read error; and whether it read to the end without one.
pub uninterp spec fn tar_entries_of(archive: Seq<u8>) -> (Seq<(Seq<char>, Seq<u8>)>, bool);

/// `tar::Archive::entries` over the archive's bytes: each entry's path (`to_string_lossy`)
/// and data, in order, up to the first error; the flag tells whether no error came.
/// The listing is a function of the bytes alone; the tar format is not restated here.
#[verifier::external_body]
pub(crate) fn tar_entries(archive: &[u8]) -> (r: (Vec<(String, Vec<u8>)>, bool))
    ensures
        r.0.deep_view() == tar_entries_of(archive@).0,
        r.1 == tar_entries_of(archive@).1,
{
    let mut out = Vec::new();
    let mut ar = tar::Archive::new(archive);
    let Ok(entries) = ar.entries() else { return (out, false) };
    for entry in entries {
        let mut data = Vec::new();
        let Ok(mut e) = entry else { return (out, false) };
        let (Ok(_), Ok(p)) = (e.read_to_end(&mut data), e.path()) else { return (out, false) };
        out.push((p.to_string_lossy().into_owned(), data));
    }
    (out, true)
}

/// The bytes `flate2::read::GzDecoder` yields from a gzip stream up to its end or its first
/// error, and whether it reached the end without error.
pub uninterp spec fn gunzip_of(data: Seq<u8>) -> (Seq<u8>, bool);

/// `flate2::read::GzDecoder` read to the end: the decoded bytes up to the first error, and
/// whether none came. A function of the input alone; DEFLATE is not restated here.
#[verifier::external_body]
pub(crate) fn gunzip(data: &[u8]) -> (r: (Vec<u8>, bool))
    ensures
        r.0@ == gunzip_of(data@).0,
        r.1 == gunzip_of(data@).1,
{
    let mut out = Vec::new();
    let ok = flate2::read::GzDecoder::new(data).read_to_end(&mut out).is_ok();
    (out, ok)
}

/// An ASCII letter or digit.
pub open spec fn is_alnum(c: char) -> bool {
    ('a' <= c && c <= 'z') || ('A' <= c && c <= 'Z') || ('0' <= c && c <= '9')
}

/// After a `/` at `i` comes a letter or digit.
pub open spec fn name_follows_slash(p: Seq<char>, i: int) -> bool {
    p[i] == '/' ==> is_alnum(p[i + 1])
}

/// A plain relative path: names of ASCII letters, digits, `.`, `_` and `-`, each starting
/// with a letter or digit, separated by single `/`; fewer than 100 characters (so that it
/// fits a tar header's name field).
pub open spec fn plain_path(p: Seq<char>) -> bool {
    &&& 0 < p.len() < 100
    &&& is_alnum(p[0])
    &&& p.last() != '/'
    &&& forall|i: int| 0 <= i < p.len() ==> is_alnum(#[trigger] p[i]) || p[i] == '.' || p[i] == '_' || p[i] == '-' || p[i] == '/'
    &&& forall|i: int| 0 <= i < p.len() - 1 ==> #[trigger] name_follows_slash(p, i)
}

/// The path an archive records for a file: without a leading `./`.
pub open spec fn stored_path(p: Seq<char>) -> Seq<char> {
    if p.len() >= 2 && p[0] == '.' && p[1] == '/' {
        p.skip(2)
    } else {
        p
    }
}

/// A path that `tar` records as a plain path (possibly after dropping a leading `./`).
pub open spec fn storable(p: Seq<char>) -> bool {
    plain_path(stored_path(p))
}

/// What reading an archive back lists for a file written to it: its recorded path and data.
pub open spec fn read_back(f: (Seq<char>, u32, Seq<u8>)) -> (Seq<char>, Seq<u8>) {
    (stored_path(f.0), f.2)
}

/// An archive being written into memory (`tar::Builder` over a byte vector). Verus does
/// not take a declaration of the generic `tar::Builder`, so it is held here, opaque.
#[verifier::external_body]
pub struct TarWriting {
    inner: TarWriter<Vec<u8>>,
}

/// The files appended so far to an archive being written (path, mode, data), in order.
pub uninterp spec fn tar_written(b: TarWriting) -> Seq<(Seq<char>, u32, Seq<u8>)>;

/// Whether `tar::Builder::append_data` takes a file at this path (it refuses, among
/// others, absolute paths and paths with `..`); a function of the path alone.
pub uninterp spec fn tar_accepts(path: Seq<char>) -> bool;

/// The bytes of a finished archive holding these files, in order (GNU headers).
pub uninterp spec fn tar_archive_of(files: Seq<(Seq<char>, u32, Seq<u8>)>) -> Seq<u8>;

/// `tar::Builder::new` over an empty byte vector: an archive with no files yet.
#[verifier::external_body]
pub(crate) fn tar_writer() -> (b: TarWriting)
    ensures
        tar_written(b) == Seq::<(Seq<char>, u32, Seq<u8>)>::empty(),
{
    TarWriting { inner: TarWriter::new(Vec::new()) }
}

/// `tar::Builder::append_data` with a new GNU header holding the data's size and `mode`:
/// appends the file when the archive takes its path; otherwise nothing is written. A
/// storable path is taken (`Header::set_path` skips a `.` component and takes plain names).
#[verifier::external_body]
pub(crate) fn tar_append(b: &mut TarWriting, path: &str, mode: u32, data: &[u8]) -> (ok: bool)
    ensures
        ok == tar_accepts(path@),
        storable(path@) ==> ok,
        ok ==> tar_written(*final(b)) == tar_written(*old(b)).push((path@, mode, data@)),
        !ok ==> tar_written(*final(b)) == tar_written(*old(b)),
{
    let mut header = tar::Header::new_gnu();
    header.set_size(data.len() as u64);
    header.set_mode(mode);
    header.set_cksum();
    b.inner.append_data(&mut header, path, data).is_ok()
}

/// `tar::Builder::into_inner`: ends the archive (two zero blocks) and gives its bytes, the
/// archive of the files appended. Its only error is one of the writer's `write_all`, and
/// writing to a byte vector appends to it (`std`'s `Write` for `Vec<u8>`), so it gives the
/// bytes; the `None` case is kept for the call's error type. Read back with `tar::Archive::entries`, an archive of files at
/// storable paths lists each file, in order, at its recorded path with its data, and ends
/// without error (each GNU header holds the path in its name field and the data's size).
#[verifier::external_body]
pub(crate) fn tar_finish(b: TarWriting) -> (r: Option<Vec<u8>>)
    ensures
        r is Some,
        r matches Some(v) ==> v@ == tar_archive_of(tar_written(b)),
        r matches Some(v) ==> ((forall|i: int| 0 <= i < tar_written(b).len() ==> storable(#[trigger] tar_written(b)[i].0))
            ==> tar_entries_of(v@) == (tar_written(b).map_values(|f: (Seq<char>, u32, Seq<u8>)| read_back(f)), true)),
{
    b.inner.into_inner().ok()
}

/// The gzip stream that `flate2::write::GzEncoder` at `Compression::fast()` makes of the
/// data (default header: no name, no time stamp).
pub uninterp spec fn gzip_fast_of(data: Seq<u8>) -> Seq<u8>;

/// `flate2::write::GzEncoder` at `Compression::fast()` over a byte vector, fed the data and
/// finished. Writing to a byte vector appends to it, and the deflate step reports an error
/// only for bad parameters, a failing output callback or a dictionary request, none of
/// which arises here; so it gives the stream (the `None` case is kept for the calls' error
/// type). `flate2::read::GzDecoder` reads the stream back to the data, to its end without error.
#[verifier::external_body]
pub(crate) fn gzip_fast(data: &[u8]) -> (r: Option<Vec<u8>>)
    ensures
        r is Some,
        r matches Some(v) ==> v@ == gzip_fast_of(data@),
        r matches Some(v) ==> gunzip_of(v@) == (data@, true),
{
    let mut enc = flate2::write::GzEncoder::new(Vec::new(), flate2::Compression::fast());
    match enc.write_all(data) {
        Ok(()) => enc.finish().ok(),
        Err(_) => None,
    }
}

} // verus!
