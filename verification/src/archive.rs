use std::io::Read;
use vstd::prelude::*;

verus! {

/// The entries of a gzip-compressed tar archive held in `data`, as
/// `tar::Archive::new(flate2::read::GzDecoder::new(data)).entries()` yields
/// them up to the first one it reports as an error, leaving out those whose
/// path cannot be read: each entry's path (lossily as text) and contents, in
/// archive order.
pub uninterp spec fn tar_gz_entries_spec(data: Seq<u8>) -> Seq<(Seq<char>, Seq<u8>)>;

/// The entries of an archive as plain values.
pub open spec fn entries_view(v: Seq<(String, Vec<u8>)>) -> Seq<(Seq<char>, Seq<u8>)> {
    v.map_values(|e: (String, Vec<u8>)| (e.0@, e.1@))
}

/// The entries of the gzip-compressed tar archive `data`, as `flate2`'s
/// `GzDecoder` and `tar`'s `Archive::entries` read them (the iterator ends at
/// its first error; entries whose path cannot be read are left out; the
/// contents are what could be read). What they are is a function of `data`
/// alone, named [`tar_gz_entries_spec`]; the decoding itself is not stated.
#[verifier::external_body]
pub(crate) fn tar_gz_entries(data: &[u8]) -> (r: Vec<(String, Vec<u8>)>)
    ensures
        entries_view(r@) == tar_gz_entries_spec(data@),
{
    let mut out = Vec::new();
    let mut archive = tar::Archive::new(flate2::read::GzDecoder::new(data));
    if let Ok(entries) = archive.entries() {
        for mut entry in entries.flatten() {
            let path = match entry.path() {
                Ok(p) => p.to_string_lossy().into_owned(),
                Err(_) => continue,
            };
            let mut contents = Vec::new();
            let _ = entry.read_to_end(&mut contents);
            out.push((path, contents));
        }
    }
    out
}

} // verus!
