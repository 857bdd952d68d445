//! Recognition of the supported image formats by file extension.

use vstd::prelude::*;
use crate::text::{eq_ignoring_case, extension, matches_ignoring_case, opt_seq, path_extension};

verus! {

/// The extensions, in lower case, of the images that the pipeline accepts:
/// JPEG, TIFF and the raw formats of many cameras.
pub open spec fn supported_extensions() -> Seq<&'static str> {
    seq![
        "jpg", "jpeg", "3fr", "ari", "arw", "bay", "braw", "crw", "cr2", "cr3", "cap", "data",
        "dcs", "dcr", "dng", "drf", "eip", "erf", "fff", "gpr", "iiq", "k25", "kdc", "mdc", "mef",
        "mos", "mrw", "nef", "nrw", "obm", "orf", "pef", "ptx", "pxn", "r3d", "raf", "raw", "rwl",
        "rw2", "rwz", "sr2", "srf", "srw", "tif", "tiff", "x3f",
    ]
}

/// The extension of `p` is `lower`, ignoring ASCII case.
pub open spec fn has_extension(p: Seq<char>, lower: Seq<char>) -> bool {
    extension(p) matches Some(e) && matches_ignoring_case(e, lower)
}

/// `p` names a JPEG image.
pub open spec fn jpeg_path(p: Seq<char>) -> bool {
    has_extension(p, "jpg"@) || has_extension(p, "jpeg"@)
}

/// `p` names neither a JPEG nor a TIFF image; a path without extension
/// counts as raw.
pub open spec fn raw_path(p: Seq<char>) -> bool {
    !(jpeg_path(p) || has_extension(p, "tiff"@) || has_extension(p, "tif"@))
}

/// `p` has one of the supported extensions.
pub open spec fn supported_path(p: Seq<char>) -> bool {
    exists|k: int| 0 <= k < supported_extensions().len() && #[trigger] has_extension(p, supported_extensions()[k]@)
}

fn ext_is(ext: &Option<String>, lower: &str) -> (r: bool)
    ensures
        r == (opt_seq(*ext) matches Some(e) && matches_ignoring_case(e, lower@)),
{
    match ext {
        Some(e) => eq_ignoring_case(e.as_str(), lower),
        None => false,
    }
}

/// Whether `path` names a JPEG image.
pub fn is_jpeg(path: &str) -> (r: bool)
    ensures
        r == jpeg_path(path@),
{
    let ext = path_extension(path);
    ext_is(&ext, "jpg") || ext_is(&ext, "jpeg")
}

/// Whether `path` names a raw camera file, that is neither JPEG nor TIFF.
pub fn is_raw(path: &str) -> (r: bool)
    ensures
        r == raw_path(path@),
{
    let ext = path_extension(path);
    !(ext_is(&ext, "jpg") || ext_is(&ext, "jpeg") || ext_is(&ext, "tiff") || ext_is(&ext, "tif"))
}

/// Whether `path` has a supported image extension.
pub fn is_supported_format(path: &str) -> (r: bool)
    ensures
        r == supported_path(path@),
{
    let list: Vec<&'static str> = vec![
        "jpg", "jpeg", "3fr", "ari", "arw", "bay", "braw", "crw", "cr2", "cr3", "cap", "data",
        "dcs", "dcr", "dng", "drf", "eip", "erf", "fff", "gpr", "iiq", "k25", "kdc", "mdc", "mef",
        "mos", "mrw", "nef", "nrw", "obm", "orf", "pef", "ptx", "pxn", "r3d", "raf", "raw", "rwl",
        "rw2", "rwz", "sr2", "srf", "srw", "tif", "tiff", "x3f",
    ];
    assert(list@ == supported_extensions());
    let ext = path_extension(path);
    let mut k: usize = 0;
    while k < list.len()
        invariant
            k <= list@.len(),
            list@ == supported_extensions(),
            opt_seq(ext) == extension(path@),
            forall|j: int| 0 <= j < k ==> !#[trigger] has_extension(path@, supported_extensions()[j]@),
        decreases list.len() - k,
    {
        if ext_is(&ext, list[k]) {
            assert(has_extension(path@, supported_extensions()[k as int]@));
            return true;
        }
        k = k + 1;
    }
    false
}

} // verus!
