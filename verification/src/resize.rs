use vstd::prelude::*;
use vstd::string::StringExecFns;

use crate::dims::fit_dimensions;
use crate::error::ImagixError;
use crate::fsio::create_dir;
use crate::fsio::path_exists;
use crate::fsio::read_dir_names;
use crate::fsio::DirError;
use crate::imaging::image_dims;
use crate::imaging::open_image;
use crate::imaging::save_png;
use crate::imaging::thumbnail_to;
use crate::options::Mode;
use crate::options::SizeOption;
use crate::paths::dest_dir;
use crate::paths::dest_path;
use crate::paths::has_supported_ext;
use crate::paths::has_target_ext;
use crate::paths::is_supported_ext;
use crate::paths::is_target_ext;
use crate::paths::join_path;

verus! {

/// The errors the thumbnail engine can produce for a source path: exactly
/// the paths without a lowercase `jpg` or `png` extension are rejected as
/// invalid input, and only filesystem or codec failures occur otherwise.
pub open spec fn engine_error_ok(p: Seq<char>, e: ImagixError) -> bool {
    match e {
        ImagixError::UserInputError(m) => !is_target_ext(p) && m@ == "Invalid file format"@,
        ImagixError::FileIOError(_) => is_target_ext(p),
        ImagixError::ImageResizingError(_) => is_target_ext(p),
        ImagixError::FormatError(_) => false,
    }
}

/// The errors the folder enumerator can produce: an unreadable directory
/// has its fixed message, a failing entry reports the filesystem's own.
pub open spec fn enumerate_error_ok(e: ImagixError) -> bool {
    match e {
        ImagixError::UserInputError(m) => m@ == "Invalid source folder"@,
        ImagixError::FileIOError(_) => true,
        ImagixError::ImageResizingError(_) => false,
        ImagixError::FormatError(_) => false,
    }
}

/// The errors a whole-folder resize can produce: those of the enumerator
/// and those of the engine on some enumerated entry.
pub open spec fn batch_error_ok(e: ImagixError) -> bool {
    match e {
        ImagixError::UserInputError(m) => m@ == "Invalid source folder"@ || m@
            == "Invalid file format"@,
        ImagixError::FileIOError(_) => true,
        ImagixError::ImageResizingError(_) => true,
        ImagixError::FormatError(_) => false,
    }
}

/// The errors a whole resize request can produce for a mode and a source:
/// a missing source or the mode's own failures; never a `FormatError`.
pub open spec fn request_error_ok(mode: Mode, p: Seq<char>, e: ImagixError) -> bool {
    match e {
        ImagixError::FileIOError(_) => true,
        ImagixError::UserInputError(m) => if mode == Mode::Single {
            m@ == "Invalid file format"@ && !is_target_ext(p)
        } else {
            m@ == "Invalid file format"@ || m@ == "Invalid source folder"@
        },
        ImagixError::ImageResizingError(_) => mode == Mode::Single ==> is_target_ext(p),
        ImagixError::FormatError(_) => false,
    }
}

/// Resizes one image file to fit within a `size` by `size` bounding box and
/// writes the result, always PNG-encoded, to `<its directory>/tmp/<stem>.png`,
/// creating the `tmp` directory when it is absent and reusing it otherwise.
/// A source whose extension is not exactly `jpg` or `png` is rejected before
/// anything is decoded or written.
pub fn resize_image(size: u32, src: &str) -> (r: Result<(), ImagixError>)
    ensures
        r matches Err(e) ==> engine_error_ok(src@, e),
        r is Ok ==> is_target_ext(src@),
        !is_target_ext(src@) ==> (r matches Err(e) && e matches ImagixError::UserInputError(m)
            && m@ == "Invalid file format"@),
{
    if !has_target_ext(src) {
        return Err(ImagixError::UserInputError(String::from_str("Invalid file format")));
    }
    let dd = dest_dir(src);
    if !path_exists(dd.as_str()) {
        match create_dir(dd.as_str()) {
            Ok(u) => u,
            Err(m) => return Err(ImagixError::FileIOError(m)),
        }
    }
    let dp = dest_path(src);
    let img = match open_image(src) {
        Ok(i) => i,
        Err(m) => return Err(ImagixError::ImageResizingError(m)),
    };
    let (w, h) = image_dims(&img);
    let (nw, nh) = fit_dimensions(w, h, size);
    let scaled = thumbnail_to(&img, nw, nh);
    match save_png(&scaled, dp.as_str()) {
        Ok(u) => Ok(u),
        Err(m) => Err(ImagixError::ImageResizingError(m)),
    }
}

/// Resizes the one file the source path names; the engine's own error, if
/// any, is handed through unchanged.
pub fn resize_single(size: u32, src_folder: &str) -> (r: Result<(), ImagixError>)
    ensures
        r matches Err(e) ==> engine_error_ok(src_folder@, e),
        r is Ok ==> is_target_ext(src_folder@),
        !is_target_ext(src_folder@) ==> (r matches Err(e) && e matches ImagixError::UserInputError(
            m,
        ) && m@ == "Invalid file format"@),
{
    resize_image(size, src_folder)
}

/// The subsequence of `s` whose paths pass the enumerator's extension
/// filter, in their original order.
pub open spec fn kept_paths(s: Seq<String>) -> Seq<String>
    decreases s.len(),
{
    if s.len() == 0 {
        Seq::empty()
    } else {
        let rest = kept_paths(s.drop_last());
        if is_supported_ext(s.last()@) {
            rest.push(s.last())
        } else {
            rest
        }
    }
}

pub proof fn lemma_kept_paths_supported(s: Seq<String>)
    ensures
        forall|i: int| 0 <= i < kept_paths(s).len() ==> is_supported_ext(#[trigger] kept_paths(s)[i]@),
    decreases s.len(),
{
    if s.len() == 0 {
    } else {
        lemma_kept_paths_supported(s.drop_last());
        let rest = kept_paths(s.drop_last());
        if is_supported_ext(s.last()@) {
            assert(kept_paths(s) == rest.push(s.last()));
            assert forall|i: int| 0 <= i < kept_paths(s).len() implies is_supported_ext(
                kept_paths(s)[i]@,
            ) by {
                if i < rest.len() {
                    assert(kept_paths(s)[i] == rest[i]);
                } else {
                    assert(kept_paths(s)[i] == s.last());
                }
            }
        } else {
            assert(kept_paths(s) == rest);
        }
    }
}

/// Keeps exactly the paths that pass the enumerator's extension filter.
pub fn keep_supported(paths: Vec<String>) -> (r: Vec<String>)
    ensures
        r@ == kept_paths(paths@),
{
    let mut out: Vec<String> = Vec::new();
    let mut i: usize = 0;
    proof {
        assert(paths@.subrange(0, 0) =~= Seq::<String>::empty());
    }
    while i < paths.len()
        invariant
            i <= paths@.len(),
            out@ == kept_paths(paths@.subrange(0, i as int)),
        decreases paths@.len() - i,
    {
        if has_supported_ext(paths[i].as_str()) {
            out.push(paths[i].clone());
        }
        proof {
            let prefix = paths@.subrange(0, i as int);
            let prefix1 = paths@.subrange(0, i + 1);
            assert(prefix1.drop_last() =~= prefix);
            assert(prefix1.last() == paths@[i as int]);
        }
        i += 1;
    }
    proof {
        assert(paths@.subrange(0, paths@.len() as int) =~= paths@);
    }
    out
}

/// Lists the source folder's immediate entries and keeps those whose
/// extension is one of the four supported literals `JPG`, `jpg`, `PNG`,
/// `png`; their order is the filesystem's enumeration order. A directory
/// that cannot be listed fails with `Invalid source folder`.
pub fn get_image_files(src_folder: &str) -> (r: Result<Vec<String>, ImagixError>)
    ensures
        match r {
            Ok(v) => forall|i: int| 0 <= i < v@.len() ==> is_supported_ext(#[trigger] v@[i]@),
            Err(e) => enumerate_error_ok(e),
        },
{
    let names = match read_dir_names(src_folder) {
        Ok(ns) => ns,
        Err(DirError::NotReadable) => {
            return Err(
                ImagixError::UserInputError(String::from_str("Invalid source folder")),
            );
        },
        Err(DirError::Entry(m)) => return Err(ImagixError::FileIOError(m)),
    };
    let mut full: Vec<String> = Vec::new();
    let mut i: usize = 0;
    while i < names.len()
        invariant
            i <= names@.len(),
        decreases names@.len() - i,
    {
        full.push(join_path(src_folder, names[i].as_str()));
        i += 1;
    }
    let ghost fullv = full@;
    let kept = keep_supported(full);
    proof {
        lemma_kept_paths_supported(fullv);
    }
    Ok(kept)
}

/// Resizes every supported image in the source folder, strictly in
/// enumeration order, stopping at the first failure; files written before
/// the failing one stay in place.
pub fn resize_all(size: u32, src_folder: &str) -> (r: Result<(), ImagixError>)
    ensures
        r matches Err(e) ==> batch_error_ok(e),
{
    let entries = match get_image_files(src_folder) {
        Ok(v) => v,
        Err(e) => return Err(e),
    };
    let mut i: usize = 0;
    while i < entries.len()
        invariant
            i <= entries@.len(),
        decreases entries@.len() - i,
    {
        match resize_image(size, entries[i].as_str()) {
            Ok(u) => u,
            Err(e) => return Err(e),
        }
        i += 1;
    }
    Ok(())
}

/// Checks that the source exists, maps the size class to its pixel bound
/// (200, 400 or 800), and dispatches on the mode: `Single` resizes the
/// source file itself, `All` resizes every supported image in the source
/// folder, failing fast. A source whose existence cannot be confirmed fails
/// with `No such file or directory`.
pub fn process_resize_request(size: SizeOption, mode: Mode, src_folder: &str) -> (r: Result<
    (),
    ImagixError,
>)
    ensures
        r matches Err(e) ==> request_error_ok(mode, src_folder@, e),
        mode == Mode::Single && !is_target_ext(src_folder@) ==> r is Err,
        mode == Mode::Single && r is Ok ==> is_target_ext(src_folder@),
{
    if !path_exists(src_folder) {
        return Err(ImagixError::FileIOError(String::from_str("No such file or directory")));
    }
    let pixels = size.pixels();
    match mode {
        Mode::Single => resize_single(pixels, src_folder),
        Mode::All => resize_all(pixels, src_folder),
    }
}

} // verus!
