use vstd::prelude::*;

verus! {

/// Why listing a directory failed: it could not be opened for reading at
/// all, or one of its entries could not be read.
pub enum DirError {
    NotReadable,
    Entry(String),
}

/// Relies on std::path::Path::exists: whether the path can be confirmed to
/// point at an existing filesystem entry; a path whose existence cannot be
/// confirmed counts as absent.
#[verifier::external_body]
pub(crate) fn path_exists(p: &str) -> bool {
    std::path::Path::new(p).exists()
}

/// Relies on fs_err::create_dir: creates the directory at the path, and
/// reports the failure's description otherwise.
#[verifier::external_body]
pub(crate) fn create_dir(p: &str) -> Result<(), String> {
    match fs_err::create_dir(p) {
        Ok(()) => Ok(()),
        Err(e) => Err(e.to_string()),
    }
}

/// Relies on fs_err::read_dir: yields the file names of the directory's
/// immediate entries, in filesystem enumeration order.
#[verifier::external_body]
pub(crate) fn read_dir_names(p: &str) -> Result<Vec<String>, DirError> {
    let listing = match fs_err::read_dir(p) {
        Ok(l) => l,
        Err(_) => return Err(DirError::NotReadable),
    };
    let mut names: Vec<String> = Vec::new();
    for entry in listing {
        match entry {
            Ok(e) => names.push(e.file_name().to_string_lossy().into_owned()),
            Err(e) => return Err(DirError::Entry(e.to_string())),
        }
    }
    Ok(names)
}

} // verus!
