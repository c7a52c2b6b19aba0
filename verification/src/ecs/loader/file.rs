//! Loading file components.

use vstd::prelude::*;
use super::ELoader;
use crate::ecs::types::CFile;
use crate::io::{get_file_extension as path_extension, is_extension_of};

verus! {

/// What can go wrong with the file of a component.
#[allow(non_camel_case_types)]
#[derive(Debug)]
pub enum EFile {
    /// The file of the path has no extension.
    FILE_EXT(String),
}

/// Makes the component of the file at `path`, without an id and without
/// content. Fails where the path has no extension.
pub fn load_file(path: &str) -> (r: Result<CFile, ELoader>)
    ensures
        match r {
            Ok(file) => file.file_id() == 0 && file.path_text() == path@ && is_extension_of(
                path@,
                Some(file.extension_text()),
            ) && file.bytes() == Seq::<u8>::empty(),
            Err(e) => is_extension_of(path@, None) && (e matches ELoader::FILE_ERROR {
                source: EFile::FILE_EXT(p),
            } && p@ == path@),
        },
{
    let ext = match get_file_extension(path) {
        Ok(ext) => ext,
        Err(e) => {
            return Err(e);
        },
    };
    Ok(CFile::new(0, path.to_owned(), ext.to_owned(), Vec::new()))
}

/// Gets the extension of the file a path names, without the dot. Fails, with the
/// path, exactly where the path has no extension.
pub fn get_file_extension(path: &str) -> (r: Result<&str, ELoader>)
    ensures
        match r {
            Ok(ext) => is_extension_of(path@, Some(ext@)),
            Err(e) => is_extension_of(path@, None) && (e matches ELoader::FILE_ERROR {
                source: EFile::FILE_EXT(p),
            } && p@ == path@),
        },
{
    match path_extension(path) {
        Ok(ext) => Ok(ext),
        Err(_) => Err(ELoader::FILE_ERROR { source: EFile::FILE_EXT(path.to_owned()) }),
    }
}

} // verus!
