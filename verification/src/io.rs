//! Paths of files: which extension a path has, and whether a path can be loaded.

use vstd::prelude::*;
use vstd::string::StringExecFns;

verus! {

/// What can go wrong with a path.
#[allow(non_camel_case_types)]
#[derive(Debug)]
pub enum EIo {
    /// The path, and why it cannot be used.
    BAD_PATH(String, String),
    /// The path whose file has no extension: it has no file name, or the name has
    /// no dot in it, or only the one it starts with.
    FILE_EXT(String),
}

/// The file name of a path, as `std::path::Path::file_name` finds it on the
/// platform the library is built for: the last component of the path, if there is
/// one and it is not the parent directory.
pub uninterp spec fn file_name_of(path: Seq<char>) -> Option<Seq<char>>;

/// The position of the last dot of a name.
pub open spec fn is_last_dot(name: Seq<char>, dot: int) -> bool {
    &&& 0 <= dot < name.len()
    &&& name[dot] == '.'
    &&& forall|j: int| dot < j < name.len() ==> name[j] != '.'
}

/// `ext` is the extension of the file name `name`: what follows the last dot of
/// the name, where the name has a dot that is not its first character.
pub open spec fn is_extension_of_name(name: Seq<char>, ext: Option<Seq<char>>) -> bool {
    match ext {
        Some(e) => exists|dot: int|
            0 < dot && #[trigger] is_last_dot(name, dot) && e == name.subrange(
                dot + 1,
                name.len() as int,
            ),
        None => forall|dot: int| #[trigger] is_last_dot(name, dot) ==> dot == 0,
    }
}

/// `ext` is the extension of a path with the file name `file_name`: none where the
/// path has no file name, else the extension of its file name.
pub open spec fn is_extension_for(file_name: Option<Seq<char>>, ext: Option<Seq<char>>) -> bool {
    match file_name {
        None => ext is None,
        Some(name) => is_extension_of_name(name, ext),
    }
}

/// `ext` is the extension of the path `path`.
pub open spec fn is_extension_of(path: Seq<char>, ext: Option<Seq<char>>) -> bool {
    is_extension_for(file_name_of(path), ext)
}

/// Calls `std::path::Path::extension` on the path. The standard library documents
/// the result as the extension of the path's file name: none if there is no file
/// name, none if the name has no dot, none if the name starts with a dot and has
/// no other, else the part of the name after the last dot.
#[verifier::external_body]
fn path_extension(path: &str) -> (r: Option<&str>)
    ensures
        is_extension_for(
            file_name_of(path@),
            match r {
                Some(e) => Some(e@),
                None => None,
            },
        ),
{
    match std::path::Path::new(path).extension() {
        Some(e) => e.to_str(),
        None => None,
    }
}

/// Gets the extension of the file a path names, without the dot. Fails, with the
/// path, exactly where the path has no extension.
pub fn get_file_extension(path: &str) -> (r: Result<&str, EIo>)
    ensures
        match r {
            Ok(ext) => is_extension_of(path@, Some(ext@)),
            Err(e) => is_extension_of(path@, None) && (e matches EIo::FILE_EXT(p) && p@ == path@),
        },
{
    extension_or_error(path, path_extension(path))
}

/// Turns the extension that was found for a path, or none, into the result of
/// asking for it: the extension, or the error that holds the path.
pub fn extension_or_error<'a>(path: &str, extension: Option<&'a str>) -> (r: Result<&'a str, EIo>)
    ensures
        match extension {
            Some(ext) => r matches Ok(e) && e@ == ext@,
            None => r matches Err(EIo::FILE_EXT(p)) && p@ == path@,
        },
{
    match extension {
        Some(ext) => Ok(ext),
        None => Err(EIo::FILE_EXT(path.to_owned())),
    }
}

/// What probing a path on disk gave.
#[derive(Debug)]
pub struct PathProbe {
    /// Whether something exists at the path, or why that could not be found out.
    pub exists: Result<bool, String>,
    /// The path itself is a symbolic link.
    pub is_symlink: bool,
}

/// Why a probed path cannot be loaded, if it cannot: the probe failed, or nothing
/// is there, in which case a symbolic link is a broken one.
pub open spec fn path_fault(probe: PathProbe) -> Option<Seq<char>> {
    match probe.exists {
        Err(why) => Some(why@),
        Ok(true) => None,
        Ok(false) => if probe.is_symlink {
            Some("Broken symbolic link"@)
        } else {
            Some("file doesn't exist"@)
        },
    }
}

/// Makes sure that a path can be loaded, from what probing it on disk gave.
pub fn load_file(fp: &str, probe: PathProbe) -> (r: Result<(), EIo>)
    ensures
        match path_fault(probe) {
            None => r is Ok,
            Some(fault) => r matches Err(EIo::BAD_PATH(p, why)) && p@ == fp@ && why@ == fault,
        },
{
    match probe.exists {
        Ok(there) => {
            if !there {
                if probe.is_symlink {
                    return Err(
                        EIo::BAD_PATH(fp.to_owned(), String::from_str("Broken symbolic link")),
                    );
                }
                return Err(EIo::BAD_PATH(fp.to_owned(), String::from_str("file doesn't exist")));
            }
        },
        Err(why) => {
            return Err(EIo::BAD_PATH(fp.to_owned(), why));
        },
    }
    Ok(())
}

/// A path has one extension or none: two answers to the same question agree.
pub proof fn lemma_extension_unique(path: Seq<char>, a: Option<Seq<char>>, b: Option<Seq<char>>)
    requires
        is_extension_of(path, a),
        is_extension_of(path, b),
    ensures
        a == b,
{
    match file_name_of(path) {
        None => {},
        Some(name) => {
            match (a, b) {
                (Some(x), Some(y)) => {
                    let dx = choose|dot: int|
                        0 < dot && #[trigger] is_last_dot(name, dot) && x == name.subrange(
                            dot + 1,
                            name.len() as int,
                        );
                    let dy = choose|dot: int|
                        0 < dot && #[trigger] is_last_dot(name, dot) && y == name.subrange(
                            dot + 1,
                            name.len() as int,
                        );
                    assert(dx == dy);
                },
                (Some(x), None) => {
                    let dx = choose|dot: int|
                        0 < dot && #[trigger] is_last_dot(name, dot) && x == name.subrange(
                            dot + 1,
                            name.len() as int,
                        );
                    assert(is_last_dot(name, dx));
                },
                (None, Some(y)) => {
                    let dy = choose|dot: int|
                        0 < dot && #[trigger] is_last_dot(name, dot) && y == name.subrange(
                            dot + 1,
                            name.len() as int,
                        );
                    assert(is_last_dot(name, dy));
                },
                (None, None) => {},
            }
        },
    }
}

} // verus!
