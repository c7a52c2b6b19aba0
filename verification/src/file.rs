//! Files on disk, as far as the engine decides about them: whether a path can be
//! used, which extension it has, and what reading it gave.

use vstd::prelude::*;
use vstd::string::StringExecFns;
use crate::error_handler::EFile;
use crate::io::{get_file_extension as path_extension, is_extension_of, PathProbe};

verus! {

/// Why a file could not be used: the kind of error, and what is attached to it
/// on its way up, the first note being the innermost.
#[derive(Debug)]
pub struct FileFailure {
    pub kind: EFile,
    pub notes: Vec<String>,
}

/// The note on a path that nothing can be loaded from, if there is any: the probe
/// failed, or nothing is there, in which case a symbolic link is a broken one.
pub open spec fn path_note(path: Seq<char>, probe: PathProbe) -> Option<Seq<char>> {
    match probe.exists {
        Err(why) => Some(why@),
        Ok(true) => None,
        Ok(false) => if probe.is_symlink {
            Some("The path "@ + path + " is a broken symbolic link"@)
        } else {
            Some(path + " does not exist"@)
        },
    }
}

/// `r` is the failure of the kind `kind` with exactly the given notes.
pub open spec fn is_failure<T>(r: Result<T, FileFailure>, kind: EFile, notes: Seq<Seq<char>>)
    -> bool {
    r matches Err(f) && f.kind == kind && f.notes@.len() == notes.len() && forall|i: int|
        0 <= i < notes.len() ==> (#[trigger] f.notes@[i])@ == notes[i]
}

fn failure<T>(kind: EFile, first: String, second: Option<&str>) -> (r: Result<T, FileFailure>)
    ensures
        is_failure(
            r,
            kind,
            match second {
                Some(s) => seq![first@, s@],
                None => seq![first@],
            },
        ),
{
    let mut notes: Vec<String> = Vec::new();
    notes.push(first);
    match second {
        Some(s) => {
            notes.push(s.to_owned());
        },
        None => {},
    }
    Err(FileFailure { kind, notes })
}

/// Checks, from what probing the path on disk gave, that something exists at a path.
pub fn is_a_correct_path(path: &str, probe: &PathProbe) -> (r: Result<(), FileFailure>)
    ensures
        match path_note(path@, *probe) {
            None => r is Ok,
            Some(note) => is_failure(r, EFile::Path, seq![note]),
        },
{
    match &probe.exists {
        Ok(there) => {
            if !*there {
                if probe.is_symlink {
                    let mut note = String::from_str("The path ");
                    note.append(path);
                    note.append(" is a broken symbolic link");
                    return failure(EFile::Path, note, None);
                }
                let mut note = path.to_owned();
                note.append(" does not exist");
                return failure(EFile::Path, note, None);
            }
        },
        Err(why) => {
            return failure(EFile::Path, why.clone(), None);
        },
    }
    Ok(())
}

pub const NO_EXTENSION_FOUND: &'static str = "Can't find file extension";

pub const NO_CONTENT: &'static str = "Can't get file content";

/// Returns the extension of a file, after making sure that the file is there.
/// Fails where nothing can be loaded from the path, and where the path has no
/// extension.
pub fn get_file_extension<'a>(fp: &'a str, probe: &PathProbe) -> (r: Result<&'a str, FileFailure>)
    ensures
        match path_note(fp@, *probe) {
            Some(note) => is_failure(r, EFile::Extension, seq![note, NO_EXTENSION_FOUND@]),
            None => match r {
                Ok(ext) => is_extension_of(fp@, Some(ext@)),
                Err(_) => is_extension_of(fp@, None) && is_failure(
                    r,
                    EFile::Extension,
                    seq!["unable to retrieve file extension for "@ + fp@],
                ),
            },
        },
{
    match is_a_correct_path(fp, probe) {
        Ok(()) => {},
        Err(f) => {
            let mut notes = f.notes;
            notes.push(NO_EXTENSION_FOUND.to_owned());
            let r = Err(FileFailure { kind: EFile::Extension, notes });
            proof {
                let note = path_note(fp@, *probe)->Some_0;
                assert(notes@.len() == 2);
                assert(notes@[0]@ == note);
            }
            return r;
        },
    }
    match path_extension(fp) {
        Ok(ext) => Ok(ext),
        Err(_) => {
            let mut note = String::from_str("unable to retrieve file extension for ");
            note.append(fp);
            failure(EFile::Extension, note, None)
        },
    }
}

/// Returns the content of a file as bytes, from what reading the file gave,
/// after making sure that the file is there.
pub fn get_file_content(fp: &str, probe: &PathProbe, read: Result<Vec<u8>, String>) -> (r: Result<
    Vec<u8>,
    FileFailure,
>)
    ensures
        match path_note(fp@, *probe) {
            Some(note) => is_failure(r, EFile::Content, seq![note, NO_CONTENT@]),
            None => match read {
                Ok(content) => r matches Ok(c) && c == content,
                Err(why) => is_failure(
                    r,
                    EFile::Content,
                    seq!["cant access file "@ + fp@ + " content because of "@ + why@],
                ),
            },
        },
{
    match is_a_correct_path(fp, probe) {
        Ok(()) => {},
        Err(f) => {
            let mut notes = f.notes;
            notes.push(NO_CONTENT.to_owned());
            let r = Err(FileFailure { kind: EFile::Content, notes });
            proof {
                let note = path_note(fp@, *probe)->Some_0;
                assert(notes@.len() == 2);
                assert(notes@[0]@ == note);
            }
            return r;
        },
    }
    match read {
        Ok(content) => Ok(content),
        Err(why) => {
            let mut note = String::from_str("cant access file ");
            note.append(fp);
            note.append(" content because of ");
            note.append(why.as_str());
            failure(EFile::Content, note, None)
        },
    }
}

} // verus!
