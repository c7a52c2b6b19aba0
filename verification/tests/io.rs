use cobia::application::HostInfo;
use cobia::error_handler::{ECore, EFile, EGeneral};
use cobia::file::{get_file_content, is_a_correct_path, FileFailure};
use cobia::io::{extension_or_error, get_file_extension, load_file, EIo, PathProbe};

fn there() -> PathProbe {
    PathProbe { exists: Ok(true), is_symlink: false }
}

fn missing(is_symlink: bool) -> PathProbe {
    PathProbe { exists: Ok(false), is_symlink }
}

fn unreadable() -> PathProbe {
    PathProbe { exists: Err("permission denied".to_string()), is_symlink: false }
}

fn notes<T: std::fmt::Debug>(r: Result<T, FileFailure>) -> (EFile, Vec<String>) {
    let f = r.unwrap_err();
    (f.kind, f.notes)
}

#[test]
fn extension_is_what_follows_the_last_dot_of_the_file_name() {
    assert_eq!(get_file_extension("data/test/test1.png").unwrap(), "png");
    assert_eq!(get_file_extension("archive.tar.gz").unwrap(), "gz");
    assert_eq!(get_file_extension("dir.d/.hidden.txt").unwrap(), "txt");
    assert_eq!(get_file_extension("trailing.").unwrap(), "");
    assert_eq!(get_file_extension("dir/name.ext/").unwrap(), "ext");
    for path in ["data/test/test_no_ext", "dir.d/file", ".hidden", "", "dir/..", "/"] {
        match get_file_extension(path) {
            Err(EIo::FILE_EXT(p)) => assert_eq!(p, path),
            other => panic!("{:?} has no extension, got {:?}", path, other),
        }
    }
}

#[test]
fn extension_found_or_not_becomes_the_result() {
    assert_eq!(extension_or_error("a.b", Some("b")).unwrap(), "b");
    assert!(matches!(extension_or_error("a", None), Err(EIo::FILE_EXT(ref p)) if p == "a"));
}

#[test]
fn path_that_cannot_be_loaded_says_why() {
    assert!(load_file("a.txt", there()).is_ok());
    let why = |probe| match load_file("a.txt", probe) {
        Err(EIo::BAD_PATH(p, why)) => {
            assert_eq!(p, "a.txt");
            why
        }
        other => panic!("unexpected {:?}", other),
    };
    assert_eq!(why(missing(false)), "file doesn't exist");
    assert_eq!(why(missing(true)), "Broken symbolic link");
    assert_eq!(why(unreadable()), "permission denied");
}

#[test]
fn file_failures_gather_notes_on_their_way_up() {
    assert!(is_a_correct_path("a.txt", &there()).is_ok());
    assert_eq!(notes(is_a_correct_path("a.txt", &missing(false))), (EFile::Path, vec!["a.txt does not exist".to_string()]));
    assert_eq!(
        notes(is_a_correct_path("a.txt", &missing(true))),
        (EFile::Path, vec!["The path a.txt is a broken symbolic link".to_string()])
    );
    assert_eq!(notes(is_a_correct_path("a.txt", &unreadable())), (EFile::Path, vec!["permission denied".to_string()]));

    assert_eq!(cobia::file::get_file_extension("dir/a.txt", &there()).unwrap(), "txt");
    assert_eq!(
        notes(cobia::file::get_file_extension("dir/a.txt", &missing(false))),
        (EFile::Extension, vec!["dir/a.txt does not exist".to_string(), "Can't find file extension".to_string()])
    );
    assert_eq!(
        notes(cobia::file::get_file_extension("dir/a", &there())),
        (EFile::Extension, vec!["unable to retrieve file extension for dir/a".to_string()])
    );

    assert_eq!(get_file_content("a.txt", &there(), Ok(vec![1, 2])).unwrap(), vec![1, 2]);
    assert_eq!(
        notes(get_file_content("a.txt", &there(), Err("is a directory".to_string()))),
        (EFile::Content, vec!["cant access file a.txt content because of is a directory".to_string()])
    );
    assert_eq!(
        notes(get_file_content("a.txt", &unreadable(), Ok(vec![1]))),
        (EFile::Content, vec!["permission denied".to_string(), "Can't get file content".to_string()])
    );
}

#[test]
fn errors_have_their_headings() {
    assert_eq!(EGeneral::Conversion.describe(), "Conversion Error");
    assert_eq!(EGeneral::MutexAccess.describe(), "MutexAccess Error");
    assert_eq!(EGeneral::CStringParsing.describe(), "C_STRING_PARSING Error");
    assert_eq!(ECore::Logging.describe(), "Logging Module Error:");
    assert_eq!(ECore::File.describe(), "Load File Module Error:");
    assert_eq!(EFile::Extension.describe(), "Extension Error");
    assert_eq!(EFile::Content.describe(), "Content Error");
    assert_eq!(EFile::Path.describe(), "Path error");
}

#[test]
fn host_is_remembered() {
    let host = HostInfo::new("linux");
    assert_eq!(host.get_os(), "linux");
}
