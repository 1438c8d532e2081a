use package_json::{
    PackageJson, PackageJsonError, PackageJsonManager, PendingWrite, PACKAGE_JSON_FILENAME,
};
use std::io::{Read, Seek, Write};
use std::path::PathBuf;

const VALID: &str = r#"{
"name": "test",
"version": "0.0.1"
}"#;

fn directory_in(parent: &std::path::Path, name: &str) -> tempfile::TempDir {
    tempfile::Builder::new().prefix(name).rand_bytes(0).tempdir_in(parent).unwrap()
}

fn file_in(parent: &std::path::Path, name: &str, contents: &str) -> tempfile::NamedTempFile {
    let mut file =
        tempfile::Builder::new().prefix(name).rand_bytes(0).tempfile_in(parent).unwrap();
    file.write_all(contents.as_bytes()).unwrap();
    file.flush().unwrap();
    file
}

fn contents_of(file: &tempfile::NamedTempFile) -> String {
    let mut handle = file.reopen().unwrap();
    let mut contents = String::new();
    handle.read_to_string(&mut contents).unwrap();
    contents
}

#[test]
fn test_new() {
    let mut manager = PackageJsonManager::new();
    assert_eq!(manager.get_file_path(), None);

    let file_path = PathBuf::from("/path/to/package.json");
    manager.set_file_path(&file_path);
    assert_eq!(manager.get_file_path(), Some(&file_path.to_owned()));
    assert_eq!(manager.get_file_path(), Some(&file_path));
    assert_eq!(manager.take_file_path(), Some(file_path.to_owned()));
    assert_eq!(manager.get_file_path(), None);
}

fn read_located<'a>(
    manager: &'a mut PackageJsonManager,
    file: &tempfile::NamedTempFile,
) -> Result<&'a PackageJson, PackageJsonError> {
    let contents = match manager.get_file_path() {
        Some(path) => {
            assert_eq!(path.as_path(), file.path());
            contents_of(file)
        }
        None => String::new(),
    };
    manager.read_ref(&contents)
}

#[test]
fn test_readable() {
    let mut manager = PackageJsonManager::new();
    let top = tempfile::tempdir().expect("create temp_dir failed!");
    let a = directory_in(top.path(), "a");
    let b = directory_in(a.path(), "b");
    let c = directory_in(b.path(), "c");
    let d = directory_in(c.path(), "d");
    let e = directory_in(d.path(), "e");
    let _f = directory_in(e.path(), "f");
    let valid_json = r#"{
"name": "test",
"version": "0.0.1"
}"#;
    let valid_file = file_in(c.path(), PACKAGE_JSON_FILENAME, valid_json);

    assert!(read_located(&mut manager, &valid_file).is_err(), "found an available file.");
    assert!(manager.get_file_path().is_none(), "found an available file.");

    let file_path = top.path().join(format!("a/b/c/{}", PACKAGE_JSON_FILENAME));
    let file_dir = file_path.parent().unwrap();
    let deeper_file_dir = file_dir.join("d/e/f");

    for (dir, expect) in [
        (top.path(), None),
        (file_dir, Some(file_path.to_owned())),
        (deeper_file_dir.as_path(), Some(file_path.to_owned())),
    ] {
        assert_eq!(manager.locate_closest_from(&dir.to_path_buf()), expect);
        if expect.is_some() {
            assert!(read_located(&mut manager, &valid_file).is_ok(), "read file failed.");
            assert_eq!(manager.get_file_path().map(|p| p.to_path_buf()), expect);

            if let Ok(json) = read_located(&mut manager, &valid_file) {
                assert_eq!(json.name, "test");
                assert_eq!(json.version, "0.0.1");
            }

            let handler = manager.as_ref();
            assert_eq!(handler.name, "test");
            assert_eq!(handler.version, "0.0.1");
            assert!(!handler.private);
        } else {
            assert!(read_located(&mut manager, &valid_file).is_err(), "read field successful.")
        }
    }
}

#[test]
fn test_writable() {
    let mut manager = PackageJsonManager::new();
    assert!(manager.write().is_err(), "found an available file.");

    let top = tempfile::tempdir().expect("create temp_dir failed!");
    let a = directory_in(top.path(), "a");
    let b = directory_in(a.path(), "b");
    let c = directory_in(b.path(), "c");
    let file_path = top.path().join(format!("a/b/c/{}", PACKAGE_JSON_FILENAME));
    let valid_json = r#"{
"name": "test",
"version": "0.0.1"
}"#;
    let mut valid_file = file_in(c.path(), PACKAGE_JSON_FILENAME, valid_json);

    manager.set_file_path(&file_path);

    // case `read_mut`
    {
        let contents = contents_of(&valid_file);
        let file_writer = manager.read_mut(&contents);
        assert!(file_writer.is_ok(), "create file writer failed: {:?}", file_writer);
        if let Ok(json) = file_writer {
            json.name = "test2".to_string();
            json.version = "0.0.2".to_string();
            let pending = manager.write();
            assert!(pending.is_ok());
            let pending = pending.unwrap();
            assert_eq!(pending.path, file_path);
            valid_file.as_file().set_len(0).unwrap();
            valid_file.rewind().unwrap();
            valid_file.write_all(pending.contents.as_bytes()).unwrap();
        }
        let file_reader = manager.as_ref();
        assert_eq!(file_reader.name, "test2");
        assert_eq!(file_reader.version, "0.0.2");
        assert_eq!(
            contents_of(&valid_file),
            r#"{"name":"test2","version":"0.0.2","main":"index.js","private":false,"type":"commonjs"}"#
        );
    }

    // case `as_mut`
    {
        let mutable_handler = manager.as_mut();
        mutable_handler.name = "test3".to_string();
        mutable_handler.version = "0.0.3".to_string();
        let file_reader = manager.as_ref();
        assert_eq!(file_reader.name, "test3");
        assert_eq!(file_reader.version, "0.0.3");
    }
}

#[test]
fn the_file_name_is_package_json() {
    assert_eq!(PACKAGE_JSON_FILENAME, "package.json");
}

#[test]
fn a_new_manager_holds_the_default_descriptor() {
    let manager = PackageJsonManager::new();
    assert_eq!(manager.as_ref(), &PackageJson::default());
    let mut manager = PackageJsonManager::default();
    assert_eq!(manager.get_file_path(), None);
    assert_eq!(manager.as_ref(), &PackageJson::default());
}

#[test]
fn with_file_path_knows_the_path_without_looking_at_the_disk() {
    let path = PathBuf::from("/no/such/dir/package.json");
    let mut manager = PackageJsonManager::with_file_path(&path);
    assert_eq!(manager.get_file_path(), Some(&path));
    assert_eq!(manager.as_ref(), &PackageJson::default());
}

#[test]
fn write_without_a_path_is_not_located() {
    let mut manager = PackageJsonManager::new();
    assert!(matches!(manager.write(), Err(PackageJsonError::NotLocated)));
    assert_eq!(manager.get_file_path(), None);
    manager.as_mut().name = "edited".to_owned();
    assert!(matches!(manager.write(), Err(PackageJsonError::NotLocated)));
    let path = PathBuf::from("/path/to/package.json");
    manager.set_file_path(&path);
    assert!(manager.write().is_ok());
    assert_eq!(manager.take_file_path(), Some(path));
    assert!(matches!(manager.write(), Err(PackageJsonError::NotLocated)));
}

#[test]
fn read_without_a_path_is_not_located() {
    let mut manager = PackageJsonManager::new();
    assert!(matches!(manager.read_ref(VALID), Err(PackageJsonError::NotLocated)));
    assert!(matches!(manager.read_mut(VALID), Err(PackageJsonError::NotLocated)));
    assert_eq!(manager.as_ref(), &PackageJson::default());
}

#[test]
fn read_replaces_the_descriptor_as_a_whole() {
    let mut manager = PackageJsonManager::with_file_path(&PathBuf::from("/p/package.json"));
    manager.as_mut().license = Some("MIT".to_owned());
    {
        let json = manager.read_ref(VALID).unwrap();
        assert_eq!(json.name, "test");
        assert_eq!(json.version, "0.0.1");
        assert_eq!(json.license, None);
    }
    let handler = manager.as_ref();
    assert_eq!(handler.name, "test");
    assert_eq!(handler.version, "0.0.1");
    assert!(!handler.private);
    assert_eq!(handler, &PackageJson::from_json(VALID).unwrap());
    assert_eq!(manager.get_file_path(), Some(&PathBuf::from("/p/package.json")));
}

#[test]
fn a_failed_read_leaves_the_descriptor_as_it_was() {
    let mut manager = PackageJsonManager::with_file_path(&PathBuf::from("/p/package.json"));
    manager.read_ref(VALID).unwrap();
    assert!(matches!(manager.read_ref("{ not json"), Err(PackageJsonError::Syntax(_))));
    assert_eq!(manager.as_ref().name, "test");
    assert!(matches!(manager.read_mut("[]"), Err(PackageJsonError::NotAnObject)));
    assert_eq!(manager.as_ref().name, "test");
    match manager.read_ref(r#"{"name":"other"}"#) {
        Err(PackageJsonError::Attribute(name)) => assert_eq!(name, "version"),
        other => panic!("expected an attribute error, got {:?}", other.map(|_| ())),
    }
    assert_eq!(manager.as_ref(), &PackageJson::from_json(VALID).unwrap());
    assert_eq!(manager.get_file_path(), Some(&PathBuf::from("/p/package.json")));
}

#[test]
fn write_hands_out_the_path_and_the_compact_text() {
    let path = PathBuf::from("/p/package.json");
    let mut manager = PackageJsonManager::with_file_path(&path);
    {
        let json = manager.read_mut(VALID).unwrap();
        json.name = "test2".to_owned();
        json.version = "0.0.2".to_owned();
    }
    assert_eq!(
        manager.write().unwrap(),
        PendingWrite {
            path: path.clone(),
            contents: r#"{"name":"test2","version":"0.0.2","main":"index.js","private":false,"type":"commonjs"}"#.to_owned(),
        }
    );
    let file_reader = manager.as_ref();
    assert_eq!(file_reader.name, "test2");
    assert_eq!(file_reader.version, "0.0.2");

    let mutable_handler = manager.as_mut();
    mutable_handler.name = "test3".to_owned();
    mutable_handler.version = "0.0.3".to_owned();
    let file_reader = manager.as_ref();
    assert_eq!(file_reader.name, "test3");
    assert_eq!(file_reader.version, "0.0.3");
    assert_eq!(manager.get_file_path(), Some(&path));
}

#[test]
fn write_to_names_the_given_path_and_keeps_the_known_one() {
    let mut manager = PackageJsonManager::new();
    manager.as_mut().name = "elsewhere".to_owned();
    let target = PathBuf::from("/other/package.json");
    let pending = manager.write_to(&target).unwrap();
    assert_eq!(pending.path, target);
    assert_eq!(
        pending.contents,
        r#"{"name":"elsewhere","version":"","main":"index.js","private":false,"type":"commonjs"}"#
    );
    assert_eq!(manager.get_file_path(), None);
    let known = PathBuf::from("/known/package.json");
    manager.set_file_path(&known);
    assert_eq!(manager.write_to(&target).unwrap().path, target);
    assert_eq!(manager.write().unwrap().path, known);
    assert_eq!(manager.get_file_path(), Some(&known));
}

#[test]
fn locating_stores_the_path_and_resets_the_descriptor() {
    let top = tempfile::tempdir().unwrap();
    let a = directory_in(top.path(), "a");
    let b = directory_in(a.path(), "b");
    let c = directory_in(b.path(), "c");
    let d = directory_in(c.path(), "d");
    let file = file_in(c.path(), PACKAGE_JSON_FILENAME, VALID);
    let file_path = c.path().join(PACKAGE_JSON_FILENAME);

    let mut manager = PackageJsonManager::new();
    manager.as_mut().name = "unsaved".to_owned();
    assert_eq!(manager.locate_closest_from(&top.path().to_path_buf()), None);
    assert_eq!(manager.get_file_path(), None);
    assert_eq!(manager.as_ref().name, "unsaved");
    assert!(matches!(manager.read_ref(VALID), Err(PackageJsonError::NotLocated)));

    for dir in [c.path().to_path_buf(), d.path().to_path_buf()] {
        assert_eq!(manager.locate_closest_from(&dir), Some(file_path.clone()));
        assert_eq!(manager.get_file_path(), Some(&file_path));
        assert_eq!(manager.as_ref(), &PackageJson::default());
        let contents = contents_of(&file);
        let json = manager.read_ref(&contents).unwrap();
        assert_eq!(json.name, "test");
        assert_eq!(json.version, "0.0.1");
    }
}

#[test]
fn locating_twice_gives_the_same_path_and_resets_each_time() {
    let top = tempfile::tempdir().unwrap();
    let project = directory_in(top.path(), "project");
    let src = directory_in(project.path(), "src");
    let file = file_in(project.path(), PACKAGE_JSON_FILENAME, VALID);
    let from = src.path().to_path_buf();

    let mut manager = PackageJsonManager::new();
    let first = manager.locate_closest_from(&from);
    assert_eq!(first, Some(project.path().join(PACKAGE_JSON_FILENAME)));
    assert_eq!(manager.as_ref(), &PackageJson::default());
    manager.read_ref(&contents_of(&file)).unwrap();
    manager.as_mut().description = Some("unsaved".to_owned());
    let second = manager.locate_closest_from(&from);
    assert_eq!(second, first);
    assert_eq!(manager.get_file_path(), first.as_ref());
    assert_eq!(manager.as_ref(), &PackageJson::default());
}

#[test]
fn locating_by_a_probe_resets_only_where_something_is_found() {
    let holds = |path: &PathBuf| path == std::path::Path::new("/work/package.json");
    let mut manager = PackageJsonManager::with_file_path(&PathBuf::from("/old/package.json"));
    manager.read_ref(VALID).unwrap();

    assert_eq!(manager.locate_closest_by(&PathBuf::from("/elsewhere/src"), holds), None);
    assert_eq!(manager.get_file_path(), Some(&PathBuf::from("/old/package.json")));
    assert_eq!(manager.as_ref().name, "test");

    let found = manager.locate_closest_by(&PathBuf::from("/work/src/bin"), holds);
    assert_eq!(found, Some(PathBuf::from("/work/package.json")));
    assert_eq!(manager.get_file_path(), Some(&PathBuf::from("/work/package.json")));
    assert_eq!(manager.as_ref(), &PackageJson::default());

    manager.read_ref(VALID).unwrap();
    let again = manager.locate_closest_by(&PathBuf::from("/work/src/bin"), holds);
    assert_eq!(again, found);
    assert_eq!(manager.as_ref(), &PackageJson::default());
}

#[test]
fn a_failed_search_keeps_the_known_path_and_the_descriptor() {
    let top = tempfile::tempdir().unwrap();
    let empty = directory_in(top.path(), "empty");
    let known = PathBuf::from("/known/package.json");
    let mut manager = PackageJsonManager::with_file_path(&known);
    manager.read_ref(VALID).unwrap();
    assert_eq!(manager.locate_closest_from(&empty.path().to_path_buf()), None);
    assert_eq!(manager.get_file_path(), Some(&known));
    assert_eq!(manager.as_ref().name, "test");
}

#[test]
fn what_is_written_to_disk_is_read_back() {
    let top = tempfile::tempdir().unwrap();
    let mut file = file_in(top.path(), PACKAGE_JSON_FILENAME, VALID);
    let mut manager = PackageJsonManager::new();
    let located = manager.locate_closest_from(&top.path().to_path_buf()).unwrap();
    {
        let json = manager.read_mut(&contents_of(&file)).unwrap();
        json.name = "test2".to_owned();
        json.version = "0.0.2".to_owned();
    }
    let pending = manager.write().unwrap();
    assert_eq!(pending.path, located);
    file.as_file().set_len(0).unwrap();
    file.rewind().unwrap();
    file.write_all(pending.contents.as_bytes()).unwrap();
    file.flush().unwrap();

    let mut other = PackageJsonManager::with_file_path(&located);
    let json = other.read_ref(&contents_of(&file)).unwrap();
    assert_eq!(json.name, "test2");
    assert_eq!(json.version, "0.0.2");
    assert_eq!(json, manager.as_ref());
}
