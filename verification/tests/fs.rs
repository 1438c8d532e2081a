use package_json::fs::find_closest_by;
use package_json::{find_closest_file, PACKAGE_JSON_FILENAME};
use std::cell::RefCell;
use std::io::Write;
use std::path::{Path, PathBuf};

fn directory_in(parent: &std::path::Path, name: &str) -> tempfile::TempDir {
    tempfile::Builder::new().prefix(name).rand_bytes(0).tempdir_in(parent).unwrap()
}

fn file_in(parent: &std::path::Path, name: &str) -> tempfile::NamedTempFile {
    tempfile::Builder::new().prefix(name).rand_bytes(0).tempfile_in(parent).unwrap()
}

#[test]
fn test_find_closest_file() {
    let dir = tempfile::tempdir().expect("create temp_dir failed!");
    let nest = directory_in(dir.path(), "nest");
    let a = directory_in(nest.path(), "a");
    let b = directory_in(a.path(), "b");
    let c = directory_in(b.path(), "c");
    let d = directory_in(c.path(), "d");
    let e = directory_in(d.path(), "e");
    let _f = directory_in(e.path(), "f");
    let file_path = dir.path().join(format!("nest/a/b/c/{}", PACKAGE_JSON_FILENAME));
    let deeper_dir = file_path.parent().unwrap().join("d/e/f");

    let mut valid_file = file_in(c.path(), PACKAGE_JSON_FILENAME);
    assert_eq!(valid_file.path(), file_path.as_path());
    let valid_json = r#"{
  "name": "test"
}
  "#;

    valid_file.write_all(valid_json.as_bytes()).expect("write json failed");

    for (dir, expect) in [
        // the parent dir
        (dir.path().to_path_buf(), None),
        // the sibling of parent dir
        (file_path.parent().unwrap().parent().unwrap().join("ff"), None),
        // the file dir
        (file_path.parent().unwrap().to_path_buf(), Some(file_path.to_owned())),
        // the file path
        (file_path.to_path_buf(), Some(file_path.to_owned())),
        // the children dir of file_path
        (deeper_dir, Some(file_path.to_owned())),
    ] {
        assert_eq!(
            find_closest_file(PACKAGE_JSON_FILENAME, &dir),
            expect,
            "find_closest_file failed!"
        );
    }
}

#[test]
fn closest_file_is_found_in_the_directory_and_above_it_only() {
    let top = tempfile::tempdir().unwrap();
    let a = directory_in(top.path(), "a");
    let b = directory_in(a.path(), "b");
    let c = directory_in(b.path(), "c");
    let d = directory_in(c.path(), "d");
    let e = directory_in(d.path(), "e");
    let f = directory_in(e.path(), "f");
    let sibling = directory_in(b.path(), "sibling");
    let _file = file_in(c.path(), PACKAGE_JSON_FILENAME);
    let file_path = c.path().join(PACKAGE_JSON_FILENAME);

    for dir in [top.path(), a.path(), b.path(), sibling.path()] {
        assert_eq!(find_closest_file(PACKAGE_JSON_FILENAME, &dir.to_path_buf()), None);
    }
    for dir in [c.path(), d.path(), e.path(), f.path()] {
        assert_eq!(
            find_closest_file(PACKAGE_JSON_FILENAME, &dir.to_path_buf()),
            Some(file_path.clone())
        );
    }
    assert_eq!(find_closest_file("other.json", &f.path().to_path_buf()), None);
}

#[test]
fn the_nearest_of_several_files_wins() {
    let top = tempfile::tempdir().unwrap();
    let outer = directory_in(top.path(), "outer");
    let inner = directory_in(outer.path(), "inner");
    let leaf = directory_in(inner.path(), "leaf");
    let _far = file_in(outer.path(), PACKAGE_JSON_FILENAME);
    let _near = file_in(inner.path(), PACKAGE_JSON_FILENAME);
    assert_eq!(
        find_closest_file(PACKAGE_JSON_FILENAME, &leaf.path().to_path_buf()),
        Some(inner.path().join(PACKAGE_JSON_FILENAME))
    );
    assert_eq!(
        find_closest_file(PACKAGE_JSON_FILENAME, &outer.path().to_path_buf()),
        Some(outer.path().join(PACKAGE_JSON_FILENAME))
    );
}

#[test]
fn a_directory_of_that_name_is_no_file() {
    let top = tempfile::tempdir().unwrap();
    let holder = directory_in(top.path(), "holder");
    let _decoy = directory_in(holder.path(), PACKAGE_JSON_FILENAME);
    assert_eq!(find_closest_file(PACKAGE_JSON_FILENAME, &holder.path().to_path_buf()), None);
}

#[test]
fn the_probe_is_asked_from_the_start_upwards_until_it_accepts() {
    let asked = RefCell::new(Vec::new());
    let found = find_closest_by("package.json", &PathBuf::from("/a/b/c"), |path: &PathBuf| {
        asked.borrow_mut().push(path.clone());
        path == Path::new("/a/package.json")
    });
    assert_eq!(found, Some(PathBuf::from("/a/package.json")));
    assert_eq!(
        asked.into_inner(),
        vec![
            PathBuf::from("/a/b/c/package.json"),
            PathBuf::from("/a/b/package.json"),
            PathBuf::from("/a/package.json"),
        ]
    );
}

#[test]
fn the_search_ends_with_nothing_above_the_topmost_directory() {
    let asked = RefCell::new(Vec::new());
    let found = find_closest_by("package.json", &PathBuf::from("/a/b"), |path: &PathBuf| {
        asked.borrow_mut().push(path.clone());
        false
    });
    assert_eq!(found, None);
    assert_eq!(
        asked.into_inner(),
        vec![
            PathBuf::from("/a/b/package.json"),
            PathBuf::from("/a/package.json"),
            PathBuf::from("/package.json"),
        ]
    );
}

#[test]
fn a_relative_start_is_searched_up_to_the_empty_path() {
    let asked = RefCell::new(Vec::new());
    let found = find_closest_by("f.json", &PathBuf::from("x/y"), |path: &PathBuf| {
        asked.borrow_mut().push(path.clone());
        false
    });
    assert_eq!(found, None);
    assert_eq!(
        asked.into_inner(),
        vec![PathBuf::from("x/y/f.json"), PathBuf::from("x/f.json"), PathBuf::from("f.json")]
    );
}

#[test]
fn the_first_candidate_is_the_file_in_the_start_directory() {
    let found = find_closest_by("package.json", &PathBuf::from("/a/b/c"), |_: &PathBuf| true);
    assert_eq!(found, Some(PathBuf::from("/a/b/c/package.json")));
    let found = find_closest_by("package.json", &PathBuf::from("/"), |_: &PathBuf| true);
    assert_eq!(found, Some(PathBuf::from("/package.json")));
    let found = find_closest_by("package.json", &PathBuf::from(""), |_: &PathBuf| true);
    assert_eq!(found, Some(PathBuf::from("package.json")));
}

#[test]
fn siblings_and_children_of_the_start_are_never_candidates() {
    let holds = |path: &PathBuf| {
        path == Path::new("/a/b/c/package.json") || path == Path::new("/a/x/package.json")
    };
    assert_eq!(find_closest_by("package.json", &PathBuf::from("/a"), holds), None);
    assert_eq!(find_closest_by("package.json", &PathBuf::from("/a/b"), holds), None);
    assert_eq!(find_closest_by("package.json", &PathBuf::from("/a/b/ff"), holds), None);
    assert_eq!(
        find_closest_by("package.json", &PathBuf::from("/a/b/c"), holds),
        Some(PathBuf::from("/a/b/c/package.json"))
    );
    assert_eq!(
        find_closest_by("package.json", &PathBuf::from("/a/b/c/d/e/f"), holds),
        Some(PathBuf::from("/a/b/c/package.json"))
    );
    assert_eq!(
        find_closest_by("package.json", &PathBuf::from("/a/x/y"), holds),
        Some(PathBuf::from("/a/x/package.json"))
    );
}

#[test]
fn repeating_a_search_gives_the_same_path() {
    let holds = |path: &PathBuf| path == Path::new("/a/package.json");
    let start = PathBuf::from("/a/b/c");
    let first = find_closest_by("package.json", &start, holds);
    let second = find_closest_by("package.json", &start, holds);
    assert_eq!(first, Some(PathBuf::from("/a/package.json")));
    assert_eq!(first, second);
}
