use package_json::{
    JsonValue, OrderedMap, PackageBin, PackageJson, PackageMan, PackagePeople, PackageRepository,
};

fn text(s: &str) -> JsonValue {
    JsonValue::Text(s.to_owned())
}

#[test]
fn test_spec_fields() {
    let package_json_raw = r#"
    {
      "name": "test",
      "version": "1.0.0",
      "description": "test",
      "devDependencies": {
        "typescript": "*"
      }
    }
  "#;

    let json = PackageJson::from_json(package_json_raw).unwrap();
    // test actual values
    assert_eq!(json.name, "test");
    assert_eq!(json.version, "1.0.0");
    assert_eq!(json.description, Some("test".to_owned()));
    assert_eq!(json.license, None);
    assert_eq!(json.dependencies, None);
    assert_eq!(
        json.dev_dependencies,
        Some(OrderedMap { entries: vec![("typescript".to_owned(), "*".to_owned())] })
    );
    assert_eq!(json.bundled_dependencies, None);

    // test default values
    assert!(!json.private, "json.private should be false");
    assert_eq!(json.scripts, package_json::schema::default::scripts());
    assert_eq!(json.main, package_json::schema::default::main());
    assert_eq!(json.type_, package_json::schema::default::type_());
}

#[test]
fn test_unknown_fields() {
    let json = r#"
    {
      "name": "test",
      "version": "1.0.0",
      "description": "test",
      "foo": "bar",
      "baz": "qux"
    }"#;

    let package_json = PackageJson::from_json(json).unwrap();
    assert_eq!(package_json.unknowns.len(), 2);
    assert!(package_json.unknowns.contains_key("baz"));
    assert!(package_json.unknowns.contains_key("baz"));
    assert_eq!(package_json.unknowns.get("foo").unwrap(), &text("bar"));
    assert_eq!(package_json.unknowns.get("baz").unwrap(), &text("qux"));
}

#[test]
fn test_repository_string() {
    let json = r#"
  {
    "name": "test",
    "version": "1.0.0",
    "description": "test",
    "repository": "gitlab:user/repo"
  }"#;
    let package_json = PackageJson::from_json(json).unwrap();
    let expected = String::from("gitlab:user/repo");
    match package_json.repository.unwrap() {
        PackageRepository::Url(url) => {
            assert_eq!(url, expected, "expected {} got {}", expected, url);
        }
        PackageRepository::Record(_) => {
            panic!("expected a repository url, got a struct")
        }
    }
}

#[test]
fn test_repository_record() {
    let json = r#"
  {
    "name": "test",
    "version": "1.0.0",
    "description": "test",
    "repository": {
      "type": "git",
      "url": "git+https://github.com/npm/cli.git"
      }
  }"#;
    let package_json = PackageJson::from_json(json).unwrap();
    let expected = String::from("git+https://github.com/npm/cli.git");
    match package_json.repository.unwrap() {
        PackageRepository::Record(record) => {
            assert_eq!(
                record.url, expected,
                "expected repository url {} got {}",
                expected, record.url
            );
        }
        PackageRepository::Url(_) => {
            panic!("expected a repository structl, got a url")
        }
    }
}

#[test]
fn test_repository_record_with_directory() {
    let json = r#"
  {
    "name": "test",
    "version": "1.0.0",
    "description": "test",
    "repository": {
      "type": "git",
      "url": "git+https://github.com/npm/cli.git",
      "directory": "workspaces/libnpmpublish"
    }
  }"#;
    let package_json = PackageJson::from_json(json).unwrap();
    let expected = String::from("workspaces/libnpmpublish");
    match package_json.repository.unwrap() {
        PackageRepository::Record(record) => {
            let dir = record.directory.unwrap();
            assert_eq!(
                dir, expected,
                "expected repository directory {} got {}",
                expected, dir
            );
        }
        PackageRepository::Url(_) => {
            panic!("expected a repository struct, got a url")
        }
    }
}

#[test]
fn test_author_string_serialization() {
    let json = r#"
 {
	"name": "package-name",
	"private": true,
	"version": "1.0.0",
	"description": "Something for everyone",
	"author": "A string value",
	"license": "Apache-2.0",
	"workspaces": [
		"packages/*"
	]
}"#;
    let package_json = PackageJson::from_json(json).unwrap();
    let expected = String::from("A string value");
    match package_json.author.unwrap() {
        PackagePeople::Record(_) => {
            panic!("expected a auhor string, got a struct");
        }
        PackagePeople::Literal(literal) => {
            assert_eq!(literal, expected, "expected {} got {}", expected, literal);
        }
    }
}

#[test]
fn test_author_object_serialization() {
    let json = r#"
 {
	"name": "package-name",
	"private": true,
	"version": "1.0.0",
	"description": "Something for everyone",
	"author": {
    "name": "Barney Rubble",
    "email": "b@rubble.com",
    "url": "http://barnyrubble.tumblr.com/"
  },
	"license": "Apache-2.0",
	"workspaces": [
		"packages/*"
	]
}"#;
    let package_json = PackageJson::from_json(json).unwrap();
    let expected = String::from("http://barnyrubble.tumblr.com/");
    match package_json.author.unwrap() {
        PackagePeople::Record(record) => {
            let author_url = record.url.unwrap();
            assert_eq!(
                author_url, expected,
                "expected author url: {} got: {}",
                expected, author_url
            );
        }
        PackagePeople::Literal(_) => {
            panic!("expected a auhor struct, got a string")
        }
    }
}

#[test]
fn test_config_with_bool_serialization() {
    let json = r#"
   {
    "name": "package-name",
    "private": true,
    "version": "1.0.0",
    "description": "Something for everyone",
    "author": {
      "name": "Barney Rubble",
      "email": "b@rubble.com",
      "url": "http://barnyrubble.tumblr.com/"
    },
    "config": {
      "foo": true
    },
    "license": "Apache-2.0",
    "workspaces": [
      "packages/*"
    ]
  }"#;
    let package_json = PackageJson::from_json(json).unwrap();
    let expected: bool = true;
    assert_eq!(
        package_json.config.unwrap().get("foo").unwrap(),
        &JsonValue::Bool(expected)
    );
}

#[test]
fn test_config_with_nested_serialization() {
    let json = r#"
   {
    "name": "package-name",
    "private": true,
    "version": "1.0.0",
    "description": "Something for everyone",
    "author": {
      "name": "Barney Rubble",
      "email": "b@rubble.com",
      "url": "http://barnyrubble.tumblr.com/"
    },
    "config": {
      "commitizen": {
        "path": "cz-conventional-changelog"
      }
    },
    "license": "Apache-2.0",
    "workspaces": [
      "packages/*"
    ]
  }"#;
    let package_json = PackageJson::from_json(json).unwrap();
    let expected: String = String::from("cz-conventional-changelog");
    assert_eq!(
        package_json
            .config
            .unwrap()
            .get("commitizen")
            .unwrap()
            .get("path")
            .unwrap(),
        &JsonValue::Text(expected)
    );
}

#[test]
fn test_scripts_serialization() {
    let json = r#"
    {
        "name": "my-project",
        "version": "1.0.0",
        "scripts": {
            "start": "node index.js",
            "test": "jest",
            "build": "webpack --mode production",
            "lint": "eslint ."
        }
    }"#;
    let package_json = PackageJson::from_json(json).unwrap();
    assert_eq!(package_json.scripts.get("start").unwrap(), "node index.js");
    assert_eq!(package_json.scripts.get("test").unwrap(), "jest");
    assert_eq!(
        package_json.scripts.get("build").unwrap(),
        "webpack --mode production"
    );
    assert_eq!(package_json.scripts.get("lint").unwrap(), "eslint .");
}

#[test]
fn test_dependencies_and_dev_dependencies() {
    let json = r#"
    {
        "name": "my-library",
        "version": "2.1.0",
        "dependencies": {
            "lodash": "^4.17.21",
            "axios": "^0.21.1"
        },
        "devDependencies": {
            "jest": "^27.0.6",
            "typescript": "^4.3.5"
        }
    }"#;
    let package_json = PackageJson::from_json(json).unwrap();
    assert_eq!(
        package_json
            .dependencies
            .as_ref()
            .unwrap()
            .get("lodash")
            .unwrap(),
        "^4.17.21"
    );
    assert_eq!(
        package_json
            .dependencies
            .as_ref()
            .unwrap()
            .get("axios")
            .unwrap(),
        "^0.21.1"
    );
    assert_eq!(
        package_json
            .dev_dependencies
            .as_ref()
            .unwrap()
            .get("jest")
            .unwrap(),
        "^27.0.6"
    );
    assert_eq!(
        package_json
            .dev_dependencies
            .as_ref()
            .unwrap()
            .get("typescript")
            .unwrap(),
        "^4.3.5"
    );
}

#[test]
fn test_engines_and_os() {
    let json = r#"
    {
        "name": "node-specific-package",
        "version": "1.2.3",
        "engines": {
            "node": ">=14.0.0",
            "npm": ">=6.0.0"
        },
        "os": ["darwin", "linux"]
    }"#;
    let package_json = PackageJson::from_json(json).unwrap();
    assert_eq!(
        package_json.engines.as_ref().unwrap().get("node").unwrap(),
        ">=14.0.0"
    );
    assert_eq!(
        package_json.engines.as_ref().unwrap().get("npm").unwrap(),
        ">=6.0.0"
    );
    assert_eq!(
        package_json.os.as_ref().unwrap(),
        &vec!["darwin".to_string(), "linux".to_string()]
    );
}

#[test]
fn test_bin_and_man() {
    let json = r#"
    {
        "name": "cli-tool",
        "version": "3.0.1",
        "bin": {
            "my-cli": "./bin/cli.js"
        },
        "man": [
            "./man/doc.1",
            "./man/doc.2"
        ]
    }"#;
    let package_json = PackageJson::from_json(json).unwrap();
    match &package_json.bin {
        Some(PackageBin::Record(bin_map)) => {
            assert_eq!(bin_map.get("my-cli").unwrap(), "./bin/cli.js");
        }
        _ => panic!("Expected bin to be a Record"),
    }
    match &package_json.man {
        Some(PackageMan::Slice(man_vec)) => {
            assert_eq!(
                man_vec,
                &vec!["./man/doc.1".to_string(), "./man/doc.2".to_string()]
            );
        }
        _ => panic!("Expected man to be a Slice"),
    }
}
