//! Model, locate, read and write `package.json` files.
//!
//! A [`PackageJson`] holds what a `package.json` file says: the attributes
//! that npm documents, each in one of its JSON shapes, and every other
//! member of the file untouched. [`PackageJson::from_json`] reads one from
//! text and [`PackageJson::to_json`] writes it back; what was read is read
//! again from what is written.
//!
//! [`find_closest_file`] looks for a file in a directory and in the
//! directories above it. A [`PackageJsonManager`] ties the two together:
//! it holds the path of the closest `package.json` file and the descriptor
//! that was last read from it.
//!
//! The library itself opens no file. It asks the disk whether a candidate
//! is a file, takes the text of the file from its caller and hands the
//! caller the text to write.
//!
//! The modules, from the ground up:
//!
//! - [`text`] and [`ordered_map`]: keys and the maps that keep their order;
//! - [`json`]: JSON documents, with [`json::bridge`] to `serde_json`;
//! - [`shape`]: how a typed value is read from a document and written back;
//! - [`schema`]: the descriptor, its attributes and what holds of them;
//! - [`fs`]: the search for a file, and the options for writing one;
//! - [`manager`]: the manager;
//! - [`error`]: what can go wrong.

pub mod error;
pub mod fs;
pub mod json;
pub mod manager;
pub mod ordered_map;
pub mod schema;
pub mod shape;
pub mod text;

pub use crate::error::PackageJsonError;
pub use crate::fs::write_options::WriteOptions;
pub use crate::fs::{find_closest_by, find_closest_file};
pub use crate::json::JsonValue;
pub use crate::manager::{PackageJsonManager, PendingWrite, PACKAGE_JSON_FILENAME};
pub use crate::ordered_map::OrderedMap;
pub use crate::schema::{
    PackageBin, PackageBugs, PackageBugsRecord, PackageDependencies, PackageDirectories,
    PackageFunding, PackageFundingRecord, PackageJson, PackageMan, PackagePeople,
    PackagePeopleRecord, PackageRepository, PackageRepositoryRecord,
};
