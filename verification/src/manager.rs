//! The owner of a located `package.json` path and of the descriptor in
//! memory.

use crate::error::{Failure, PackageJsonError};
use crate::fs::write_options::WriteOptions;
use crate::fs::{find_closest_by, find_closest_file, is_candidate, is_closest};
use crate::fs::{is_closest_on_disk, path_text};
use crate::schema::codec::{decode_text, encode_text};
use crate::schema::{default_descriptor, PackageJson, PackageJsonModel};
use std::path::PathBuf;
use vstd::prelude::*;

verus! {

/// The name of the file that is searched for, read and written.
pub const PACKAGE_JSON_FILENAME: &'static str = "package.json";

/// A manager for manipulating a `package.json` file.
///
/// It holds the path of the file, once it is known, and one descriptor.
/// It never touches the disk but to search for the file: the caller reads
/// the file and hands the text to `read_ref` or `read_mut`, and writes what
/// `write` and `write_to` hand out.
#[derive(Debug)]
pub struct PackageJsonManager {
    file_path: Option<PathBuf>,
    json: PackageJson,
}

/// A file to write: the whole of `contents` is to take the place of what
/// is at `path`.
#[derive(Debug, PartialEq)]
pub struct PendingWrite {
    pub path: PathBuf,
    pub contents: String,
}

/// What reading `contents` gives to a manager that knows `path`: nothing
/// without a path, else what the text stands for.
pub open spec fn read_outcome(path: Option<PathBuf>, contents: Seq<char>) -> Result<
    PackageJsonModel,
    Failure,
> {
    match path {
        Some(_) => decode_text(contents),
        None => Err(Failure::NotLocated),
    }
}

/// What a manager that knows `path` and holds `descriptor` hands out to be
/// written: the path and the compact text of the descriptor, and nothing
/// without a path.
pub open spec fn write_outcome(path: Option<PathBuf>, descriptor: PackageJsonModel) -> Result<
    (PathBuf, Seq<char>),
    Failure,
> {
    match path {
        Some(target) => match encode_text(descriptor, false) {
            Some(text) => Ok((target, text)),
            None => Err(Failure::Unwritable),
        },
        None => Err(Failure::NotLocated),
    }
}

/// A manager without a path has nothing to write to: it answers a request
/// to write with the error that no file is located.
pub proof fn lemma_write_requires_path(descriptor: PackageJsonModel)
    ensures
        write_outcome(None, descriptor) == Err::<(PathBuf, Seq<char>), Failure>(
            Failure::NotLocated,
        ),
{
}

impl PackageJsonManager {
    /// The path of the file, where one is known.
    pub closed spec fn path(&self) -> Option<PathBuf> {
        self.file_path
    }

    /// The descriptor in memory.
    pub closed spec fn descriptor(&self) -> PackageJson {
        self.json
    }

    /// Constructs a new `PackageJsonManager` that knows no path and holds
    /// the default descriptor.
    pub fn new() -> (r: Self)
        ensures
            r.path() is None,
            r.descriptor()@ == default_descriptor(),
    {
        PackageJsonManager { file_path: None, json: PackageJson::default() }
    }

    /// Constructs a new `PackageJsonManager` for the file at `path`, which
    /// need not exist. It holds the default descriptor.
    pub fn with_file_path(path: &PathBuf) -> (r: Self)
        ensures
            r.path() == Some(*path),
            r.descriptor()@ == default_descriptor(),
    {
        PackageJsonManager { file_path: Some(path.clone()), json: PackageJson::default() }
    }

    /// Searches `from` and the directories above it for the closest
    /// `package.json` file that `probe` accepts.
    ///
    /// Where one is found, its path is stored and returned, and the
    /// descriptor in memory is reset to the default one, so that what was
    /// not written is lost. Where none is found, nothing changes.
    pub fn locate_closest_by<F: Fn(&PathBuf) -> bool>(&mut self, from: &PathBuf, probe: F) -> (r:
        Option<PathBuf>)
        requires
            forall|path: &PathBuf| call_requires(probe, (path,)),
        ensures
            is_closest(probe, PACKAGE_JSON_FILENAME@, path_text(*from), r),
            match r {
                Some(found) => {
                    &&& final(self).path() == Some(found)
                    &&& final(self).descriptor()@ == default_descriptor()
                },
                None => {
                    &&& final(self).path() == old(self).path()
                    &&& final(self).descriptor() == old(self).descriptor()
                },
            },
    {
        match find_closest_by(PACKAGE_JSON_FILENAME, from, probe) {
            Some(found) => {
                self.file_path = Some(found.clone());
                self.json = PackageJson::default();
                Some(found)
            },
            None => None,
        }
    }

    /// Searches `from` and the directories above it for the closest
    /// `package.json` file on disk, as `find_closest_file` does.
    ///
    /// A path that is found is stored and returned, and the descriptor in
    /// memory is reset to the default one. Else nothing changes.
    pub fn locate_closest_from(&mut self, from: &PathBuf) -> (r: Option<PathBuf>)
        ensures
            is_closest_on_disk(PACKAGE_JSON_FILENAME@, path_text(*from), r),
            match r {
                Some(found) => {
                    &&& is_candidate(PACKAGE_JSON_FILENAME@, path_text(*from), path_text(found))
                    &&& final(self).path() == Some(found)
                    &&& final(self).descriptor()@ == default_descriptor()
                },
                None => {
                    &&& final(self).path() == old(self).path()
                    &&& final(self).descriptor() == old(self).descriptor()
                },
            },
    {
        match find_closest_file(PACKAGE_JSON_FILENAME, from) {
            Some(found) => {
                self.file_path = Some(found.clone());
                self.json = PackageJson::default();
                Some(found)
            },
            None => None,
        }
    }

    /// Sets the path of the file that is read and written. Whether the
    /// file exists is not looked at.
    pub fn set_file_path(&mut self, file_path: &PathBuf)
        ensures
            final(self).path() == Some(*file_path),
            final(self).descriptor() == old(self).descriptor(),
    {
        self.file_path = Some(file_path.clone());
    }

    /// The path of the file, where one is known.
    pub fn get_file_path(&mut self) -> (r: Option<&PathBuf>)
        ensures
            match r {
                Some(path) => old(self).path() == Some(*path),
                None => old(self).path() is None,
            },
            final(self).path() == old(self).path(),
            final(self).descriptor() == old(self).descriptor(),
    {
        self.file_path.as_ref()
    }

    /// Takes the path out of the manager, which knows none afterwards.
    pub fn take_file_path(&mut self) -> (r: Option<PathBuf>)
        ensures
            r == old(self).path(),
            final(self).path() is None,
            final(self).descriptor() == old(self).descriptor(),
    {
        self.file_path.take()
    }

    /// Takes in the text of the file. Without a path nothing is read; text
    /// that stands for no descriptor leaves the descriptor in memory as it
    /// is.
    fn read(&mut self, contents: &str) -> (r: Result<(), PackageJsonError>)
        ensures
            final(self).path() == old(self).path(),
            match r {
                Ok(_) => read_outcome(old(self).path(), contents@) == Ok::<
                    PackageJsonModel,
                    Failure,
                >(final(self).descriptor()@),
                Err(error) => {
                    &&& read_outcome(old(self).path(), contents@) == Err::<
                        PackageJsonModel,
                        Failure,
                    >(error@)
                    &&& final(self).descriptor() == old(self).descriptor()
                },
            },
    {
        if self.file_path.is_none() {
            return Err(PackageJsonError::NotLocated);
        }
        match PackageJson::from_json(contents) {
            Ok(json) => {
                self.json = json;
                Ok(())
            },
            Err(error) => Err(error),
        }
    }

    /// Reads the descriptor from `contents`, the text of the file at the
    /// known path, and returns a shared reference to it.
    ///
    /// Fails without a path, and where the text stands for no descriptor;
    /// the descriptor in memory is then left as it is. Else the descriptor
    /// in memory is replaced as a whole.
    pub fn read_ref(&mut self, contents: &str) -> (r: Result<&PackageJson, PackageJsonError>)
        ensures
            final(self).path() == old(self).path(),
            match r {
                Ok(json) => {
                    &&& read_outcome(old(self).path(), contents@) == Ok::<
                        PackageJsonModel,
                        Failure,
                    >(json@)
                    &&& final(self).descriptor() == *json
                },
                Err(error) => {
                    &&& read_outcome(old(self).path(), contents@) == Err::<
                        PackageJsonModel,
                        Failure,
                    >(error@)
                    &&& final(self).descriptor() == old(self).descriptor()
                },
            },
    {
        match self.read(contents) {
            Ok(_) => Ok(&self.json),
            Err(error) => Err(error),
        }
    }

    /// Reads the descriptor from `contents`, the text of the file at the
    /// known path, and returns an exclusive reference to it.
    ///
    /// Fails as `read_ref` does. What the caller writes through the
    /// reference is what the manager holds afterwards.
    pub fn read_mut(&mut self, contents: &str) -> (r: Result<&mut PackageJson, PackageJsonError>)
        ensures
            final(self).path() == old(self).path(),
            match r {
                Ok(json) => {
                    &&& read_outcome(old(self).path(), contents@) == Ok::<
                        PackageJsonModel,
                        Failure,
                    >(json@)
                    &&& final(self).descriptor() == *final(json)
                },
                Err(error) => {
                    &&& read_outcome(old(self).path(), contents@) == Err::<
                        PackageJsonModel,
                        Failure,
                    >(error@)
                    &&& final(self).descriptor() == old(self).descriptor()
                },
            },
    {
        match self.read(contents) {
            Ok(_) => Ok(&mut self.json),
            Err(error) => Err(error),
        }
    }

    /// Prepares the descriptor in memory to be written to the known path,
    /// as compact JSON. Fails without a path. The manager stays as it is.
    pub fn write(&mut self) -> (r: Result<PendingWrite, PackageJsonError>)
        ensures
            final(self).path() == old(self).path(),
            final(self).descriptor() == old(self).descriptor(),
            match r {
                Ok(pending) => write_outcome(old(self).path(), old(self).descriptor()@) == Ok::<
                    (PathBuf, Seq<char>),
                    Failure,
                >((pending.path, pending.contents@)),
                Err(error) => write_outcome(old(self).path(), old(self).descriptor()@) == Err::<
                    (PathBuf, Seq<char>),
                    Failure,
                >(error@),
            },
    {
        match &self.file_path {
            Some(path) => {
                let target = path.clone();
                self.write_to(&target)
            },
            None => Err(PackageJsonError::NotLocated),
        }
    }

    /// Prepares the descriptor in memory to be written to `file_path`, as
    /// compact JSON. The manager stays as it is.
    pub fn write_to(&mut self, file_path: &PathBuf) -> (r: Result<PendingWrite, PackageJsonError>)
        ensures
            final(self).path() == old(self).path(),
            final(self).descriptor() == old(self).descriptor(),
            match r {
                Ok(pending) => write_outcome(Some(*file_path), old(self).descriptor()@) == Ok::<
                    (PathBuf, Seq<char>),
                    Failure,
                >((pending.path, pending.contents@)),
                Err(error) => write_outcome(Some(*file_path), old(self).descriptor()@) == Err::<
                    (PathBuf, Seq<char>),
                    Failure,
                >(error@),
            },
    {
        match self.json.to_json(&WriteOptions::default()) {
            Ok(contents) => Ok(PendingWrite { path: file_path.clone(), contents }),
            Err(error) => Err(error),
        }
    }

    /// A shared reference to the descriptor in memory.
    pub fn as_ref(&self) -> (r: &PackageJson)
        ensures
            *r == self.descriptor(),
    {
        &self.json
    }

    /// An exclusive reference to the descriptor in memory. What the caller
    /// writes through it is what the manager holds afterwards.
    pub fn as_mut(&mut self) -> (r: &mut PackageJson)
        ensures
            *r == old(self).descriptor(),
            final(self).descriptor() == *final(r),
            final(self).path() == old(self).path(),
    {
        &mut self.json
    }
}

impl Default for PackageJsonManager {
    fn default() -> (r: Self)
        ensures
            r.path() is None,
            r.descriptor()@ == default_descriptor(),
    {
        PackageJsonManager::new()
    }
}

} // verus!
