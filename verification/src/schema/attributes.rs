//! The attributes of a `package.json` file: their names, their order and
//! their shapes.

use crate::json::{JsonModel, JsonValue};
use crate::ordered_map::OrderedMap;
use crate::schema::{
    PackageBin, PackageBugs, PackageDirectories, PackageFunding, PackageJsonModel, PackageMan,
    PackagePeople, PackageRepository,
};
use crate::shape::{defaulted_of, optional_json, optional_of, required_of, JsonShape};
use crate::text::same_text;
use vstd::prelude::*;

verus! {

/// The number of attributes.
pub const ATTRIBUTE_COUNT: usize = 36;

/// The name of the `i`-th attribute as a file spells it. The attributes
/// are counted from 0, in the order in which they are written.
pub open spec fn attribute_name(i: int) -> Seq<char> {
    if i == 0 {
        "name"@
    } else if i == 1 {
        "version"@
    } else if i == 2 {
        "description"@
    } else if i == 3 {
        "keywords"@
    } else if i == 4 {
        "homepage"@
    } else if i == 5 {
        "bugs"@
    } else if i == 6 {
        "license"@
    } else if i == 7 {
        "author"@
    } else if i == 8 {
        "contributors"@
    } else if i == 9 {
        "maintainers"@
    } else if i == 10 {
        "funding"@
    } else if i == 11 {
        "files"@
    } else if i == 12 {
        "main"@
    } else if i == 13 {
        "browser"@
    } else if i == 14 {
        "bin"@
    } else if i == 15 {
        "man"@
    } else if i == 16 {
        "directories"@
    } else if i == 17 {
        "repository"@
    } else if i == 18 {
        "scripts"@
    } else if i == 19 {
        "config"@
    } else if i == 20 {
        "dependencies"@
    } else if i == 21 {
        "devDependencies"@
    } else if i == 22 {
        "peerDependencies"@
    } else if i == 23 {
        "peerDependenciesMeta"@
    } else if i == 24 {
        "bundledDependencies"@
    } else if i == 25 {
        "optionalDependencies"@
    } else if i == 26 {
        "overrides"@
    } else if i == 27 {
        "engines"@
    } else if i == 28 {
        "os"@
    } else if i == 29 {
        "cpu"@
    } else if i == 30 {
        "private"@
    } else if i == 31 {
        "publishConfig"@
    } else if i == 32 {
        "workspaces"@
    } else if i == 33 {
        "type"@
    } else if i == 34 {
        "types"@
    } else {
        "typings"@
    }
}

/// Whether `key` is the name of an attribute.
pub open spec fn is_attribute(key: Seq<char>) -> bool {
    exists|i: int| 0 <= i < ATTRIBUTE_COUNT && attribute_name(i) == key
}

/// Whether `slot`, the member that a document holds under the name of the
/// `i`-th attribute, is acceptable: there where the attribute is required,
/// and of the attribute's shape.
pub open spec fn attribute_ok(i: int, slot: Option<JsonModel>) -> bool {
    if i == 0 {
        required_of::<String>(slot) is Some
    } else if i == 1 {
        required_of::<String>(slot) is Some
    } else if i == 2 {
        optional_of::<String>(slot) is Some
    } else if i == 3 {
        optional_of::<Vec<String>>(slot) is Some
    } else if i == 4 {
        optional_of::<String>(slot) is Some
    } else if i == 5 {
        optional_of::<PackageBugs>(slot) is Some
    } else if i == 6 {
        optional_of::<String>(slot) is Some
    } else if i == 7 {
        optional_of::<PackagePeople>(slot) is Some
    } else if i == 8 {
        optional_of::<Vec<PackagePeople>>(slot) is Some
    } else if i == 9 {
        optional_of::<Vec<PackagePeople>>(slot) is Some
    } else if i == 10 {
        optional_of::<PackageFunding>(slot) is Some
    } else if i == 11 {
        optional_of::<Vec<String>>(slot) is Some
    } else if i == 12 {
        defaulted_of::<String>(slot, "index.js"@) is Some
    } else if i == 13 {
        optional_of::<String>(slot) is Some
    } else if i == 14 {
        optional_of::<PackageBin>(slot) is Some
    } else if i == 15 {
        optional_of::<PackageMan>(slot) is Some
    } else if i == 16 {
        optional_of::<PackageDirectories>(slot) is Some
    } else if i == 17 {
        optional_of::<PackageRepository>(slot) is Some
    } else if i == 18 {
        defaulted_of::<OrderedMap<String>>(
            slot,
            Seq::<(Seq<char>, Seq<char>)>::empty(),
        ) is Some
    } else if i == 19 {
        optional_of::<OrderedMap<JsonValue>>(slot) is Some
    } else if i == 20 {
        optional_of::<OrderedMap<String>>(slot) is Some
    } else if i == 21 {
        optional_of::<OrderedMap<String>>(slot) is Some
    } else if i == 22 {
        optional_of::<OrderedMap<String>>(slot) is Some
    } else if i == 23 {
        optional_of::<OrderedMap<OrderedMap<bool>>>(slot) is Some
    } else if i == 24 {
        optional_of::<Vec<String>>(slot) is Some
    } else if i == 25 {
        optional_of::<OrderedMap<String>>(slot) is Some
    } else if i == 26 {
        optional_of::<OrderedMap<String>>(slot) is Some
    } else if i == 27 {
        optional_of::<OrderedMap<String>>(slot) is Some
    } else if i == 28 {
        optional_of::<Vec<String>>(slot) is Some
    } else if i == 29 {
        optional_of::<Vec<String>>(slot) is Some
    } else if i == 30 {
        defaulted_of::<bool>(slot, false) is Some
    } else if i == 31 {
        optional_of::<OrderedMap<String>>(slot) is Some
    } else if i == 32 {
        optional_of::<Vec<String>>(slot) is Some
    } else if i == 33 {
        defaulted_of::<String>(slot, "commonjs"@) is Some
    } else if i == 34 {
        optional_of::<String>(slot) is Some
    } else if i == 35 {
        optional_of::<String>(slot) is Some
    } else {
        true
    }
}

/// The document written for the `i`-th attribute of `d`, or nothing where
/// the attribute is left out: an absent one, and `scripts` without entry.
pub open spec fn attribute_json(d: PackageJsonModel, i: int) -> Option<JsonModel> {
    if i == 0 {
        Some(String::json(d.name))
    } else if i == 1 {
        Some(String::json(d.version))
    } else if i == 2 {
        optional_json::<String>(d.description)
    } else if i == 3 {
        optional_json::<Vec<String>>(d.keywords)
    } else if i == 4 {
        optional_json::<String>(d.homepage)
    } else if i == 5 {
        optional_json::<PackageBugs>(d.bugs)
    } else if i == 6 {
        optional_json::<String>(d.license)
    } else if i == 7 {
        optional_json::<PackagePeople>(d.author)
    } else if i == 8 {
        optional_json::<Vec<PackagePeople>>(d.contributors)
    } else if i == 9 {
        optional_json::<Vec<PackagePeople>>(d.maintainers)
    } else if i == 10 {
        optional_json::<PackageFunding>(d.funding)
    } else if i == 11 {
        optional_json::<Vec<String>>(d.files)
    } else if i == 12 {
        Some(String::json(d.main))
    } else if i == 13 {
        optional_json::<String>(d.browser)
    } else if i == 14 {
        optional_json::<PackageBin>(d.bin)
    } else if i == 15 {
        optional_json::<PackageMan>(d.man)
    } else if i == 16 {
        optional_json::<PackageDirectories>(d.directories)
    } else if i == 17 {
        optional_json::<PackageRepository>(d.repository)
    } else if i == 18 {
        if d.scripts.len() == 0 {
            None
        } else {
            Some(OrderedMap::<String>::json(d.scripts))
        }
    } else if i == 19 {
        optional_json::<OrderedMap<JsonValue>>(d.config)
    } else if i == 20 {
        optional_json::<OrderedMap<String>>(d.dependencies)
    } else if i == 21 {
        optional_json::<OrderedMap<String>>(d.dev_dependencies)
    } else if i == 22 {
        optional_json::<OrderedMap<String>>(d.peer_dependencies)
    } else if i == 23 {
        optional_json::<OrderedMap<OrderedMap<bool>>>(d.peer_dependencies_meta)
    } else if i == 24 {
        optional_json::<Vec<String>>(d.bundled_dependencies)
    } else if i == 25 {
        optional_json::<OrderedMap<String>>(d.optional_dependencies)
    } else if i == 26 {
        optional_json::<OrderedMap<String>>(d.overrides)
    } else if i == 27 {
        optional_json::<OrderedMap<String>>(d.engines)
    } else if i == 28 {
        optional_json::<Vec<String>>(d.os)
    } else if i == 29 {
        optional_json::<Vec<String>>(d.cpu)
    } else if i == 30 {
        Some(bool::json(d.private))
    } else if i == 31 {
        optional_json::<OrderedMap<String>>(d.publish_config)
    } else if i == 32 {
        optional_json::<Vec<String>>(d.workspaces)
    } else if i == 33 {
        Some(String::json(d.type_))
    } else if i == 34 {
        optional_json::<String>(d.types)
    } else if i == 35 {
        optional_json::<String>(d.typings)
    } else {
        None
    }
}

/// What tells the names of the attributes apart: the length and the first
/// two characters.
pub open spec fn mark(name: Seq<char>) -> (nat, char, char) {
    (name.len(), name[0], name[1])
}

/// No two attributes have the same name.
pub proof fn lemma_attribute_names_distinct()
    ensures
        forall|i: int, j: int|
            0 <= i < j < ATTRIBUTE_COUNT ==> attribute_name(i) != attribute_name(j),
{
    reveal_strlit("name");
    reveal_strlit("version");
    reveal_strlit("description");
    reveal_strlit("keywords");
    reveal_strlit("homepage");
    reveal_strlit("bugs");
    reveal_strlit("license");
    reveal_strlit("author");
    reveal_strlit("contributors");
    reveal_strlit("maintainers");
    reveal_strlit("funding");
    reveal_strlit("files");
    reveal_strlit("main");
    reveal_strlit("browser");
    reveal_strlit("bin");
    reveal_strlit("man");
    reveal_strlit("directories");
    reveal_strlit("repository");
    reveal_strlit("scripts");
    reveal_strlit("config");
    reveal_strlit("dependencies");
    reveal_strlit("devDependencies");
    reveal_strlit("peerDependencies");
    reveal_strlit("peerDependenciesMeta");
    reveal_strlit("bundledDependencies");
    reveal_strlit("optionalDependencies");
    reveal_strlit("overrides");
    reveal_strlit("engines");
    reveal_strlit("os");
    reveal_strlit("cpu");
    reveal_strlit("private");
    reveal_strlit("publishConfig");
    reveal_strlit("workspaces");
    reveal_strlit("type");
    reveal_strlit("types");
    reveal_strlit("typings");
    assert(mark("name"@) == (4nat, 'n', 'a'));
    assert(mark("version"@) == (7nat, 'v', 'e'));
    assert(mark("description"@) == (11nat, 'd', 'e'));
    assert(mark("keywords"@) == (8nat, 'k', 'e'));
    assert(mark("homepage"@) == (8nat, 'h', 'o'));
    assert(mark("bugs"@) == (4nat, 'b', 'u'));
    assert(mark("license"@) == (7nat, 'l', 'i'));
    assert(mark("author"@) == (6nat, 'a', 'u'));
    assert(mark("contributors"@) == (12nat, 'c', 'o'));
    assert(mark("maintainers"@) == (11nat, 'm', 'a'));
    assert(mark("funding"@) == (7nat, 'f', 'u'));
    assert(mark("files"@) == (5nat, 'f', 'i'));
    assert(mark("main"@) == (4nat, 'm', 'a'));
    assert(mark("browser"@) == (7nat, 'b', 'r'));
    assert(mark("bin"@) == (3nat, 'b', 'i'));
    assert(mark("man"@) == (3nat, 'm', 'a'));
    assert(mark("directories"@) == (11nat, 'd', 'i'));
    assert(mark("repository"@) == (10nat, 'r', 'e'));
    assert(mark("scripts"@) == (7nat, 's', 'c'));
    assert(mark("config"@) == (6nat, 'c', 'o'));
    assert(mark("dependencies"@) == (12nat, 'd', 'e'));
    assert(mark("devDependencies"@) == (15nat, 'd', 'e'));
    assert(mark("peerDependencies"@) == (16nat, 'p', 'e'));
    assert(mark("peerDependenciesMeta"@) == (20nat, 'p', 'e'));
    assert(mark("bundledDependencies"@) == (19nat, 'b', 'u'));
    assert(mark("optionalDependencies"@) == (20nat, 'o', 'p'));
    assert(mark("overrides"@) == (9nat, 'o', 'v'));
    assert(mark("engines"@) == (7nat, 'e', 'n'));
    assert(mark("os"@) == (2nat, 'o', 's'));
    assert(mark("cpu"@) == (3nat, 'c', 'p'));
    assert(mark("private"@) == (7nat, 'p', 'r'));
    assert(mark("publishConfig"@) == (13nat, 'p', 'u'));
    assert(mark("workspaces"@) == (10nat, 'w', 'o'));
    assert(mark("type"@) == (4nat, 't', 'y'));
    assert(mark("types"@) == (5nat, 't', 'y'));
    assert(mark("typings"@) == (7nat, 't', 'y'));
}

/// The name of the `i`-th attribute.
pub(crate) fn attribute_name_at(i: usize) -> (r: &'static str)
    requires
        i < ATTRIBUTE_COUNT,
    ensures
        r@ == attribute_name(i as int),
{
    match i {
        0 => "name",
        1 => "version",
        2 => "description",
        3 => "keywords",
        4 => "homepage",
        5 => "bugs",
        6 => "license",
        7 => "author",
        8 => "contributors",
        9 => "maintainers",
        10 => "funding",
        11 => "files",
        12 => "main",
        13 => "browser",
        14 => "bin",
        15 => "man",
        16 => "directories",
        17 => "repository",
        18 => "scripts",
        19 => "config",
        20 => "dependencies",
        21 => "devDependencies",
        22 => "peerDependencies",
        23 => "peerDependenciesMeta",
        24 => "bundledDependencies",
        25 => "optionalDependencies",
        26 => "overrides",
        27 => "engines",
        28 => "os",
        29 => "cpu",
        30 => "private",
        31 => "publishConfig",
        32 => "workspaces",
        33 => "type",
        34 => "types",
        _ => "typings",
    }
}

/// The index of the attribute named `key`, or `None` where `key` names no
/// attribute.
pub fn attribute_index(key: &str) -> (r: Option<usize>)
    ensures
        match r {
            Some(i) => i < ATTRIBUTE_COUNT && attribute_name(i as int) == key@,
            None => !is_attribute(key@),
        },
{
    let mut i: usize = 0;
    while i < ATTRIBUTE_COUNT
        invariant
            i <= ATTRIBUTE_COUNT,
            forall|j: int| 0 <= j < i ==> attribute_name(j) != key@,
        decreases ATTRIBUTE_COUNT - i,
    {
        if same_text(attribute_name_at(i), key) {
            return Some(i);
        }
        i += 1;
    }
    None
}

} // verus!
