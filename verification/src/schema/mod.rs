//! The fields of a `package.json` file.

pub mod attributes;
pub mod codec;
pub mod default;
pub mod ignore;
pub mod laws;
pub mod variants;

use crate::json::{JsonModel, JsonValue};
use crate::ordered_map::OrderedMap;
use vstd::prelude::*;

verus! {

/// A mapping of package names to version ranges.
pub type PackageDependencies = OrderedMap<String>;

/// Where issues are reported: a URL, or a URL and an e-mail address.
#[derive(Debug, PartialEq)]
pub enum PackageBugs {
    Url(String),
    Record(PackageBugsRecord),
}

/// The record form of [`PackageBugs`].
#[derive(Debug, PartialEq)]
pub struct PackageBugsRecord {
    pub url: String,
    pub email: String,
}

/// A person: a line of text, or a name with optional e-mail address and URL.
#[derive(Debug, PartialEq)]
pub enum PackagePeople {
    Literal(String),
    Record(PackagePeopleRecord),
}

/// The record form of [`PackagePeople`].
#[derive(Debug, PartialEq)]
pub struct PackagePeopleRecord {
    pub name: String,
    pub email: Option<String>,
    pub url: Option<String>,
}

/// Ways to fund the package: a URL, one record, or a list of records.
#[derive(Debug, PartialEq)]
pub enum PackageFunding {
    Url(String),
    Record(PackageFundingRecord),
    Slice(Vec<PackageFundingRecord>),
}

/// The record form of [`PackageFunding`]. `type_` is the member `type`.
#[derive(Debug, PartialEq)]
pub struct PackageFundingRecord {
    pub type_: String,
    pub url: String,
}

/// Executables: one path, or a mapping of command names to paths.
#[derive(Debug, PartialEq)]
pub enum PackageBin {
    Literal(String),
    Record(OrderedMap<String>),
}

/// Manual pages: one path, or a list of paths.
#[derive(Debug, PartialEq)]
pub enum PackageMan {
    Literal(String),
    Slice(Vec<String>),
}

/// Hints on where the package keeps its executables and manual pages.
#[derive(Debug, PartialEq)]
pub struct PackageDirectories {
    pub bin: Option<String>,
    pub man: Option<String>,
}

/// Where the code lives: a URL, or a record.
#[derive(Debug, PartialEq)]
pub enum PackageRepository {
    Url(String),
    Record(PackageRepositoryRecord),
}

/// The record form of [`PackageRepository`]. `type_` is the member `type`.
#[derive(Debug, PartialEq)]
pub struct PackageRepositoryRecord {
    pub type_: String,
    pub url: String,
    pub directory: Option<String>,
}

/// The contents of a `package.json` file.
///
/// An attribute that the file lacks is `None`, except `main`, `scripts`
/// and `type_` (the member `type`), which then hold their defaults, and
/// `private`, which is then `false`. `unknowns` holds, in the order of the
/// file, every member that is none of the attributes.
#[derive(Debug, PartialEq)]
pub struct PackageJson {
    pub name: String,
    pub version: String,
    pub description: Option<String>,
    pub keywords: Option<Vec<String>>,
    pub homepage: Option<String>,
    pub bugs: Option<PackageBugs>,
    pub license: Option<String>,
    pub author: Option<PackagePeople>,
    pub contributors: Option<Vec<PackagePeople>>,
    pub maintainers: Option<Vec<PackagePeople>>,
    pub funding: Option<PackageFunding>,
    pub files: Option<Vec<String>>,
    pub main: String,
    pub browser: Option<String>,
    pub bin: Option<PackageBin>,
    pub man: Option<PackageMan>,
    pub directories: Option<PackageDirectories>,
    pub repository: Option<PackageRepository>,
    pub scripts: OrderedMap<String>,
    pub config: Option<OrderedMap<JsonValue>>,
    pub dependencies: Option<PackageDependencies>,
    pub dev_dependencies: Option<PackageDependencies>,
    pub peer_dependencies: Option<PackageDependencies>,
    pub peer_dependencies_meta: Option<OrderedMap<OrderedMap<bool>>>,
    pub bundled_dependencies: Option<Vec<String>>,
    pub optional_dependencies: Option<PackageDependencies>,
    pub overrides: Option<OrderedMap<String>>,
    pub engines: Option<OrderedMap<String>>,
    pub os: Option<Vec<String>>,
    pub cpu: Option<Vec<String>>,
    pub private: bool,
    pub publish_config: Option<OrderedMap<String>>,
    pub workspaces: Option<Vec<String>>,
    pub type_: String,
    pub types: Option<String>,
    pub typings: Option<String>,
    pub unknowns: OrderedMap<JsonValue>,
}

/// The value of a [`PackageBugs`].
pub enum PackageBugsModel {
    Url(Seq<char>),
    Record(PackageBugsRecordModel),
}

/// The value of a [`PackageBugsRecord`].
pub struct PackageBugsRecordModel {
    pub url: Seq<char>,
    pub email: Seq<char>,
}

/// The value of a [`PackagePeople`].
pub enum PackagePeopleModel {
    Literal(Seq<char>),
    Record(PackagePeopleRecordModel),
}

/// The value of a [`PackagePeopleRecord`].
pub struct PackagePeopleRecordModel {
    pub name: Seq<char>,
    pub email: Option<Seq<char>>,
    pub url: Option<Seq<char>>,
}

/// The value of a [`PackageFunding`].
pub enum PackageFundingModel {
    Url(Seq<char>),
    Record(PackageFundingRecordModel),
    Slice(Seq<PackageFundingRecordModel>),
}

/// The value of a [`PackageFundingRecord`].
pub struct PackageFundingRecordModel {
    pub type_: Seq<char>,
    pub url: Seq<char>,
}

/// The value of a [`PackageBin`].
pub enum PackageBinModel {
    Literal(Seq<char>),
    Record(Seq<(Seq<char>, Seq<char>)>),
}

/// The value of a [`PackageMan`].
pub enum PackageManModel {
    Literal(Seq<char>),
    Slice(Seq<Seq<char>>),
}

/// The value of a [`PackageDirectories`].
pub struct PackageDirectoriesModel {
    pub bin: Option<Seq<char>>,
    pub man: Option<Seq<char>>,
}

/// The value of a [`PackageRepository`].
pub enum PackageRepositoryModel {
    Url(Seq<char>),
    Record(PackageRepositoryRecordModel),
}

/// The value of a [`PackageRepositoryRecord`].
pub struct PackageRepositoryRecordModel {
    pub type_: Seq<char>,
    pub url: Seq<char>,
    pub directory: Option<Seq<char>>,
}

/// The value of a [`PackageJson`].
pub struct PackageJsonModel {
    pub name: Seq<char>,
    pub version: Seq<char>,
    pub description: Option<Seq<char>>,
    pub keywords: Option<Seq<Seq<char>>>,
    pub homepage: Option<Seq<char>>,
    pub bugs: Option<PackageBugsModel>,
    pub license: Option<Seq<char>>,
    pub author: Option<PackagePeopleModel>,
    pub contributors: Option<Seq<PackagePeopleModel>>,
    pub maintainers: Option<Seq<PackagePeopleModel>>,
    pub funding: Option<PackageFundingModel>,
    pub files: Option<Seq<Seq<char>>>,
    pub main: Seq<char>,
    pub browser: Option<Seq<char>>,
    pub bin: Option<PackageBinModel>,
    pub man: Option<PackageManModel>,
    pub directories: Option<PackageDirectoriesModel>,
    pub repository: Option<PackageRepositoryModel>,
    pub scripts: Seq<(Seq<char>, Seq<char>)>,
    pub config: Option<Seq<(Seq<char>, JsonModel)>>,
    pub dependencies: Option<Seq<(Seq<char>, Seq<char>)>>,
    pub dev_dependencies: Option<Seq<(Seq<char>, Seq<char>)>>,
    pub peer_dependencies: Option<Seq<(Seq<char>, Seq<char>)>>,
    pub peer_dependencies_meta: Option<Seq<(Seq<char>, Seq<(Seq<char>, bool)>)>>,
    pub bundled_dependencies: Option<Seq<Seq<char>>>,
    pub optional_dependencies: Option<Seq<(Seq<char>, Seq<char>)>>,
    pub overrides: Option<Seq<(Seq<char>, Seq<char>)>>,
    pub engines: Option<Seq<(Seq<char>, Seq<char>)>>,
    pub os: Option<Seq<Seq<char>>>,
    pub cpu: Option<Seq<Seq<char>>>,
    pub private: bool,
    pub publish_config: Option<Seq<(Seq<char>, Seq<char>)>>,
    pub workspaces: Option<Seq<Seq<char>>>,
    pub type_: Seq<char>,
    pub types: Option<Seq<char>>,
    pub typings: Option<Seq<char>>,
    pub unknowns: Seq<(Seq<char>, JsonModel)>,
}

impl View for PackageBugsRecord {
    type V = PackageBugsRecordModel;

    open spec fn view(&self) -> PackageBugsRecordModel {
        PackageBugsRecordModel { url: self.url@, email: self.email@ }
    }
}

impl DeepView for PackageBugsRecord {
    type V = PackageBugsRecordModel;

    open spec fn deep_view(&self) -> PackageBugsRecordModel {
        self@
    }
}

impl View for PackageBugs {
    type V = PackageBugsModel;

    open spec fn view(&self) -> PackageBugsModel {
        match self {
            PackageBugs::Url(url) => PackageBugsModel::Url(url@),
            PackageBugs::Record(record) => PackageBugsModel::Record(record@),
        }
    }
}

impl DeepView for PackageBugs {
    type V = PackageBugsModel;

    open spec fn deep_view(&self) -> PackageBugsModel {
        self@
    }
}

impl View for PackagePeopleRecord {
    type V = PackagePeopleRecordModel;

    open spec fn view(&self) -> PackagePeopleRecordModel {
        PackagePeopleRecordModel {
            name: self.name@,
            email: self.email.deep_view(),
            url: self.url.deep_view(),
        }
    }
}

impl DeepView for PackagePeopleRecord {
    type V = PackagePeopleRecordModel;

    open spec fn deep_view(&self) -> PackagePeopleRecordModel {
        self@
    }
}

impl View for PackagePeople {
    type V = PackagePeopleModel;

    open spec fn view(&self) -> PackagePeopleModel {
        match self {
            PackagePeople::Literal(text) => PackagePeopleModel::Literal(text@),
            PackagePeople::Record(record) => PackagePeopleModel::Record(record@),
        }
    }
}

impl DeepView for PackagePeople {
    type V = PackagePeopleModel;

    open spec fn deep_view(&self) -> PackagePeopleModel {
        self@
    }
}

impl View for PackageFundingRecord {
    type V = PackageFundingRecordModel;

    open spec fn view(&self) -> PackageFundingRecordModel {
        PackageFundingRecordModel { type_: self.type_@, url: self.url@ }
    }
}

impl DeepView for PackageFundingRecord {
    type V = PackageFundingRecordModel;

    open spec fn deep_view(&self) -> PackageFundingRecordModel {
        self@
    }
}

impl View for PackageFunding {
    type V = PackageFundingModel;

    open spec fn view(&self) -> PackageFundingModel {
        match self {
            PackageFunding::Url(url) => PackageFundingModel::Url(url@),
            PackageFunding::Record(record) => PackageFundingModel::Record(record@),
            PackageFunding::Slice(records) => PackageFundingModel::Slice(records.deep_view()),
        }
    }
}

impl DeepView for PackageFunding {
    type V = PackageFundingModel;

    open spec fn deep_view(&self) -> PackageFundingModel {
        self@
    }
}

impl View for PackageBin {
    type V = PackageBinModel;

    open spec fn view(&self) -> PackageBinModel {
        match self {
            PackageBin::Literal(path) => PackageBinModel::Literal(path@),
            PackageBin::Record(commands) => PackageBinModel::Record(commands@),
        }
    }
}

impl DeepView for PackageBin {
    type V = PackageBinModel;

    open spec fn deep_view(&self) -> PackageBinModel {
        self@
    }
}

impl View for PackageMan {
    type V = PackageManModel;

    open spec fn view(&self) -> PackageManModel {
        match self {
            PackageMan::Literal(path) => PackageManModel::Literal(path@),
            PackageMan::Slice(paths) => PackageManModel::Slice(paths.deep_view()),
        }
    }
}

impl DeepView for PackageMan {
    type V = PackageManModel;

    open spec fn deep_view(&self) -> PackageManModel {
        self@
    }
}

impl View for PackageDirectories {
    type V = PackageDirectoriesModel;

    open spec fn view(&self) -> PackageDirectoriesModel {
        PackageDirectoriesModel { bin: self.bin.deep_view(), man: self.man.deep_view() }
    }
}

impl DeepView for PackageDirectories {
    type V = PackageDirectoriesModel;

    open spec fn deep_view(&self) -> PackageDirectoriesModel {
        self@
    }
}

impl View for PackageRepositoryRecord {
    type V = PackageRepositoryRecordModel;

    open spec fn view(&self) -> PackageRepositoryRecordModel {
        PackageRepositoryRecordModel {
            type_: self.type_@,
            url: self.url@,
            directory: self.directory.deep_view(),
        }
    }
}

impl DeepView for PackageRepositoryRecord {
    type V = PackageRepositoryRecordModel;

    open spec fn deep_view(&self) -> PackageRepositoryRecordModel {
        self@
    }
}

impl View for PackageRepository {
    type V = PackageRepositoryModel;

    open spec fn view(&self) -> PackageRepositoryModel {
        match self {
            PackageRepository::Url(url) => PackageRepositoryModel::Url(url@),
            PackageRepository::Record(record) => PackageRepositoryModel::Record(record@),
        }
    }
}

impl DeepView for PackageRepository {
    type V = PackageRepositoryModel;

    open spec fn deep_view(&self) -> PackageRepositoryModel {
        self@
    }
}

impl View for PackageJson {
    type V = PackageJsonModel;

    open spec fn view(&self) -> PackageJsonModel {
        PackageJsonModel {
            name: self.name@,
            version: self.version@,
            description: self.description.deep_view(),
            keywords: self.keywords.deep_view(),
            homepage: self.homepage.deep_view(),
            bugs: self.bugs.deep_view(),
            license: self.license.deep_view(),
            author: self.author.deep_view(),
            contributors: self.contributors.deep_view(),
            maintainers: self.maintainers.deep_view(),
            funding: self.funding.deep_view(),
            files: self.files.deep_view(),
            main: self.main@,
            browser: self.browser.deep_view(),
            bin: self.bin.deep_view(),
            man: self.man.deep_view(),
            directories: self.directories.deep_view(),
            repository: self.repository.deep_view(),
            scripts: self.scripts@,
            config: self.config.deep_view(),
            dependencies: self.dependencies.deep_view(),
            dev_dependencies: self.dev_dependencies.deep_view(),
            peer_dependencies: self.peer_dependencies.deep_view(),
            peer_dependencies_meta: self.peer_dependencies_meta.deep_view(),
            bundled_dependencies: self.bundled_dependencies.deep_view(),
            optional_dependencies: self.optional_dependencies.deep_view(),
            overrides: self.overrides.deep_view(),
            engines: self.engines.deep_view(),
            os: self.os.deep_view(),
            cpu: self.cpu.deep_view(),
            private: self.private,
            publish_config: self.publish_config.deep_view(),
            workspaces: self.workspaces.deep_view(),
            type_: self.type_@,
            types: self.types.deep_view(),
            typings: self.typings.deep_view(),
            unknowns: self.unknowns@,
        }
    }
}

impl DeepView for PackageJson {
    type V = PackageJsonModel;

    open spec fn deep_view(&self) -> PackageJsonModel {
        self@
    }
}

/// The descriptor of a package of which nothing is known: empty name and
/// version, the defaults, and everything else absent.
pub open spec fn default_descriptor() -> PackageJsonModel {
    PackageJsonModel {
        name: Seq::empty(),
        version: Seq::empty(),
        description: None,
        keywords: None,
        homepage: None,
        bugs: None,
        license: None,
        author: None,
        contributors: None,
        maintainers: None,
        funding: None,
        files: None,
        main: "index.js"@,
        browser: None,
        bin: None,
        man: None,
        directories: None,
        repository: None,
        scripts: Seq::<(Seq<char>, Seq<char>)>::empty(),
        config: None,
        dependencies: None,
        dev_dependencies: None,
        peer_dependencies: None,
        peer_dependencies_meta: None,
        bundled_dependencies: None,
        optional_dependencies: None,
        overrides: None,
        engines: None,
        os: None,
        cpu: None,
        private: false,
        publish_config: None,
        workspaces: None,
        type_: "commonjs"@,
        types: None,
        typings: None,
        unknowns: Seq::empty(),
    }
}

impl Default for PackageJson {
    fn default() -> (r: PackageJson)
        ensures
            r@ == default_descriptor(),
    {
        PackageJson {
            name: String::new(),
            version: String::new(),
            description: None,
            keywords: None,
            homepage: None,
            bugs: None,
            license: None,
            author: None,
            contributors: None,
            maintainers: None,
            funding: None,
            files: None,
            main: crate::schema::default::main(),
            browser: None,
            bin: None,
            man: None,
            directories: None,
            repository: None,
            scripts: crate::schema::default::scripts(),
            config: None,
            dependencies: None,
            dev_dependencies: None,
            peer_dependencies: None,
            peer_dependencies_meta: None,
            bundled_dependencies: None,
            optional_dependencies: None,
            overrides: None,
            engines: None,
            os: None,
            cpu: None,
            private: false,
            publish_config: None,
            workspaces: None,
            type_: crate::schema::default::type_(),
            types: None,
            typings: None,
            unknowns: OrderedMap::new(),
        }
    }
}

impl Default for PackageBugsRecord {
    fn default() -> (r: PackageBugsRecord)
        ensures
            r@ == (PackageBugsRecordModel { url: Seq::empty(), email: Seq::empty() }),
    {
        PackageBugsRecord { url: String::new(), email: String::new() }
    }
}

impl Default for PackagePeopleRecord {
    fn default() -> (r: PackagePeopleRecord)
        ensures
            r@ == (PackagePeopleRecordModel { name: Seq::empty(), email: None, url: None }),
    {
        PackagePeopleRecord { name: String::new(), email: None, url: None }
    }
}

impl Default for PackageFundingRecord {
    fn default() -> (r: PackageFundingRecord)
        ensures
            r@ == (PackageFundingRecordModel { type_: Seq::empty(), url: Seq::empty() }),
    {
        PackageFundingRecord { type_: String::new(), url: String::new() }
    }
}

impl Default for PackageDirectories {
    fn default() -> (r: PackageDirectories)
        ensures
            r@ == (PackageDirectoriesModel { bin: None, man: None }),
    {
        PackageDirectories { bin: None, man: None }
    }
}

impl Default for PackageRepositoryRecord {
    fn default() -> (r: PackageRepositoryRecord)
        ensures
            r@ == (PackageRepositoryRecordModel {
                type_: Seq::empty(),
                url: Seq::empty(),
                directory: None,
            }),
    {
        PackageRepositoryRecord { type_: String::new(), url: String::new(), directory: None }
    }
}

} // verus!
