//! Reading a [`PackageJson`] from a JSON document and writing it back.

use crate::error::{Failure, PackageJsonError};
use crate::fs::write_options::WriteOptions;
use crate::json::bridge::parsed;
use crate::json::{lemma_object_view, rendered, JsonModel, JsonValue, Members};
use crate::ordered_map::{find, lookup, OrderedMap};
use crate::schema::attributes::{
    attribute_index, attribute_json, attribute_name, attribute_name_at, attribute_ok,
    is_attribute, ATTRIBUTE_COUNT,
};
use crate::schema::ignore::ignore_scripts;
use crate::schema::{
    PackageBin, PackageBugs, PackageDirectories, PackageFunding, PackageJson, PackageJsonModel,
    PackageMan, PackagePeople, PackageRepository,
};
use crate::shape::{
    decode_defaulted, decode_optional, decode_required, defaulted_of, encode_optional,
    optional_of, required_of, JsonShape,
};
use vstd::prelude::*;

verus! {

/// The members written for the first `n` attributes of `d`, in their order.
pub open spec fn present_members(d: PackageJsonModel, n: int) -> Members
    decreases n,
{
    if n <= 0 {
        Seq::empty()
    } else {
        let before = present_members(d, n - 1);
        match attribute_json(d, n - 1) {
            Some(doc) => before.push((attribute_name(n - 1), doc)),
            None => before,
        }
    }
}

/// The members of the document written for `d`: the attributes that are
/// not left out, in their order, then the unknown members in theirs.
pub open spec fn encode_members(d: PackageJsonModel) -> Members {
    present_members(d, ATTRIBUTE_COUNT as int) + d.unknowns
}

/// The document written for `d`.
pub open spec fn encode_document(d: PackageJsonModel) -> JsonModel {
    JsonModel::Object(encode_members(d))
}

/// The text written for `d`, indented where `pretty` is set; nothing where
/// `serde_json` fails to write the document.
pub open spec fn encode_text(d: PackageJsonModel, pretty: bool) -> Option<Seq<char>> {
    rendered(encode_document(d), pretty)
}

/// The members of `e` that go by no name of an attribute, in their order.
pub open spec fn unknown_members(e: Members) -> Members
    decreases e.len(),
{
    if e.len() == 0 {
        e
    } else {
        let before = unknown_members(e.drop_last());
        if is_attribute(e.last().0) {
            before
        } else {
            before.push(e.last())
        }
    }
}

/// Whether none of the unknown members of `d` goes by the name of an
/// attribute. Every descriptor that is read from a document is so.
pub open spec fn unknowns_apart(d: PackageJsonModel) -> bool {
    forall|k: int| 0 <= k < d.unknowns.len() ==> !is_attribute(#[trigger] d.unknowns[k].0)
}

/// Whether the member that `e` holds for the `i`-th attribute is
/// acceptable.
pub open spec fn acceptable_at(e: Members, i: int) -> bool {
    attribute_ok(i, lookup(e, attribute_name(i)))
}

/// Whether the first `n` attributes are acceptable in `e`.
pub open spec fn acceptable_up_to(e: Members, n: int) -> bool {
    forall|i: int| 0 <= i < n ==> acceptable_at(e, i)
}

/// The index of the first attribute at or after `from` that is not
/// acceptable in `e`, or `ATTRIBUTE_COUNT` where there is none.
pub open spec fn first_bad(e: Members, from: int) -> int
    decreases ATTRIBUTE_COUNT - from,
{
    if from >= ATTRIBUTE_COUNT {
        ATTRIBUTE_COUNT as int
    } else if !acceptable_at(e, from) {
        from
    } else {
        first_bad(e, from + 1)
    }
}

/// The descriptor that the members `e` of a document stand for, where
/// every attribute is acceptable: each attribute is what its member stands
/// for, an attribute without member is absent or at its default, and the
/// members that go by no name of an attribute are the unknown ones.
pub open spec fn assemble(e: Members) -> PackageJsonModel {
    PackageJsonModel {
        name: required_of::<String>(lookup(e, "name"@)).unwrap(),
        version: required_of::<String>(lookup(e, "version"@)).unwrap(),
        description: optional_of::<String>(lookup(e, "description"@)).unwrap(),
        keywords: optional_of::<Vec<String>>(lookup(e, "keywords"@)).unwrap(),
        homepage: optional_of::<String>(lookup(e, "homepage"@)).unwrap(),
        bugs: optional_of::<PackageBugs>(lookup(e, "bugs"@)).unwrap(),
        license: optional_of::<String>(lookup(e, "license"@)).unwrap(),
        author: optional_of::<PackagePeople>(lookup(e, "author"@)).unwrap(),
        contributors: optional_of::<Vec<PackagePeople>>(lookup(e, "contributors"@)).unwrap(),
        maintainers: optional_of::<Vec<PackagePeople>>(lookup(e, "maintainers"@)).unwrap(),
        funding: optional_of::<PackageFunding>(lookup(e, "funding"@)).unwrap(),
        files: optional_of::<Vec<String>>(lookup(e, "files"@)).unwrap(),
        main: defaulted_of::<String>(lookup(e, "main"@), "index.js"@).unwrap(),
        browser: optional_of::<String>(lookup(e, "browser"@)).unwrap(),
        bin: optional_of::<PackageBin>(lookup(e, "bin"@)).unwrap(),
        man: optional_of::<PackageMan>(lookup(e, "man"@)).unwrap(),
        directories: optional_of::<PackageDirectories>(lookup(e, "directories"@)).unwrap(),
        repository: optional_of::<PackageRepository>(lookup(e, "repository"@)).unwrap(),
        scripts: defaulted_of::<OrderedMap<String>>(
            lookup(e, "scripts"@),
            Seq::<(Seq<char>, Seq<char>)>::empty(),
        ).unwrap(),
        config: optional_of::<OrderedMap<JsonValue>>(lookup(e, "config"@)).unwrap(),
        dependencies: optional_of::<OrderedMap<String>>(lookup(e, "dependencies"@)).unwrap(),
        dev_dependencies: optional_of::<OrderedMap<String>>(
            lookup(e, "devDependencies"@),
        ).unwrap(),
        peer_dependencies: optional_of::<OrderedMap<String>>(
            lookup(e, "peerDependencies"@),
        ).unwrap(),
        peer_dependencies_meta: optional_of::<OrderedMap<OrderedMap<bool>>>(
            lookup(e, "peerDependenciesMeta"@),
        ).unwrap(),
        bundled_dependencies: optional_of::<Vec<String>>(
            lookup(e, "bundledDependencies"@),
        ).unwrap(),
        optional_dependencies: optional_of::<OrderedMap<String>>(
            lookup(e, "optionalDependencies"@),
        ).unwrap(),
        overrides: optional_of::<OrderedMap<String>>(lookup(e, "overrides"@)).unwrap(),
        engines: optional_of::<OrderedMap<String>>(lookup(e, "engines"@)).unwrap(),
        os: optional_of::<Vec<String>>(lookup(e, "os"@)).unwrap(),
        cpu: optional_of::<Vec<String>>(lookup(e, "cpu"@)).unwrap(),
        private: defaulted_of::<bool>(lookup(e, "private"@), false).unwrap(),
        publish_config: optional_of::<OrderedMap<String>>(lookup(e, "publishConfig"@)).unwrap(),
        workspaces: optional_of::<Vec<String>>(lookup(e, "workspaces"@)).unwrap(),
        type_: defaulted_of::<String>(lookup(e, "type"@), "commonjs"@).unwrap(),
        types: optional_of::<String>(lookup(e, "types"@)).unwrap(),
        typings: optional_of::<String>(lookup(e, "typings"@)).unwrap(),
        unknowns: unknown_members(e),
    }
}

/// What the members `e` of a document stand for: a descriptor, or the
/// first attribute, in the order of the attributes, that is missing
/// though required or has another shape than its own.
pub open spec fn decode_members(e: Members) -> Result<PackageJsonModel, Failure> {
    let bad = first_bad(e, 0);
    if bad < ATTRIBUTE_COUNT {
        Err(Failure::Attribute(attribute_name(bad)))
    } else {
        Ok(assemble(e))
    }
}

/// What a document stands for. Only an object stands for a descriptor.
pub open spec fn decode_document(doc: JsonModel) -> Result<PackageJsonModel, Failure> {
    match doc {
        JsonModel::Object(e) => decode_members(e),
        _ => Err(Failure::NotAnObject),
    }
}

/// What a text stands for: what the document stands for that `serde_json`
/// reads from it.
pub open spec fn decode_text(text: Seq<char>) -> Result<PackageJsonModel, Failure> {
    match parsed(text) {
        Some(doc) => decode_document(doc),
        None => Err(Failure::Syntax),
    }
}

/// The first attribute that is not acceptable is the one before which all
/// are acceptable.
pub proof fn lemma_first_bad(e: Members, from: int, bad: int)
    requires
        0 <= from <= bad <= ATTRIBUTE_COUNT,
        forall|i: int| from <= i < bad ==> acceptable_at(e, i),
        bad < ATTRIBUTE_COUNT ==> !acceptable_at(e, bad),
    ensures
        first_bad(e, from) == bad,
    decreases bad - from,
{
    if from < bad {
        lemma_first_bad(e, from + 1, bad);
    }
}

/// The unknown members of a document go by no name of an attribute.
pub proof fn lemma_unknown_members_apart(e: Members)
    ensures
        forall|k: int|
            0 <= k < unknown_members(e).len() ==> !is_attribute(
                #[trigger] unknown_members(e)[k].0,
            ),
    decreases e.len(),
{
    if e.len() > 0 {
        lemma_unknown_members_apart(e.drop_last());
        let before = unknown_members(e.drop_last());
        let kept = unknown_members(e);
        assert forall|k: int| 0 <= k < kept.len() implies !is_attribute(#[trigger] kept[k].0) by {}
    }
}

/// Reads the attributes of a document one after the other, in their order.
struct Reader<'a> {
    members: &'a Vec<(String, JsonValue)>,
    next: usize,
}

impl<'a> Reader<'a> {
    /// The members that are read.
    spec fn source(&self) -> Members {
        self.members.deep_view()
    }

    /// Every attribute that was read was acceptable.
    spec fn valid(&self) -> bool {
        &&& self.next <= ATTRIBUTE_COUNT
        &&& acceptable_up_to(self.source(), self.next as int)
    }

    /// What has gone wrong where the attribute `i` is not acceptable.
    spec fn fails_at(&self, i: int, error: PackageJsonError) -> bool {
        &&& !acceptable_at(self.source(), i)
        &&& decode_members(self.source()) == Err::<PackageJsonModel, Failure>(error@)
    }

    fn new(members: &'a Vec<(String, JsonValue)>) -> (r: Self)
        ensures
            r.valid(),
            r.next == 0,
            r.source() == members.deep_view(),
    {
        Reader { members, next: 0 }
    }

    /// The error that names the attribute `i`.
    fn refuse(&self, i: usize) -> (r: PackageJsonError)
        requires
            self.valid(),
            self.next == i,
            i < ATTRIBUTE_COUNT,
            !acceptable_at(self.source(), i as int),
        ensures
            self.fails_at(i as int, r),
    {
        proof {
            lemma_first_bad(self.source(), 0, i as int);
        }
        PackageJsonError::Attribute(attribute_name_at(i).to_owned())
    }

    /// Reads the attribute `i`, which the document must hold.
    fn required<T: JsonShape>(&mut self, i: usize) -> (r: Result<T, PackageJsonError>)
        requires
            old(self).valid(),
            old(self).next == i,
            i < ATTRIBUTE_COUNT,
            forall|slot: Option<JsonModel>|
                attribute_ok(i as int, slot) == (#[trigger] required_of::<T>(slot) is Some),
        ensures
            final(self).source() == old(self).source(),
            match r {
                Ok(value) => {
                    &&& final(self).valid()
                    &&& final(self).next == i + 1
                    &&& required_of::<T>(lookup(old(self).source(), attribute_name(i as int)))
                        == Some(value.deep_view())
                },
                Err(error) => old(self).fails_at(i as int, error),
            },
    {
        match decode_required::<T>(find(self.members, attribute_name_at(i))) {
            Some(value) => {
                self.next = i + 1;
                Ok(value)
            },
            None => Err(self.refuse(i)),
        }
    }

    /// Reads the attribute `i`, which the document may lack.
    fn optional<T: JsonShape>(&mut self, i: usize) -> (r: Result<Option<T>, PackageJsonError>)
        requires
            old(self).valid(),
            old(self).next == i,
            i < ATTRIBUTE_COUNT,
            forall|slot: Option<JsonModel>|
                attribute_ok(i as int, slot) == (#[trigger] optional_of::<T>(slot) is Some),
        ensures
            final(self).source() == old(self).source(),
            match r {
                Ok(value) => {
                    &&& final(self).valid()
                    &&& final(self).next == i + 1
                    &&& optional_of::<T>(lookup(old(self).source(), attribute_name(i as int)))
                        == Some(value.deep_view())
                },
                Err(error) => old(self).fails_at(i as int, error),
            },
    {
        match decode_optional::<T>(find(self.members, attribute_name_at(i))) {
            Some(value) => {
                self.next = i + 1;
                Ok(value)
            },
            None => Err(self.refuse(i)),
        }
    }

    /// Reads the attribute `i`, in place of which `default` stands where
    /// the document lacks it.
    fn defaulted<T: JsonShape>(&mut self, i: usize, default: T) -> (r: Result<
        T,
        PackageJsonError,
    >)
        requires
            old(self).valid(),
            old(self).next == i,
            i < ATTRIBUTE_COUNT,
            forall|slot: Option<JsonModel>|
                attribute_ok(i as int, slot) == (#[trigger] defaulted_of::<T>(
                    slot,
                    default.deep_view(),
                ) is Some),
        ensures
            final(self).source() == old(self).source(),
            match r {
                Ok(value) => {
                    &&& final(self).valid()
                    &&& final(self).next == i + 1
                    &&& defaulted_of::<T>(
                        lookup(old(self).source(), attribute_name(i as int)),
                        default.deep_view(),
                    ) == Some(value.deep_view())
                },
                Err(error) => old(self).fails_at(i as int, error),
            },
    {
        match decode_defaulted::<T>(find(self.members, attribute_name_at(i)), default) {
            Some(value) => {
                self.next = i + 1;
                Ok(value)
            },
            None => Err(self.refuse(i)),
        }
    }
}

/// The members that go by no name of an attribute, copied in their order.
pub fn collect_unknowns(members: &Vec<(String, JsonValue)>) -> (r: OrderedMap<JsonValue>)
    ensures
        r@ == unknown_members(members.deep_view()),
{
    let ghost e = members.deep_view();
    let mut out: Vec<(String, JsonValue)> = Vec::new();
    let mut i: usize = 0;
    while i < members.len()
        invariant
            e == members.deep_view(),
            i <= members.len(),
            out.deep_view() == unknown_members(e.take(i as int)),
        decreases members.len() - i,
    {
        proof {
            assert(e.take(i + 1).drop_last() =~= e.take(i as int));
        }
        if attribute_index(members[i].0.as_str()).is_none() {
            out.push((members[i].0.clone(), members[i].1.duplicate()));
        }
        i += 1;
    }
    assert(e.take(members.len() as int) =~= e);
    OrderedMap { entries: out }
}

impl PackageJson {
    /// The document written for the `i`-th attribute, or `None` where the
    /// attribute is left out.
    fn attribute(&self, i: usize) -> (r: Option<JsonValue>)
        requires
            i < ATTRIBUTE_COUNT,
        ensures
            r.deep_view() == attribute_json(self@, i as int),
    {
        match i {
            0 => Some(self.name.encode()),
            1 => Some(self.version.encode()),
            2 => encode_optional(&self.description),
            3 => encode_optional(&self.keywords),
            4 => encode_optional(&self.homepage),
            5 => encode_optional(&self.bugs),
            6 => encode_optional(&self.license),
            7 => encode_optional(&self.author),
            8 => encode_optional(&self.contributors),
            9 => encode_optional(&self.maintainers),
            10 => encode_optional(&self.funding),
            11 => encode_optional(&self.files),
            12 => Some(self.main.encode()),
            13 => encode_optional(&self.browser),
            14 => encode_optional(&self.bin),
            15 => encode_optional(&self.man),
            16 => encode_optional(&self.directories),
            17 => encode_optional(&self.repository),
            18 => if ignore_scripts(&self.scripts) {
                None
            } else {
                Some(self.scripts.encode())
            },
            19 => encode_optional(&self.config),
            20 => encode_optional(&self.dependencies),
            21 => encode_optional(&self.dev_dependencies),
            22 => encode_optional(&self.peer_dependencies),
            23 => encode_optional(&self.peer_dependencies_meta),
            24 => encode_optional(&self.bundled_dependencies),
            25 => encode_optional(&self.optional_dependencies),
            26 => encode_optional(&self.overrides),
            27 => encode_optional(&self.engines),
            28 => encode_optional(&self.os),
            29 => encode_optional(&self.cpu),
            30 => Some(self.private.encode()),
            31 => encode_optional(&self.publish_config),
            32 => encode_optional(&self.workspaces),
            33 => Some(self.type_.encode()),
            34 => encode_optional(&self.types),
            _ => encode_optional(&self.typings),
        }
    }

    /// Reads a descriptor from a JSON document.
    ///
    /// The document must be an object that holds `name` and `version`, and
    /// each attribute that it holds must have the attribute's shape. The
    /// error names the first attribute, in the order of the attributes,
    /// of which this fails. The members that go by no name of an attribute
    /// are kept in `unknowns`, in their order.
    pub fn from_value(doc: &JsonValue) -> (r: Result<PackageJson, PackageJsonError>)
        ensures
            match r {
                Ok(d) => decode_document(doc@) == Ok::<PackageJsonModel, Failure>(d@)
                    && unknowns_apart(d@),
                Err(error) => decode_document(doc@) == Err::<PackageJsonModel, Failure>(error@),
            },
    {
        let members = match doc {
            JsonValue::Object(members) => members,
            _ => return Err(PackageJsonError::NotAnObject),
        };
        proof {
            lemma_object_view(*members);
        }
        let ghost e = members.deep_view();
        let mut reader = Reader::new(members);
        let name = match reader.required::<String>(0) {
            Ok(value) => value,
            Err(error) => return Err(error),
        };
        let version = match reader.required::<String>(1) {
            Ok(value) => value,
            Err(error) => return Err(error),
        };
        let description = match reader.optional::<String>(2) {
            Ok(value) => value,
            Err(error) => return Err(error),
        };
        let keywords = match reader.optional::<Vec<String>>(3) {
            Ok(value) => value,
            Err(error) => return Err(error),
        };
        let homepage = match reader.optional::<String>(4) {
            Ok(value) => value,
            Err(error) => return Err(error),
        };
        let bugs = match reader.optional::<PackageBugs>(5) {
            Ok(value) => value,
            Err(error) => return Err(error),
        };
        let license = match reader.optional::<String>(6) {
            Ok(value) => value,
            Err(error) => return Err(error),
        };
        let author = match reader.optional::<PackagePeople>(7) {
            Ok(value) => value,
            Err(error) => return Err(error),
        };
        let contributors = match reader.optional::<Vec<PackagePeople>>(8) {
            Ok(value) => value,
            Err(error) => return Err(error),
        };
        let maintainers = match reader.optional::<Vec<PackagePeople>>(9) {
            Ok(value) => value,
            Err(error) => return Err(error),
        };
        let funding = match reader.optional::<PackageFunding>(10) {
            Ok(value) => value,
            Err(error) => return Err(error),
        };
        let files = match reader.optional::<Vec<String>>(11) {
            Ok(value) => value,
            Err(error) => return Err(error),
        };
        let main = match reader.defaulted::<String>(12, crate::schema::default::main()) {
            Ok(value) => value,
            Err(error) => return Err(error),
        };
        let browser = match reader.optional::<String>(13) {
            Ok(value) => value,
            Err(error) => return Err(error),
        };
        let bin = match reader.optional::<PackageBin>(14) {
            Ok(value) => value,
            Err(error) => return Err(error),
        };
        let man = match reader.optional::<PackageMan>(15) {
            Ok(value) => value,
            Err(error) => return Err(error),
        };
        let directories = match reader.optional::<PackageDirectories>(16) {
            Ok(value) => value,
            Err(error) => return Err(error),
        };
        let repository = match reader.optional::<PackageRepository>(17) {
            Ok(value) => value,
            Err(error) => return Err(error),
        };
        let scripts = match reader.defaulted::<OrderedMap<String>>(
            18,
            crate::schema::default::scripts(),
        ) {
            Ok(value) => value,
            Err(error) => return Err(error),
        };
        let config = match reader.optional::<OrderedMap<JsonValue>>(19) {
            Ok(value) => value,
            Err(error) => return Err(error),
        };
        let dependencies = match reader.optional::<OrderedMap<String>>(20) {
            Ok(value) => value,
            Err(error) => return Err(error),
        };
        let dev_dependencies = match reader.optional::<OrderedMap<String>>(21) {
            Ok(value) => value,
            Err(error) => return Err(error),
        };
        let peer_dependencies = match reader.optional::<OrderedMap<String>>(22) {
            Ok(value) => value,
            Err(error) => return Err(error),
        };
        let peer_dependencies_meta = match reader.optional::<OrderedMap<OrderedMap<bool>>>(23) {
            Ok(value) => value,
            Err(error) => return Err(error),
        };
        let bundled_dependencies = match reader.optional::<Vec<String>>(24) {
            Ok(value) => value,
            Err(error) => return Err(error),
        };
        let optional_dependencies = match reader.optional::<OrderedMap<String>>(25) {
            Ok(value) => value,
            Err(error) => return Err(error),
        };
        let overrides = match reader.optional::<OrderedMap<String>>(26) {
            Ok(value) => value,
            Err(error) => return Err(error),
        };
        let engines = match reader.optional::<OrderedMap<String>>(27) {
            Ok(value) => value,
            Err(error) => return Err(error),
        };
        let os = match reader.optional::<Vec<String>>(28) {
            Ok(value) => value,
            Err(error) => return Err(error),
        };
        let cpu = match reader.optional::<Vec<String>>(29) {
            Ok(value) => value,
            Err(error) => return Err(error),
        };
        let private = match reader.defaulted::<bool>(30, false) {
            Ok(value) => value,
            Err(error) => return Err(error),
        };
        let publish_config = match reader.optional::<OrderedMap<String>>(31) {
            Ok(value) => value,
            Err(error) => return Err(error),
        };
        let workspaces = match reader.optional::<Vec<String>>(32) {
            Ok(value) => value,
            Err(error) => return Err(error),
        };
        let type_ = match reader.defaulted::<String>(33, crate::schema::default::type_()) {
            Ok(value) => value,
            Err(error) => return Err(error),
        };
        let types = match reader.optional::<String>(34) {
            Ok(value) => value,
            Err(error) => return Err(error),
        };
        let typings = match reader.optional::<String>(35) {
            Ok(value) => value,
            Err(error) => return Err(error),
        };
        let unknowns = collect_unknowns(members);
        proof {
            lemma_first_bad(e, 0, ATTRIBUTE_COUNT as int);
            lemma_unknown_members_apart(e);
        }
        Ok(
            PackageJson {
                name,
                version,
                description,
                keywords,
                homepage,
                bugs,
                license,
                author,
                contributors,
                maintainers,
                funding,
                files,
                main,
                browser,
                bin,
                man,
                directories,
                repository,
                scripts,
                config,
                dependencies,
                dev_dependencies,
                peer_dependencies,
                peer_dependencies_meta,
                bundled_dependencies,
                optional_dependencies,
                overrides,
                engines,
                os,
                cpu,
                private,
                publish_config,
                workspaces,
                type_,
                types,
                typings,
                unknowns,
            },
        )
    }

    /// Writes the descriptor as a JSON document: an object that holds the
    /// attributes in their order, without the absent ones and without
    /// `scripts` where it has no entry, and then the unknown members in
    /// theirs.
    pub fn to_value(&self) -> (r: JsonValue)
        ensures
            r@ == encode_document(self@),
    {
        let mut members: Vec<(String, JsonValue)> = Vec::new();
        let mut i: usize = 0;
        while i < ATTRIBUTE_COUNT
            invariant
                i <= ATTRIBUTE_COUNT,
                members.deep_view() == present_members(self@, i as int),
            decreases ATTRIBUTE_COUNT - i,
        {
            match self.attribute(i) {
                Some(doc) => {
                    members.push((attribute_name_at(i).to_owned(), doc));
                },
                None => {},
            }
            i += 1;
        }
        let ghost present = members.deep_view();
        let unknowns = &self.unknowns.entries;
        let mut k: usize = 0;
        while k < unknowns.len()
            invariant
                *unknowns == self.unknowns.entries,
                k <= unknowns.len(),
                present == present_members(self@, ATTRIBUTE_COUNT as int),
                members.deep_view() == present + self.unknowns@.take(k as int),
            decreases unknowns.len() - k,
        {
            let ghost before = members.deep_view();
            members.push((unknowns[k].0.clone(), unknowns[k].1.duplicate()));
            proof {
                assert(members.deep_view() =~= before.push(self.unknowns@[k as int]));
            }
            k += 1;
        }
        proof {
            assert(self.unknowns@.take(unknowns.len() as int) =~= self.unknowns@);
            lemma_object_view(members);
        }
        JsonValue::Object(members)
    }

    /// Reads a descriptor from the text of a `package.json` file.
    ///
    /// Fails where the text is not JSON, and where the JSON stands for no
    /// descriptor, as `from_value` says.
    pub fn from_json(text: &str) -> (r: Result<PackageJson, PackageJsonError>)
        ensures
            match r {
                Ok(d) => decode_text(text@) == Ok::<PackageJsonModel, Failure>(d@)
                    && unknowns_apart(d@),
                Err(error) => decode_text(text@) == Err::<PackageJsonModel, Failure>(error@),
            },
    {
        match JsonValue::parse(text) {
            Ok(doc) => PackageJson::from_value(&doc),
            Err(error) => Err(PackageJsonError::Syntax(error)),
        }
    }

    /// Writes the descriptor as the text of a `package.json` file, indented
    /// or on a single line as `options` says.
    pub fn to_json(&self, options: &WriteOptions) -> (r: Result<String, PackageJsonError>)
        ensures
            match r {
                Ok(text) => encode_text(self@, options.pretty) == Some(text@),
                Err(error) => encode_text(self@, options.pretty) is None && error@
                    == Failure::Unwritable,
            },
    {
        match self.to_value().render(options.pretty) {
            Ok(text) => Ok(text),
            Err(error) => Err(PackageJsonError::Unwritable(error)),
        }
    }
}

} // verus!
