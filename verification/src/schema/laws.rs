//! What holds of reading and writing descriptors.

use crate::error::Failure;
use crate::json::bridge::parsed;
use crate::json::{JsonModel, JsonValue, Members};
use crate::ordered_map::{
    lemma_lookup_absent, lemma_lookup_at, lemma_lookup_concat, lookup, OrderedMap,
};
use crate::schema::attributes::{
    attribute_json, attribute_name, is_attribute, lemma_attribute_names_distinct,
    ATTRIBUTE_COUNT,
};
use crate::schema::codec::{
    acceptable_at, assemble, decode_document, decode_text, encode_document, encode_members,
    encode_text, lemma_first_bad, lemma_unknown_members_apart, present_members, unknown_members,
    unknowns_apart,
};
use crate::schema::{
    default_descriptor, PackageBin, PackageBinModel, PackageBugs, PackageBugsModel,
    PackageBugsRecord, PackageDirectories, PackageFunding, PackageFundingModel,
    PackageFundingRecord, PackageJsonModel, PackageMan, PackageManModel, PackagePeople,
    PackagePeopleModel, PackagePeopleRecord, PackageRepository, PackageRepositoryModel,
    PackageRepositoryRecord,
};
use crate::shape::{lemma_optional_round_trip, JsonShape};
use vstd::prelude::*;

verus! {

/// Among the members written for the first `n` attributes, the name of an
/// attribute finds what was written for it, and nothing where the
/// attribute was left out or is not among the first `n`.
pub proof fn lemma_present_lookup(d: PackageJsonModel, n: int, i: int)
    requires
        0 <= n <= ATTRIBUTE_COUNT,
        0 <= i < ATTRIBUTE_COUNT,
    ensures
        lookup(present_members(d, n), attribute_name(i)) == if i < n {
            attribute_json(d, i)
        } else {
            None
        },
    decreases n,
{
    let key = attribute_name(i);
    if n == 0 {
        lemma_lookup_absent(present_members(d, 0), key);
    } else {
        let before = present_members(d, n - 1);
        lemma_present_lookup(d, n - 1, i);
        lemma_attribute_names_distinct();
        match attribute_json(d, n - 1) {
            Some(doc) => {
                let last = seq![(attribute_name(n - 1), doc)];
                assert(present_members(d, n) =~= before + last);
                lemma_lookup_concat(before, last, key);
                if i == n - 1 {
                    lemma_lookup_at(last, key, 0);
                } else {
                    lemma_lookup_absent(last, key);
                }
            },
            None => {},
        }
    }
}

/// Every member written for an attribute goes by the name of an attribute.
pub proof fn lemma_present_names(d: PackageJsonModel, n: int)
    requires
        0 <= n <= ATTRIBUTE_COUNT,
    ensures
        forall|k: int|
            0 <= k < present_members(d, n).len() ==> is_attribute(
                #[trigger] present_members(d, n)[k].0,
            ),
    decreases n,
{
    if n > 0 {
        lemma_present_names(d, n - 1);
        let before = present_members(d, n - 1);
        let members = present_members(d, n);
        assert forall|k: int| 0 <= k < members.len() implies is_attribute(
            #[trigger] members[k].0,
        ) by {}
    }
}

/// Of members that all go by names of attributes, none is unknown.
pub proof fn lemma_unknown_members_none(e: Members)
    requires
        forall|k: int| 0 <= k < e.len() ==> is_attribute(#[trigger] e[k].0),
    ensures
        unknown_members(e) == Seq::<(Seq<char>, JsonModel)>::empty(),
    decreases e.len(),
{
    if e.len() > 0 {
        lemma_unknown_members_none(e.drop_last());
    }
}

/// Members that go by no name of an attribute stay as they are, behind
/// what the members before them leave.
pub proof fn lemma_unknown_members_concat(front: Members, back: Members)
    requires
        forall|k: int| 0 <= k < back.len() ==> !is_attribute(#[trigger] back[k].0),
    ensures
        unknown_members(front + back) == unknown_members(front) + back,
    decreases back.len(),
{
    if back.len() != 0 {
        let all = front + back;
        assert(all.drop_last() =~= front + back.drop_last());
        lemma_unknown_members_concat(front, back.drop_last());
        assert(unknown_members(front + back.drop_last()).push(back.last()) =~= unknown_members(
            front,
        ) + back);
    }
}

/// In the document written for `d`, the name of an attribute finds exactly
/// what was written for that attribute.
pub proof fn lemma_encoded_lookup(d: PackageJsonModel, i: int)
    requires
        unknowns_apart(d),
        0 <= i < ATTRIBUTE_COUNT,
    ensures
        lookup(encode_members(d), attribute_name(i)) == attribute_json(d, i),
{
    let present = present_members(d, ATTRIBUTE_COUNT as int);
    lemma_present_lookup(d, ATTRIBUTE_COUNT as int, i);
    lemma_lookup_concat(present, d.unknowns, attribute_name(i));
    assert forall|k: int| 0 <= k < d.unknowns.len() implies (#[trigger] d.unknowns[k]).0
        != attribute_name(i) by {}
    lemma_lookup_absent(d.unknowns, attribute_name(i));
}

/// Unknown members are preserved: the document written for `d` ends with
/// them, each with its key and value and in their order, and they are
/// what a reader of that document finds as its unknown members.
pub proof fn lemma_unknowns_survive(d: PackageJsonModel)
    requires
        unknowns_apart(d),
    ensures
        unknown_members(encode_members(d)) == d.unknowns,
        encode_members(d).skip(encode_members(d).len() - d.unknowns.len()) == d.unknowns,
{
    let present = present_members(d, ATTRIBUTE_COUNT as int);
    lemma_present_names(d, ATTRIBUTE_COUNT as int);
    lemma_unknown_members_none(present);
    lemma_unknown_members_concat(present, d.unknowns);
}

/// Unknown members are preserved from reading to writing: where a document
/// stands for a descriptor, the members of the document that go by no name
/// of an attribute are the unknown members of the descriptor, and the
/// document written for the descriptor ends with them, each with its key
/// and value and in their order.
pub proof fn lemma_unknowns_of_decoded(doc: JsonModel, d: PackageJsonModel)
    requires
        decode_document(doc) == Ok::<PackageJsonModel, Failure>(d),
    ensures
        doc is Object,
        d.unknowns == unknown_members(doc->Object_0),
        encode_members(d).skip(encode_members(d).len() - d.unknowns.len()) == d.unknowns,
{
    lemma_unknown_members_apart(doc->Object_0);
    lemma_unknowns_survive(d);
}

/// Round trip: reading the document that is written for a descriptor
/// gives the descriptor back, attribute by attribute and unknown member by
/// unknown member, provided that none of its unknown members goes by the
/// name of an attribute.
pub proof fn lemma_round_trip(d: PackageJsonModel)
    requires
        unknowns_apart(d),
    ensures
        decode_document(encode_document(d)) == Ok::<PackageJsonModel, Failure>(d),
{
    let e = encode_members(d);
    lemma_unknowns_survive(d);
    lemma_encoded_lookup(d, 0);
    String::lemma_round_trip(d.name);
    assert(acceptable_at(e, 0) && assemble(e).name == d.name);
    lemma_encoded_lookup(d, 1);
    String::lemma_round_trip(d.version);
    assert(acceptable_at(e, 1) && assemble(e).version == d.version);
    lemma_encoded_lookup(d, 2);
    lemma_optional_round_trip::<String>(d.description);
    assert(acceptable_at(e, 2) && assemble(e).description == d.description);
    lemma_encoded_lookup(d, 3);
    lemma_optional_round_trip::<Vec<String>>(d.keywords);
    assert(acceptable_at(e, 3) && assemble(e).keywords == d.keywords);
    lemma_encoded_lookup(d, 4);
    lemma_optional_round_trip::<String>(d.homepage);
    assert(acceptable_at(e, 4) && assemble(e).homepage == d.homepage);
    lemma_encoded_lookup(d, 5);
    lemma_optional_round_trip::<PackageBugs>(d.bugs);
    assert(acceptable_at(e, 5) && assemble(e).bugs == d.bugs);
    lemma_encoded_lookup(d, 6);
    lemma_optional_round_trip::<String>(d.license);
    assert(acceptable_at(e, 6) && assemble(e).license == d.license);
    lemma_encoded_lookup(d, 7);
    lemma_optional_round_trip::<PackagePeople>(d.author);
    assert(acceptable_at(e, 7) && assemble(e).author == d.author);
    lemma_encoded_lookup(d, 8);
    lemma_optional_round_trip::<Vec<PackagePeople>>(d.contributors);
    assert(acceptable_at(e, 8) && assemble(e).contributors == d.contributors);
    lemma_encoded_lookup(d, 9);
    lemma_optional_round_trip::<Vec<PackagePeople>>(d.maintainers);
    assert(acceptable_at(e, 9) && assemble(e).maintainers == d.maintainers);
    lemma_encoded_lookup(d, 10);
    lemma_optional_round_trip::<PackageFunding>(d.funding);
    assert(acceptable_at(e, 10) && assemble(e).funding == d.funding);
    lemma_encoded_lookup(d, 11);
    lemma_optional_round_trip::<Vec<String>>(d.files);
    assert(acceptable_at(e, 11) && assemble(e).files == d.files);
    lemma_encoded_lookup(d, 12);
    String::lemma_round_trip(d.main);
    assert(acceptable_at(e, 12) && assemble(e).main == d.main);
    lemma_encoded_lookup(d, 13);
    lemma_optional_round_trip::<String>(d.browser);
    assert(acceptable_at(e, 13) && assemble(e).browser == d.browser);
    lemma_encoded_lookup(d, 14);
    lemma_optional_round_trip::<PackageBin>(d.bin);
    assert(acceptable_at(e, 14) && assemble(e).bin == d.bin);
    lemma_encoded_lookup(d, 15);
    lemma_optional_round_trip::<PackageMan>(d.man);
    assert(acceptable_at(e, 15) && assemble(e).man == d.man);
    lemma_encoded_lookup(d, 16);
    lemma_optional_round_trip::<PackageDirectories>(d.directories);
    assert(acceptable_at(e, 16) && assemble(e).directories == d.directories);
    lemma_encoded_lookup(d, 17);
    lemma_optional_round_trip::<PackageRepository>(d.repository);
    assert(acceptable_at(e, 17) && assemble(e).repository == d.repository);
    lemma_encoded_lookup(d, 18);
    OrderedMap::<String>::lemma_round_trip(d.scripts);
    assert(acceptable_at(e, 18) && assemble(e).scripts == d.scripts);
    lemma_encoded_lookup(d, 19);
    lemma_optional_round_trip::<OrderedMap<JsonValue>>(d.config);
    assert(acceptable_at(e, 19) && assemble(e).config == d.config);
    lemma_encoded_lookup(d, 20);
    lemma_optional_round_trip::<OrderedMap<String>>(d.dependencies);
    assert(acceptable_at(e, 20) && assemble(e).dependencies == d.dependencies);
    lemma_encoded_lookup(d, 21);
    lemma_optional_round_trip::<OrderedMap<String>>(d.dev_dependencies);
    assert(acceptable_at(e, 21) && assemble(e).dev_dependencies == d.dev_dependencies);
    lemma_encoded_lookup(d, 22);
    lemma_optional_round_trip::<OrderedMap<String>>(d.peer_dependencies);
    assert(acceptable_at(e, 22) && assemble(e).peer_dependencies == d.peer_dependencies);
    lemma_encoded_lookup(d, 23);
    lemma_optional_round_trip::<OrderedMap<OrderedMap<bool>>>(d.peer_dependencies_meta);
    assert(acceptable_at(e, 23) && assemble(e).peer_dependencies_meta == d.peer_dependencies_meta);
    lemma_encoded_lookup(d, 24);
    lemma_optional_round_trip::<Vec<String>>(d.bundled_dependencies);
    assert(acceptable_at(e, 24) && assemble(e).bundled_dependencies == d.bundled_dependencies);
    lemma_encoded_lookup(d, 25);
    lemma_optional_round_trip::<OrderedMap<String>>(d.optional_dependencies);
    assert(acceptable_at(e, 25) && assemble(e).optional_dependencies == d.optional_dependencies);
    lemma_encoded_lookup(d, 26);
    lemma_optional_round_trip::<OrderedMap<String>>(d.overrides);
    assert(acceptable_at(e, 26) && assemble(e).overrides == d.overrides);
    lemma_encoded_lookup(d, 27);
    lemma_optional_round_trip::<OrderedMap<String>>(d.engines);
    assert(acceptable_at(e, 27) && assemble(e).engines == d.engines);
    lemma_encoded_lookup(d, 28);
    lemma_optional_round_trip::<Vec<String>>(d.os);
    assert(acceptable_at(e, 28) && assemble(e).os == d.os);
    lemma_encoded_lookup(d, 29);
    lemma_optional_round_trip::<Vec<String>>(d.cpu);
    assert(acceptable_at(e, 29) && assemble(e).cpu == d.cpu);
    lemma_encoded_lookup(d, 30);
    bool::lemma_round_trip(d.private);
    assert(acceptable_at(e, 30) && assemble(e).private == d.private);
    lemma_encoded_lookup(d, 31);
    lemma_optional_round_trip::<OrderedMap<String>>(d.publish_config);
    assert(acceptable_at(e, 31) && assemble(e).publish_config == d.publish_config);
    lemma_encoded_lookup(d, 32);
    lemma_optional_round_trip::<Vec<String>>(d.workspaces);
    assert(acceptable_at(e, 32) && assemble(e).workspaces == d.workspaces);
    lemma_encoded_lookup(d, 33);
    String::lemma_round_trip(d.type_);
    assert(acceptable_at(e, 33) && assemble(e).type_ == d.type_);
    lemma_encoded_lookup(d, 34);
    lemma_optional_round_trip::<String>(d.types);
    assert(acceptable_at(e, 34) && assemble(e).types == d.types);
    lemma_encoded_lookup(d, 35);
    lemma_optional_round_trip::<String>(d.typings);
    assert(acceptable_at(e, 35) && assemble(e).typings == d.typings);
    lemma_first_bad(e, 0, ATTRIBUTE_COUNT as int);
}

/// Round trip of what was read: where a document stands for a descriptor,
/// the document written for that descriptor stands for it too.
pub proof fn lemma_round_trip_of_decoded(doc: JsonModel, d: PackageJsonModel)
    requires
        decode_document(doc) == Ok::<PackageJsonModel, Failure>(d),
    ensures
        decode_document(encode_document(d)) == Ok::<PackageJsonModel, Failure>(d),
{
    lemma_unknown_members_apart(doc->Object_0);
    lemma_round_trip(d);
}

/// Round trip through text: where a text stands for a descriptor, every
/// text written for that descriptor from which `serde_json` reads the
/// written document again stands for the same descriptor, be it indented
/// or not.
pub proof fn lemma_round_trip_of_text(
    text: Seq<char>,
    d: PackageJsonModel,
    pretty: bool,
    written: Seq<char>,
)
    requires
        decode_text(text) == Ok::<PackageJsonModel, Failure>(d),
        encode_text(d, pretty) == Some(written),
        parsed(written) == Some(encode_document(d)),
    ensures
        decode_text(written) == Ok::<PackageJsonModel, Failure>(d),
{
    lemma_round_trip_of_decoded(parsed(text).unwrap(), d);
}

/// Defaults: a document that holds nothing but a name and a version
/// stands for the default descriptor with that name and version. So
/// `main`, `scripts`, `private` and `type_` are at their defaults and
/// every other attribute is absent.
pub proof fn lemma_minimal_document(name: Seq<char>, version: Seq<char>)
    ensures
        decode_document(
            JsonModel::Object(
                seq![("name"@, JsonModel::Text(name)), ("version"@, JsonModel::Text(version))],
            ),
        ) == Ok::<PackageJsonModel, Failure>(
            PackageJsonModel { name: name, version: version, ..default_descriptor() },
        ),
{
    let e = seq![("name"@, JsonModel::Text(name)), ("version"@, JsonModel::Text(version))];
    let d = PackageJsonModel { name: name, version: version, ..default_descriptor() };
    lemma_attribute_names_distinct();
    lemma_lookup_at(e, attribute_name(0), 0);
    lemma_lookup_at(e, attribute_name(1), 1);
    assert(acceptable_at(e, 0) && assemble(e).name == name);
    assert(acceptable_at(e, 1) && assemble(e).version == version);
    lemma_lookup_absent(e, attribute_name(2));
    assert(acceptable_at(e, 2) && assemble(e).description == d.description);
    lemma_lookup_absent(e, attribute_name(3));
    assert(acceptable_at(e, 3) && assemble(e).keywords == d.keywords);
    lemma_lookup_absent(e, attribute_name(4));
    assert(acceptable_at(e, 4) && assemble(e).homepage == d.homepage);
    lemma_lookup_absent(e, attribute_name(5));
    assert(acceptable_at(e, 5) && assemble(e).bugs == d.bugs);
    lemma_lookup_absent(e, attribute_name(6));
    assert(acceptable_at(e, 6) && assemble(e).license == d.license);
    lemma_lookup_absent(e, attribute_name(7));
    assert(acceptable_at(e, 7) && assemble(e).author == d.author);
    lemma_lookup_absent(e, attribute_name(8));
    assert(acceptable_at(e, 8) && assemble(e).contributors == d.contributors);
    lemma_lookup_absent(e, attribute_name(9));
    assert(acceptable_at(e, 9) && assemble(e).maintainers == d.maintainers);
    lemma_lookup_absent(e, attribute_name(10));
    assert(acceptable_at(e, 10) && assemble(e).funding == d.funding);
    lemma_lookup_absent(e, attribute_name(11));
    assert(acceptable_at(e, 11) && assemble(e).files == d.files);
    lemma_lookup_absent(e, attribute_name(12));
    assert(acceptable_at(e, 12) && assemble(e).main == d.main);
    lemma_lookup_absent(e, attribute_name(13));
    assert(acceptable_at(e, 13) && assemble(e).browser == d.browser);
    lemma_lookup_absent(e, attribute_name(14));
    assert(acceptable_at(e, 14) && assemble(e).bin == d.bin);
    lemma_lookup_absent(e, attribute_name(15));
    assert(acceptable_at(e, 15) && assemble(e).man == d.man);
    lemma_lookup_absent(e, attribute_name(16));
    assert(acceptable_at(e, 16) && assemble(e).directories == d.directories);
    lemma_lookup_absent(e, attribute_name(17));
    assert(acceptable_at(e, 17) && assemble(e).repository == d.repository);
    lemma_lookup_absent(e, attribute_name(18));
    assert(acceptable_at(e, 18) && assemble(e).scripts == d.scripts);
    lemma_lookup_absent(e, attribute_name(19));
    assert(acceptable_at(e, 19) && assemble(e).config == d.config);
    lemma_lookup_absent(e, attribute_name(20));
    assert(acceptable_at(e, 20) && assemble(e).dependencies == d.dependencies);
    lemma_lookup_absent(e, attribute_name(21));
    assert(acceptable_at(e, 21) && assemble(e).dev_dependencies == d.dev_dependencies);
    lemma_lookup_absent(e, attribute_name(22));
    assert(acceptable_at(e, 22) && assemble(e).peer_dependencies == d.peer_dependencies);
    lemma_lookup_absent(e, attribute_name(23));
    assert(acceptable_at(e, 23) && assemble(e).peer_dependencies_meta == d.peer_dependencies_meta);
    lemma_lookup_absent(e, attribute_name(24));
    assert(acceptable_at(e, 24) && assemble(e).bundled_dependencies == d.bundled_dependencies);
    lemma_lookup_absent(e, attribute_name(25));
    assert(acceptable_at(e, 25) && assemble(e).optional_dependencies == d.optional_dependencies);
    lemma_lookup_absent(e, attribute_name(26));
    assert(acceptable_at(e, 26) && assemble(e).overrides == d.overrides);
    lemma_lookup_absent(e, attribute_name(27));
    assert(acceptable_at(e, 27) && assemble(e).engines == d.engines);
    lemma_lookup_absent(e, attribute_name(28));
    assert(acceptable_at(e, 28) && assemble(e).os == d.os);
    lemma_lookup_absent(e, attribute_name(29));
    assert(acceptable_at(e, 29) && assemble(e).cpu == d.cpu);
    lemma_lookup_absent(e, attribute_name(30));
    assert(acceptable_at(e, 30) && assemble(e).private == d.private);
    lemma_lookup_absent(e, attribute_name(31));
    assert(acceptable_at(e, 31) && assemble(e).publish_config == d.publish_config);
    lemma_lookup_absent(e, attribute_name(32));
    assert(acceptable_at(e, 32) && assemble(e).workspaces == d.workspaces);
    lemma_lookup_absent(e, attribute_name(33));
    assert(acceptable_at(e, 33) && assemble(e).type_ == d.type_);
    lemma_lookup_absent(e, attribute_name(34));
    assert(acceptable_at(e, 34) && assemble(e).types == d.types);
    lemma_lookup_absent(e, attribute_name(35));
    assert(acceptable_at(e, 35) && assemble(e).typings == d.typings);
    lemma_first_bad(e, 0, ATTRIBUTE_COUNT as int);
    lemma_unknown_members_none(e);
}

/// The alternative of an attribute that comes in several forms is decided
/// by the kind of the JSON value alone: text stands for the text
/// alternative, an object can only stand for the record alternative, an
/// array only for the list alternative, and any other value for none.
pub proof fn lemma_kind_decides_alternative(doc: JsonModel)
    ensures
        doc matches JsonModel::Text(text) ==> {
            &&& PackageBugs::of(doc) == Some(PackageBugsModel::Url(text))
            &&& PackagePeople::of(doc) == Some(PackagePeopleModel::Literal(text))
            &&& PackageFunding::of(doc) == Some(PackageFundingModel::Url(text))
            &&& PackageBin::of(doc) == Some(PackageBinModel::Literal(text))
            &&& PackageMan::of(doc) == Some(PackageManModel::Literal(text))
            &&& PackageRepository::of(doc) == Some(PackageRepositoryModel::Url(text))
        },
        doc is Object ==> {
            &&& PackageBugs::of(doc) matches Some(bugs) ==> bugs is Record
            &&& PackagePeople::of(doc) matches Some(person) ==> person is Record
            &&& PackageFunding::of(doc) matches Some(funding) ==> funding is Record
            &&& PackageBin::of(doc) matches Some(bin) ==> bin is Record
            &&& PackageMan::of(doc) is None
            &&& PackageRepository::of(doc) matches Some(repository) ==> repository is Record
        },
        doc is Array ==> {
            &&& PackageBugs::of(doc) is None
            &&& PackagePeople::of(doc) is None
            &&& PackageFunding::of(doc) matches Some(funding) ==> funding is Slice
            &&& PackageBin::of(doc) is None
            &&& PackageMan::of(doc) matches Some(man) ==> man is Slice
            &&& PackageRepository::of(doc) is None
        },
        doc is Null || doc is Bool || doc is Number ==> {
            &&& PackageBugs::of(doc) is None
            &&& PackagePeople::of(doc) is None
            &&& PackageFunding::of(doc) is None
            &&& PackageBin::of(doc) is None
            &&& PackageMan::of(doc) is None
            &&& PackageRepository::of(doc) is None
            &&& PackageDirectories::of(doc) is None
        },
{
}

/// The order in which the alternatives are tried is immaterial: trying
/// the list alternative before the record alternative and that before the
/// text alternative finds what trying them the other way round finds.
pub proof fn lemma_order_of_trial_is_immaterial(doc: JsonModel)
    ensures
        PackageBugs::of(doc) == match PackageBugsRecord::of(doc) {
            Some(record) => Some(PackageBugsModel::Record(record)),
            None => match String::of(doc) {
                Some(url) => Some(PackageBugsModel::Url(url)),
                None => None,
            },
        },
        PackagePeople::of(doc) == match PackagePeopleRecord::of(doc) {
            Some(record) => Some(PackagePeopleModel::Record(record)),
            None => match String::of(doc) {
                Some(text) => Some(PackagePeopleModel::Literal(text)),
                None => None,
            },
        },
        PackageFunding::of(doc) == match Vec::<PackageFundingRecord>::of(doc) {
            Some(records) => Some(PackageFundingModel::Slice(records)),
            None => match PackageFundingRecord::of(doc) {
                Some(record) => Some(PackageFundingModel::Record(record)),
                None => match String::of(doc) {
                    Some(url) => Some(PackageFundingModel::Url(url)),
                    None => None,
                },
            },
        },
        PackageBin::of(doc) == match OrderedMap::<String>::of(doc) {
            Some(commands) => Some(PackageBinModel::Record(commands)),
            None => match String::of(doc) {
                Some(path) => Some(PackageBinModel::Literal(path)),
                None => None,
            },
        },
        PackageMan::of(doc) == match Vec::<String>::of(doc) {
            Some(paths) => Some(PackageManModel::Slice(paths)),
            None => match String::of(doc) {
                Some(path) => Some(PackageManModel::Literal(path)),
                None => None,
            },
        },
        PackageRepository::of(doc) == match PackageRepositoryRecord::of(doc) {
            Some(record) => Some(PackageRepositoryModel::Record(record)),
            None => match String::of(doc) {
                Some(url) => Some(PackageRepositoryModel::Url(url)),
                None => None,
            },
        },
{
}

} // verus!
