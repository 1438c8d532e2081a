//! The JSON shapes of the attributes that come in several forms.

use crate::json::{lemma_object_view, JsonModel, JsonValue};
use crate::ordered_map::{find, lemma_lookup_at, lookup, OrderedMap};
use crate::schema::{
    PackageBin, PackageBinModel, PackageBugs, PackageBugsModel, PackageBugsRecord,
    PackageBugsRecordModel, PackageDirectories, PackageDirectoriesModel, PackageFunding,
    PackageFundingModel, PackageFundingRecord, PackageFundingRecordModel, PackageMan,
    PackageManModel, PackagePeople, PackagePeopleModel, PackagePeopleRecord,
    PackagePeopleRecordModel, PackageRepository, PackageRepositoryModel, PackageRepositoryRecord,
    PackageRepositoryRecordModel,
};
use crate::shape::{
    decode_optional, decode_required, encode_nullable, lemma_optional_round_trip, nullable_json,
    optional_of, required_of, JsonShape,
};
use vstd::prelude::*;

verus! {

impl JsonShape for PackageBugsRecord {
    open spec fn of(doc: JsonModel) -> Option<PackageBugsRecordModel> {
        match doc {
            JsonModel::Object(members) => {
                let url = required_of::<String>(lookup(members, "url"@));
                let email = required_of::<String>(lookup(members, "email"@));
                if url is Some && email is Some {
                    Some(PackageBugsRecordModel { url: url.unwrap(), email: email.unwrap() })
                } else {
                    None
                }
            },
            _ => None,
        }
    }

    open spec fn json(value: PackageBugsRecordModel) -> JsonModel {
        JsonModel::Object(
            seq![("url"@, String::json(value.url)), ("email"@, String::json(value.email))],
        )
    }

    fn decode(doc: &JsonValue) -> (r: Option<PackageBugsRecord>) {
        match doc {
            JsonValue::Object(members) => {
                proof {
                    lemma_object_view(*members);
                }
                let url = decode_required::<String>(find(members, "url"));
                let email = decode_required::<String>(find(members, "email"));
                match (url, email) {
                    (Some(url), Some(email)) => Some(PackageBugsRecord { url, email }),
                    _ => None,
                }
            },
            _ => None,
        }
    }

    fn encode(&self) -> (r: JsonValue) {
        let mut members: Vec<(String, JsonValue)> = Vec::new();
        members.push(("url".to_owned(), self.url.encode()));
        members.push(("email".to_owned(), self.email.encode()));
        proof {
            lemma_object_view(members);
            assert(members.deep_view() =~= Self::json(self.deep_view())->Object_0);
        }
        JsonValue::Object(members)
    }

    proof fn lemma_round_trip(value: PackageBugsRecordModel) {
        reveal_strlit("url");
        reveal_strlit("email");
        let members = Self::json(value)->Object_0;
        assert("url"@.len() == 3 && "email"@.len() == 5);
        lemma_lookup_at(members, "url"@, 0);
        lemma_lookup_at(members, "email"@, 1);
    }
}

impl JsonShape for PackageBugs {
    open spec fn of(doc: JsonModel) -> Option<PackageBugsModel> {
        match String::of(doc) {
            Some(url) => Some(PackageBugsModel::Url(url)),
            None => match PackageBugsRecord::of(doc) {
                Some(record) => Some(PackageBugsModel::Record(record)),
                None => None,
            },
        }
    }

    open spec fn json(value: PackageBugsModel) -> JsonModel {
        match value {
            PackageBugsModel::Url(url) => String::json(url),
            PackageBugsModel::Record(record) => PackageBugsRecord::json(record),
        }
    }

    fn decode(doc: &JsonValue) -> (r: Option<PackageBugs>) {
        match String::decode(doc) {
            Some(url) => Some(PackageBugs::Url(url)),
            None => match PackageBugsRecord::decode(doc) {
                Some(record) => Some(PackageBugs::Record(record)),
                None => None,
            },
        }
    }

    fn encode(&self) -> (r: JsonValue) {
        match self {
            PackageBugs::Url(url) => url.encode(),
            PackageBugs::Record(record) => record.encode(),
        }
    }

    proof fn lemma_round_trip(value: PackageBugsModel) {
        match value {
            PackageBugsModel::Url(url) => {},
            PackageBugsModel::Record(record) => {
                PackageBugsRecord::lemma_round_trip(record);
            },
        }
    }
}

impl JsonShape for PackagePeopleRecord {
    open spec fn of(doc: JsonModel) -> Option<PackagePeopleRecordModel> {
        match doc {
            JsonModel::Object(members) => {
                let name = required_of::<String>(lookup(members, "name"@));
                let email = optional_of::<String>(lookup(members, "email"@));
                let url = optional_of::<String>(lookup(members, "url"@));
                if name is Some && email is Some && url is Some {
                    Some(
                        PackagePeopleRecordModel {
                            name: name.unwrap(),
                            email: email.unwrap(),
                            url: url.unwrap(),
                        },
                    )
                } else {
                    None
                }
            },
            _ => None,
        }
    }

    open spec fn json(value: PackagePeopleRecordModel) -> JsonModel {
        JsonModel::Object(
            seq![
                ("name"@, String::json(value.name)),
                ("email"@, nullable_json::<String>(value.email)),
                ("url"@, nullable_json::<String>(value.url)),
            ],
        )
    }

    fn decode(doc: &JsonValue) -> (r: Option<PackagePeopleRecord>) {
        match doc {
            JsonValue::Object(members) => {
                proof {
                    lemma_object_view(*members);
                }
                let name = decode_required::<String>(find(members, "name"));
                let email = decode_optional::<String>(find(members, "email"));
                let url = decode_optional::<String>(find(members, "url"));
                match (name, email, url) {
                    (Some(name), Some(email), Some(url)) => Some(
                        PackagePeopleRecord { name, email, url },
                    ),
                    _ => None,
                }
            },
            _ => None,
        }
    }

    fn encode(&self) -> (r: JsonValue) {
        let mut members: Vec<(String, JsonValue)> = Vec::new();
        members.push(("name".to_owned(), self.name.encode()));
        members.push(("email".to_owned(), encode_nullable(&self.email)));
        members.push(("url".to_owned(), encode_nullable(&self.url)));
        proof {
            lemma_object_view(members);
            assert(members.deep_view() =~= Self::json(self.deep_view())->Object_0);
        }
        JsonValue::Object(members)
    }

    proof fn lemma_round_trip(value: PackagePeopleRecordModel) {
        reveal_strlit("name");
        reveal_strlit("email");
        reveal_strlit("url");
        assert("name"@.len() == 4 && "email"@.len() == 5 && "url"@.len() == 3);
        let members = Self::json(value)->Object_0;
        lemma_lookup_at(members, "name"@, 0);
        lemma_lookup_at(members, "email"@, 1);
        lemma_lookup_at(members, "url"@, 2);
        lemma_optional_round_trip::<String>(value.email);
        lemma_optional_round_trip::<String>(value.url);
    }
}

impl JsonShape for PackagePeople {
    open spec fn of(doc: JsonModel) -> Option<PackagePeopleModel> {
        match String::of(doc) {
            Some(text) => Some(PackagePeopleModel::Literal(text)),
            None => match PackagePeopleRecord::of(doc) {
                Some(record) => Some(PackagePeopleModel::Record(record)),
                None => None,
            },
        }
    }

    open spec fn json(value: PackagePeopleModel) -> JsonModel {
        match value {
            PackagePeopleModel::Literal(text) => String::json(text),
            PackagePeopleModel::Record(record) => PackagePeopleRecord::json(record),
        }
    }

    fn decode(doc: &JsonValue) -> (r: Option<PackagePeople>) {
        match String::decode(doc) {
            Some(text) => Some(PackagePeople::Literal(text)),
            None => match PackagePeopleRecord::decode(doc) {
                Some(record) => Some(PackagePeople::Record(record)),
                None => None,
            },
        }
    }

    fn encode(&self) -> (r: JsonValue) {
        match self {
            PackagePeople::Literal(text) => text.encode(),
            PackagePeople::Record(record) => record.encode(),
        }
    }

    proof fn lemma_round_trip(value: PackagePeopleModel) {
        match value {
            PackagePeopleModel::Literal(text) => {},
            PackagePeopleModel::Record(record) => {
                PackagePeopleRecord::lemma_round_trip(record);
            },
        }
    }
}

impl JsonShape for PackageFundingRecord {
    open spec fn of(doc: JsonModel) -> Option<PackageFundingRecordModel> {
        match doc {
            JsonModel::Object(members) => {
                let type_ = required_of::<String>(lookup(members, "type"@));
                let url = required_of::<String>(lookup(members, "url"@));
                if type_ is Some && url is Some {
                    Some(PackageFundingRecordModel { type_: type_.unwrap(), url: url.unwrap() })
                } else {
                    None
                }
            },
            _ => None,
        }
    }

    open spec fn json(value: PackageFundingRecordModel) -> JsonModel {
        JsonModel::Object(
            seq![("type"@, String::json(value.type_)), ("url"@, String::json(value.url))],
        )
    }

    fn decode(doc: &JsonValue) -> (r: Option<PackageFundingRecord>) {
        match doc {
            JsonValue::Object(members) => {
                proof {
                    lemma_object_view(*members);
                }
                let type_ = decode_required::<String>(find(members, "type"));
                let url = decode_required::<String>(find(members, "url"));
                match (type_, url) {
                    (Some(type_), Some(url)) => Some(PackageFundingRecord { type_, url }),
                    _ => None,
                }
            },
            _ => None,
        }
    }

    fn encode(&self) -> (r: JsonValue) {
        let mut members: Vec<(String, JsonValue)> = Vec::new();
        members.push(("type".to_owned(), self.type_.encode()));
        members.push(("url".to_owned(), self.url.encode()));
        proof {
            lemma_object_view(members);
            assert(members.deep_view() =~= Self::json(self.deep_view())->Object_0);
        }
        JsonValue::Object(members)
    }

    proof fn lemma_round_trip(value: PackageFundingRecordModel) {
        reveal_strlit("type");
        reveal_strlit("url");
        assert("type"@.len() == 4 && "url"@.len() == 3);
        let members = Self::json(value)->Object_0;
        lemma_lookup_at(members, "type"@, 0);
        lemma_lookup_at(members, "url"@, 1);
    }
}

impl JsonShape for PackageFunding {
    open spec fn of(doc: JsonModel) -> Option<PackageFundingModel> {
        match String::of(doc) {
            Some(url) => Some(PackageFundingModel::Url(url)),
            None => match PackageFundingRecord::of(doc) {
                Some(record) => Some(PackageFundingModel::Record(record)),
                None => match Vec::<PackageFundingRecord>::of(doc) {
                    Some(records) => Some(PackageFundingModel::Slice(records)),
                    None => None,
                },
            },
        }
    }

    open spec fn json(value: PackageFundingModel) -> JsonModel {
        match value {
            PackageFundingModel::Url(url) => String::json(url),
            PackageFundingModel::Record(record) => PackageFundingRecord::json(record),
            PackageFundingModel::Slice(records) => Vec::<PackageFundingRecord>::json(records),
        }
    }

    fn decode(doc: &JsonValue) -> (r: Option<PackageFunding>) {
        match String::decode(doc) {
            Some(url) => Some(PackageFunding::Url(url)),
            None => match PackageFundingRecord::decode(doc) {
                Some(record) => Some(PackageFunding::Record(record)),
                None => match Vec::<PackageFundingRecord>::decode(doc) {
                    Some(records) => Some(PackageFunding::Slice(records)),
                    None => None,
                },
            },
        }
    }

    fn encode(&self) -> (r: JsonValue) {
        match self {
            PackageFunding::Url(url) => url.encode(),
            PackageFunding::Record(record) => record.encode(),
            PackageFunding::Slice(records) => records.encode(),
        }
    }

    proof fn lemma_round_trip(value: PackageFundingModel) {
        match value {
            PackageFundingModel::Url(url) => {},
            PackageFundingModel::Record(record) => {
                PackageFundingRecord::lemma_round_trip(record);
            },
            PackageFundingModel::Slice(records) => {
                Vec::<PackageFundingRecord>::lemma_round_trip(records);
            },
        }
    }
}

impl JsonShape for PackageBin {
    open spec fn of(doc: JsonModel) -> Option<PackageBinModel> {
        match String::of(doc) {
            Some(path) => Some(PackageBinModel::Literal(path)),
            None => match OrderedMap::<String>::of(doc) {
                Some(commands) => Some(PackageBinModel::Record(commands)),
                None => None,
            },
        }
    }

    open spec fn json(value: PackageBinModel) -> JsonModel {
        match value {
            PackageBinModel::Literal(path) => String::json(path),
            PackageBinModel::Record(commands) => OrderedMap::<String>::json(commands),
        }
    }

    fn decode(doc: &JsonValue) -> (r: Option<PackageBin>) {
        match String::decode(doc) {
            Some(path) => Some(PackageBin::Literal(path)),
            None => match OrderedMap::<String>::decode(doc) {
                Some(commands) => Some(PackageBin::Record(commands)),
                None => None,
            },
        }
    }

    fn encode(&self) -> (r: JsonValue) {
        match self {
            PackageBin::Literal(path) => path.encode(),
            PackageBin::Record(commands) => commands.encode(),
        }
    }

    proof fn lemma_round_trip(value: PackageBinModel) {
        match value {
            PackageBinModel::Literal(path) => {},
            PackageBinModel::Record(commands) => {
                OrderedMap::<String>::lemma_round_trip(commands);
            },
        }
    }
}

impl JsonShape for PackageMan {
    open spec fn of(doc: JsonModel) -> Option<PackageManModel> {
        match String::of(doc) {
            Some(path) => Some(PackageManModel::Literal(path)),
            None => match Vec::<String>::of(doc) {
                Some(paths) => Some(PackageManModel::Slice(paths)),
                None => None,
            },
        }
    }

    open spec fn json(value: PackageManModel) -> JsonModel {
        match value {
            PackageManModel::Literal(path) => String::json(path),
            PackageManModel::Slice(paths) => Vec::<String>::json(paths),
        }
    }

    fn decode(doc: &JsonValue) -> (r: Option<PackageMan>) {
        match String::decode(doc) {
            Some(path) => Some(PackageMan::Literal(path)),
            None => match Vec::<String>::decode(doc) {
                Some(paths) => Some(PackageMan::Slice(paths)),
                None => None,
            },
        }
    }

    fn encode(&self) -> (r: JsonValue) {
        match self {
            PackageMan::Literal(path) => path.encode(),
            PackageMan::Slice(paths) => paths.encode(),
        }
    }

    proof fn lemma_round_trip(value: PackageManModel) {
        match value {
            PackageManModel::Literal(path) => {},
            PackageManModel::Slice(paths) => {
                Vec::<String>::lemma_round_trip(paths);
            },
        }
    }
}

impl JsonShape for PackageDirectories {
    open spec fn of(doc: JsonModel) -> Option<PackageDirectoriesModel> {
        match doc {
            JsonModel::Object(members) => {
                let bin = optional_of::<String>(lookup(members, "bin"@));
                let man = optional_of::<String>(lookup(members, "man"@));
                if bin is Some && man is Some {
                    Some(PackageDirectoriesModel { bin: bin.unwrap(), man: man.unwrap() })
                } else {
                    None
                }
            },
            _ => None,
        }
    }

    open spec fn json(value: PackageDirectoriesModel) -> JsonModel {
        JsonModel::Object(
            seq![
                ("bin"@, nullable_json::<String>(value.bin)),
                ("man"@, nullable_json::<String>(value.man)),
            ],
        )
    }

    fn decode(doc: &JsonValue) -> (r: Option<PackageDirectories>) {
        match doc {
            JsonValue::Object(members) => {
                proof {
                    lemma_object_view(*members);
                }
                let bin = decode_optional::<String>(find(members, "bin"));
                let man = decode_optional::<String>(find(members, "man"));
                match (bin, man) {
                    (Some(bin), Some(man)) => Some(PackageDirectories { bin, man }),
                    _ => None,
                }
            },
            _ => None,
        }
    }

    fn encode(&self) -> (r: JsonValue) {
        let mut members: Vec<(String, JsonValue)> = Vec::new();
        members.push(("bin".to_owned(), encode_nullable(&self.bin)));
        members.push(("man".to_owned(), encode_nullable(&self.man)));
        proof {
            lemma_object_view(members);
            assert(members.deep_view() =~= Self::json(self.deep_view())->Object_0);
        }
        JsonValue::Object(members)
    }

    proof fn lemma_round_trip(value: PackageDirectoriesModel) {
        reveal_strlit("bin");
        reveal_strlit("man");
        assert("bin"@[0] == 'b' && "man"@[0] == 'm');
        let members = Self::json(value)->Object_0;
        lemma_lookup_at(members, "bin"@, 0);
        lemma_lookup_at(members, "man"@, 1);
        lemma_optional_round_trip::<String>(value.bin);
        lemma_optional_round_trip::<String>(value.man);
    }
}

impl JsonShape for PackageRepositoryRecord {
    open spec fn of(doc: JsonModel) -> Option<PackageRepositoryRecordModel> {
        match doc {
            JsonModel::Object(members) => {
                let type_ = required_of::<String>(lookup(members, "type"@));
                let url = required_of::<String>(lookup(members, "url"@));
                let directory = optional_of::<String>(lookup(members, "directory"@));
                if type_ is Some && url is Some && directory is Some {
                    Some(
                        PackageRepositoryRecordModel {
                            type_: type_.unwrap(),
                            url: url.unwrap(),
                            directory: directory.unwrap(),
                        },
                    )
                } else {
                    None
                }
            },
            _ => None,
        }
    }

    open spec fn json(value: PackageRepositoryRecordModel) -> JsonModel {
        JsonModel::Object(
            seq![
                ("type"@, String::json(value.type_)),
                ("url"@, String::json(value.url)),
                ("directory"@, nullable_json::<String>(value.directory)),
            ],
        )
    }

    fn decode(doc: &JsonValue) -> (r: Option<PackageRepositoryRecord>) {
        match doc {
            JsonValue::Object(members) => {
                proof {
                    lemma_object_view(*members);
                }
                let type_ = decode_required::<String>(find(members, "type"));
                let url = decode_required::<String>(find(members, "url"));
                let directory = decode_optional::<String>(find(members, "directory"));
                match (type_, url, directory) {
                    (Some(type_), Some(url), Some(directory)) => Some(
                        PackageRepositoryRecord { type_, url, directory },
                    ),
                    _ => None,
                }
            },
            _ => None,
        }
    }

    fn encode(&self) -> (r: JsonValue) {
        let mut members: Vec<(String, JsonValue)> = Vec::new();
        members.push(("type".to_owned(), self.type_.encode()));
        members.push(("url".to_owned(), self.url.encode()));
        members.push(("directory".to_owned(), encode_nullable(&self.directory)));
        proof {
            lemma_object_view(members);
            assert(members.deep_view() =~= Self::json(self.deep_view())->Object_0);
        }
        JsonValue::Object(members)
    }

    proof fn lemma_round_trip(value: PackageRepositoryRecordModel) {
        reveal_strlit("type");
        reveal_strlit("url");
        reveal_strlit("directory");
        assert("type"@.len() == 4 && "url"@.len() == 3 && "directory"@.len() == 9);
        let members = Self::json(value)->Object_0;
        lemma_lookup_at(members, "type"@, 0);
        lemma_lookup_at(members, "url"@, 1);
        lemma_lookup_at(members, "directory"@, 2);
        lemma_optional_round_trip::<String>(value.directory);
    }
}

impl JsonShape for PackageRepository {
    open spec fn of(doc: JsonModel) -> Option<PackageRepositoryModel> {
        match String::of(doc) {
            Some(url) => Some(PackageRepositoryModel::Url(url)),
            None => match PackageRepositoryRecord::of(doc) {
                Some(record) => Some(PackageRepositoryModel::Record(record)),
                None => None,
            },
        }
    }

    open spec fn json(value: PackageRepositoryModel) -> JsonModel {
        match value {
            PackageRepositoryModel::Url(url) => String::json(url),
            PackageRepositoryModel::Record(record) => PackageRepositoryRecord::json(record),
        }
    }

    fn decode(doc: &JsonValue) -> (r: Option<PackageRepository>) {
        match String::decode(doc) {
            Some(url) => Some(PackageRepository::Url(url)),
            None => match PackageRepositoryRecord::decode(doc) {
                Some(record) => Some(PackageRepository::Record(record)),
                None => None,
            },
        }
    }

    fn encode(&self) -> (r: JsonValue) {
        match self {
            PackageRepository::Url(url) => url.encode(),
            PackageRepository::Record(record) => record.encode(),
        }
    }

    proof fn lemma_round_trip(value: PackageRepositoryModel) {
        match value {
            PackageRepositoryModel::Url(url) => {},
            PackageRepositoryModel::Record(record) => {
                PackageRepositoryRecord::lemma_round_trip(record);
            },
        }
    }
}

} // verus!
