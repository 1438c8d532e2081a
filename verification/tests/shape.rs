use package_json::schema::attributes::{attribute_index, ATTRIBUTE_COUNT};
use package_json::schema::codec::collect_unknowns;
use package_json::schema::ignore::ignore_scripts;
use package_json::shape::{
    decode_defaulted, decode_optional, decode_required, duplicate_members, encode_nullable,
    encode_optional, JsonShape,
};
use package_json::{
    JsonValue, OrderedMap, PackageBugsRecord, PackageDirectories, PackageFundingRecord,
    PackagePeopleRecord, PackageRepositoryRecord, WriteOptions,
};

fn text(s: &str) -> JsonValue {
    JsonValue::Text(s.to_owned())
}

fn object(members: &[(&str, JsonValue)]) -> JsonValue {
    JsonValue::Object(members.iter().map(|(k, v)| ((*k).to_owned(), v.clone())).collect())
}

#[test]
fn text_and_flags_have_the_shape_of_their_kind_only() {
    assert_eq!(String::decode(&text("a")), Some("a".to_owned()));
    assert_eq!(String::decode(&JsonValue::Bool(true)), None);
    assert_eq!(String::decode(&JsonValue::Null), None);
    assert_eq!(bool::decode(&JsonValue::Bool(true)), Some(true));
    assert_eq!(bool::decode(&JsonValue::Bool(false)), Some(false));
    assert_eq!(bool::decode(&text("true")), None);
    assert_eq!("a".to_owned().encode(), text("a"));
    assert_eq!(true.encode(), JsonValue::Bool(true));
}

#[test]
fn lists_need_every_item_to_have_the_shape() {
    let good = JsonValue::Array(vec![text("a"), text("b")]);
    assert_eq!(Vec::<String>::decode(&good), Some(vec!["a".to_owned(), "b".to_owned()]));
    let bad = JsonValue::Array(vec![text("a"), JsonValue::Null]);
    assert_eq!(Vec::<String>::decode(&bad), None);
    assert_eq!(Vec::<String>::decode(&JsonValue::Array(vec![])), Some(vec![]));
    assert_eq!(Vec::<String>::decode(&text("a")), None);
    assert_eq!(vec!["a".to_owned(), "b".to_owned()].encode(), good);
    assert_eq!(vec![vec![true], vec![]].encode(), JsonValue::Array(vec![
        JsonValue::Array(vec![JsonValue::Bool(true)]),
        JsonValue::Array(vec![]),
    ]));
}

#[test]
fn mappings_need_every_value_to_have_the_shape() {
    let good = object(&[("b", text("1")), ("a", text("2"))]);
    let map = OrderedMap {
        entries: vec![("b".to_owned(), "1".to_owned()), ("a".to_owned(), "2".to_owned())],
    };
    assert_eq!(OrderedMap::<String>::decode(&good), Some(OrderedMap { entries: map.entries.clone() }));
    assert_eq!(map.encode(), good);
    let bad = object(&[("b", text("1")), ("a", JsonValue::Bool(true))]);
    assert_eq!(OrderedMap::<String>::decode(&bad), None);
    assert_eq!(OrderedMap::<String>::decode(&JsonValue::Array(vec![])), None);
    let nested = object(&[("react", object(&[("optional", JsonValue::Bool(true))]))]);
    assert_eq!(
        OrderedMap::<OrderedMap<bool>>::decode(&nested),
        Some(OrderedMap {
            entries: vec![(
                "react".to_owned(),
                OrderedMap { entries: vec![("optional".to_owned(), true)] }
            )]
        })
    );
    let any = object(&[("x", JsonValue::Null), ("y", JsonValue::Array(vec![]))]);
    let values = OrderedMap::<JsonValue>::decode(&any).unwrap();
    assert_eq!(values.get("x"), Some(&JsonValue::Null));
    assert_eq!(values.encode(), any);
}

#[test]
fn required_optional_and_defaulted_attributes_differ_on_absence_and_null() {
    let name = text("n");
    assert_eq!(decode_required::<String>(Some(&name)), Some("n".to_owned()));
    assert_eq!(decode_required::<String>(None), None);
    assert_eq!(decode_required::<String>(Some(&JsonValue::Null)), None);

    assert_eq!(decode_optional::<String>(Some(&name)), Some(Some("n".to_owned())));
    assert_eq!(decode_optional::<String>(None), Some(None));
    assert_eq!(decode_optional::<String>(Some(&JsonValue::Null)), Some(None));
    assert_eq!(decode_optional::<String>(Some(&JsonValue::Bool(true))), None);

    assert_eq!(decode_defaulted::<String>(Some(&name), "d".to_owned()), Some("n".to_owned()));
    assert_eq!(decode_defaulted::<String>(None, "d".to_owned()), Some("d".to_owned()));
    assert_eq!(decode_defaulted::<String>(Some(&JsonValue::Null), "d".to_owned()), None);
    assert_eq!(decode_defaulted::<bool>(None, false), Some(false));
}

#[test]
fn absent_values_are_left_out_of_attributes_and_null_in_records() {
    assert_eq!(encode_optional::<String>(&None), None);
    assert_eq!(encode_optional(&Some("a".to_owned())), Some(text("a")));
    assert_eq!(encode_nullable::<String>(&None), JsonValue::Null);
    assert_eq!(encode_nullable(&Some("a".to_owned())), text("a"));
}

#[test]
fn records_are_read_by_member_name() {
    let record = object(&[("email", text("e")), ("extra", JsonValue::Null), ("url", text("u"))]);
    assert_eq!(
        PackageBugsRecord::decode(&record),
        Some(PackageBugsRecord { url: "u".to_owned(), email: "e".to_owned() })
    );
    assert_eq!(PackageBugsRecord::decode(&object(&[("url", text("u"))])), None);
    assert_eq!(
        PackageBugsRecord { url: "u".to_owned(), email: "e".to_owned() }.encode(),
        object(&[("url", text("u")), ("email", text("e"))])
    );
    assert_eq!(
        PackageDirectories::decode(&object(&[])),
        Some(PackageDirectories { bin: None, man: None })
    );
    assert_eq!(PackageDirectories::decode(&object(&[("bin", JsonValue::Bool(true))])), None);
}

#[test]
fn default_records_are_empty() {
    assert_eq!(
        PackageBugsRecord::default(),
        PackageBugsRecord { url: String::new(), email: String::new() }
    );
    assert_eq!(
        PackagePeopleRecord::default(),
        PackagePeopleRecord { name: String::new(), email: None, url: None }
    );
    assert_eq!(
        PackageFundingRecord::default(),
        PackageFundingRecord { type_: String::new(), url: String::new() }
    );
    assert_eq!(PackageDirectories::default(), PackageDirectories { bin: None, man: None });
    assert_eq!(
        PackageRepositoryRecord::default(),
        PackageRepositoryRecord { type_: String::new(), url: String::new(), directory: None }
    );
    assert_eq!(WriteOptions::default(), WriteOptions { pretty: false });
}

#[test]
fn attributes_are_counted_in_schema_order() {
    assert_eq!(ATTRIBUTE_COUNT, 36);
    assert_eq!(attribute_index("name"), Some(0));
    assert_eq!(attribute_index("version"), Some(1));
    assert_eq!(attribute_index("main"), Some(12));
    assert_eq!(attribute_index("scripts"), Some(18));
    assert_eq!(attribute_index("devDependencies"), Some(21));
    assert_eq!(attribute_index("peerDependenciesMeta"), Some(23));
    assert_eq!(attribute_index("private"), Some(30));
    assert_eq!(attribute_index("type"), Some(33));
    assert_eq!(attribute_index("types"), Some(34));
    assert_eq!(attribute_index("typings"), Some(35));
    assert_eq!(attribute_index("dev_dependencies"), None);
    assert_eq!(attribute_index("Name"), None);
    assert_eq!(attribute_index(""), None);
    assert_eq!(attribute_index("foo"), None);
}

#[test]
fn unknown_members_are_those_that_no_attribute_names() {
    let members = vec![
        ("zeta".to_owned(), JsonValue::Null),
        ("name".to_owned(), text("n")),
        ("type".to_owned(), JsonValue::Bool(true)),
        ("alpha".to_owned(), text("a")),
        ("zeta".to_owned(), JsonValue::Bool(false)),
    ];
    assert_eq!(
        collect_unknowns(&members).entries,
        vec![
            ("zeta".to_owned(), JsonValue::Null),
            ("alpha".to_owned(), text("a")),
            ("zeta".to_owned(), JsonValue::Bool(false)),
        ]
    );
    assert_eq!(duplicate_members(&members), members);
}

#[test]
fn scripts_are_ignored_while_empty() {
    let mut scripts: OrderedMap<String> = OrderedMap::new();
    assert!(ignore_scripts(&scripts));
    scripts.insert("test".to_owned(), "jest".to_owned());
    assert!(!ignore_scripts(&scripts));
}
