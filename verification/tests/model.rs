use dhesinta::dictionary::{DictPayload, Dictionary, DictionaryVisibility};
use dhesinta::entry::{
    field_insert, fields_from_pairs, CreateEntryPayload, Entry, Field, BIND_LIMIT,
};
use dhesinta::ident::NANOID_LEN;
use dhesinta::module::{Module, ModulePayload};
use dhesinta::time::{Timestamp, MAX_UNIX_SECS, MIN_UNIX_SECS};
use dhesinta::Nanoid;

fn id(s: &str) -> Nanoid {
    Nanoid(s.to_string())
}

fn is_safe(c: char) -> bool {
    c == '_' || c == '-' || c.is_ascii_alphanumeric()
}

fn field(entry: &str, k: &str, v: &str) -> Field {
    Field { entry_id: id(entry), key: k.to_string(), value: v.to_string() }
}

#[test]
fn visibility_names() {
    assert_eq!(DictionaryVisibility::Public.as_str(), "public");
    assert_eq!(DictionaryVisibility::Private.as_str(), "private");
    assert_eq!(DictionaryVisibility::Unlisted.as_str(), "unlisted");
    assert_eq!(DictionaryVisibility::default(), DictionaryVisibility::Public);
}

#[test]
fn fresh_ids_are_url_safe() {
    let a = Nanoid::default();
    let b = Nanoid::default();
    assert_eq!(a.0.chars().count(), NANOID_LEN);
    assert!(a.0.chars().all(is_safe));
    assert!(a != b);
    assert!(a == a.clone());
}

#[test]
fn field_from_tuple_copies_pair() {
    let k = "gloss".to_string();
    let v = "house".to_string();
    let f = Field::from_tuple(&id("e1"), (&k, &v));
    assert_eq!(f.entry_id.0, "e1");
    assert_eq!(f.key, "gloss");
    assert_eq!(f.value, "house");
}

#[test]
fn fields_follow_pairs_in_order() {
    let pairs = vec![("a".to_string(), "1".to_string()), ("b".to_string(), "2".to_string())];
    let fields = fields_from_pairs(&id("e9"), &pairs);
    assert_eq!(fields.len(), 2);
    assert_eq!(fields[0].key, "a");
    assert_eq!(fields[0].value, "1");
    assert_eq!(fields[1].key, "b");
    assert_eq!(fields[1].value, "2");
    assert!(fields.iter().all(|f| f.entry_id.0 == "e9"));
}

#[test]
fn timestamps_format_as_rfc3339() {
    let t = Timestamp::from_unix(0, 0).unwrap();
    assert_eq!(t.to_rfc3339(), "1970-01-01T00:00:00+00:00");
    let t = Timestamp::from_unix(1431648000, 500_000_000).unwrap();
    assert_eq!(t.secs(), 1431648000);
    assert_eq!(t.nanos(), 500_000_000);
    assert_eq!(t.to_rfc3339(), "2015-05-15T00:00:00.500+00:00");
    assert!(Timestamp::from_unix(i64::MAX, 0).is_none());
    assert!(Timestamp::from_unix(0, 1_500_000_000).is_none());
    let now = Timestamp::now();
    assert!(now.secs() > 1_600_000_000);
}

#[test]
fn dictionary_from_payload_and_row() {
    let now = Timestamp::from_unix(1431648000, 0).unwrap();
    let payload = DictPayload {
        name: "Toki".to_string(),
        description: Some("a small language".to_string()),
        owner_id: id("owner"),
        visibility: DictionaryVisibility::Unlisted,
    };
    let d = Dictionary::assemble(payload, id("d1"), now.clone());
    assert_eq!(d.id.0, "d1");
    assert_eq!(d.owner_id.0, "owner");
    let row = d.insert_row();
    assert_eq!(row.id, "d1");
    assert_eq!(row.owner_id, "owner");
    assert_eq!(row.name, "Toki");
    assert_eq!(row.description.as_deref(), Some("a small language"));
    assert_eq!(row.visibility, "unlisted");
    assert_eq!(row.created_at, "2015-05-15T00:00:00+00:00");
    assert_eq!(row.updated_at, "2015-05-15T00:00:00+00:00");
    assert_eq!(d.owner().0, "owner");
}

#[test]
fn dictionary_created_under_fresh_id() {
    let payload = DictPayload {
        name: "n".to_string(),
        description: None,
        owner_id: id("o"),
        visibility: DictionaryVisibility::Private,
    };
    let d = Dictionary::create_from(payload, Timestamp::now());
    assert_eq!(d.id.0.len(), NANOID_LEN);
    assert!(d.id.0.chars().all(is_safe));
    assert_eq!(d.visibility, DictionaryVisibility::Private);
    assert!(d.insert_row().description.is_none());
}

#[test]
fn entry_fields_belong_to_entry() {
    let payload = CreateEntryPayload {
        dictionary_id: id("d"),
        word: "word".to_string(),
        fields: vec![("pos".to_string(), "noun".to_string())],
    };
    let e = Entry::create_from(payload, id("me"), Timestamp::from_unix(0, 0).unwrap());
    assert_eq!(e.id.0.len(), NANOID_LEN);
    assert_eq!(e.owner_id.0, "me");
    assert_eq!(e.dictionary_id.0, "d");
    assert_eq!(e.fields.len(), 1);
    assert_eq!(e.fields[0].entry_id, e.id);
    let row = e.insert_row();
    assert_eq!(row.word, "word");
    assert_eq!(row.owner_id, "me");
    assert_eq!(row.dictionary_id, "d");
    assert_eq!(row.created_at, "1970-01-01T00:00:00+00:00");
}

#[test]
fn loaded_fields_attach_to_loaded_entry() {
    let payload = CreateEntryPayload { dictionary_id: id("d"), word: "w".to_string(), fields: vec![] };
    let e = Entry::assemble(payload, id("e"), id("o"), Timestamp::from_unix(5, 0).unwrap());
    assert!(e.fields.is_empty());
    let loaded = Entry::with_loaded_fields(Some(e), vec![field("e", "k", "v")]).unwrap();
    assert_eq!(loaded.id.0, "e");
    assert_eq!(loaded.fields.len(), 1);
    assert_eq!(loaded.fields[0].value, "v");
    assert!(Entry::with_loaded_fields(None, vec![field("e", "k", "v")]).is_none());
}

#[test]
fn later_fields_override_earlier_ones() {
    let payload = CreateEntryPayload { dictionary_id: id("d"), word: "w".to_string(), fields: vec![] };
    let mut e = Entry::assemble(payload, id("e"), id("o"), Timestamp::from_unix(5, 0).unwrap());
    e.fields = vec![field("e", "a", "1"), field("e", "b", "2"), field("e", "a", "3")];
    let mut pairs = e.field_pairs();
    pairs.sort();
    assert_eq!(pairs, vec![("a".to_string(), "3".to_string()), ("b".to_string(), "2".to_string())]);
}

#[test]
fn field_insert_statement() {
    let st = field_insert(&vec![field("e", "a", "1"), field("e", "b", "2")]);
    assert_eq!(
        st.sql,
        "insert into entry_fields (entry_id, field_key, field_value) VALUES (?, ?, ?), (?, ?, ?)"
    );
    assert_eq!(st.binds, vec!["e", "a", "1", "e", "b", "2"]);
    let one = field_insert(&vec![field("x", "k", "v")]);
    assert_eq!(one.sql, "insert into entry_fields (entry_id, field_key, field_value) VALUES (?, ?, ?)");
    let none = field_insert(&vec![]);
    assert_eq!(none.sql, "insert into entry_fields (entry_id, field_key, field_value) VALUES ");
    assert!(none.binds.is_empty());
}

#[test]
fn field_insert_stops_at_bind_limit() {
    let many: Vec<Field> = (0..(BIND_LIMIT / 4 + 10)).map(|i| field("e", &i.to_string(), "v")).collect();
    let st = field_insert(&many);
    assert_eq!(st.binds.len(), 3 * (BIND_LIMIT / 4));
    assert_eq!(st.binds.len(), 49149);
    assert!(st.binds.len() <= BIND_LIMIT);
    assert_eq!(st.sql.matches('?').count(), st.binds.len());
    assert_eq!(st.binds[3 * 16382 + 1], "16382");
}

#[test]
fn module_from_payload() {
    let m = Module::assemble(ModulePayload { owner_id: id("o"), content: "return {}".to_string() }, id("m"));
    let row = m.insert_row();
    assert_eq!(row.id, "m");
    assert_eq!(row.owner_id, "o");
    assert_eq!(row.content, "return {}");
    let fresh = Module::create_from(ModulePayload { owner_id: id("o"), content: String::new() });
    assert_eq!(fresh.id.0.len(), NANOID_LEN);
    assert_eq!(fresh.owner().0, "o");
}

#[test]
fn payload_defaults() {
    let d = DictPayload::default();
    assert!(d.name.is_empty());
    assert!(d.description.is_none());
    assert_eq!(d.owner_id.0.len(), NANOID_LEN);
    assert_eq!(d.visibility, DictionaryVisibility::Public);
    let m = ModulePayload::default();
    assert!(m.content.is_empty());
    assert!(m.owner_id.0.chars().all(is_safe));
    let module = Module::default();
    assert_eq!(module.id.0.len(), NANOID_LEN);
    assert_ne!(module.id, module.owner_id);
    assert!(module.content.is_empty());
}

#[test]
fn timestamp_range_matches_chrono() {
    assert!(Timestamp::from_unix(MIN_UNIX_SECS, 0).is_some());
    assert!(Timestamp::from_unix(MIN_UNIX_SECS - 1, 999_999_999).is_none());
    assert!(Timestamp::from_unix(MAX_UNIX_SECS, 999_999_999).is_some());
    assert!(Timestamp::from_unix(MAX_UNIX_SECS + 1, 0).is_none());
    assert_eq!(Timestamp::from_unix(MIN_UNIX_SECS, 0).unwrap().to_rfc3339(), "-262143-01-01T00:00:00+00:00");
    assert_eq!(Timestamp::from_unix(MAX_UNIX_SECS, 0).unwrap().to_rfc3339(), "+262142-12-31T23:59:59+00:00");
    assert!(Timestamp::from_unix(59, 1_500_000_000).is_some());
    assert!(Timestamp::from_unix(58, 1_500_000_000).is_none());
    assert!(Timestamp::from_unix(59, 2_000_000_000).is_none());
    let now = Timestamp::now();
    assert!(now.secs() >= 0);
    assert!(now.nanos() < 1_000_000_000);
}
