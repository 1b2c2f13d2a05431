use modfeed::error::ServiceError;
use modfeed::gamebanana::convert_record_to_mod;
use modfeed::gamebanana::GameBanana;
use modfeed::json::JsonValue;
use modfeed::service::Service;
use modfeed::wire::decode_subfeed;
use modfeed::wire::SubfeedRecord;
use modfeed::wire::Submitter;

fn obj(fields: Vec<(&str, JsonValue)>) -> JsonValue {
    JsonValue::Object(fields.into_iter().map(|(k, v)| (k.to_string(), v)).collect())
}

fn text(s: &str) -> JsonValue {
    JsonValue::Text(s.to_string())
}

fn submitter_json(id: i64, name: &str) -> JsonValue {
    obj(vec![("_idRow", JsonValue::Int(id)), ("_sName", text(name))])
}

fn record_json(id: i64, name: &str, author: &str, version: Option<JsonValue>) -> JsonValue {
    let mut fields = vec![
        ("_idRow", JsonValue::Int(id)),
        ("_sName", text(name)),
        ("_tsDateAdded", JsonValue::Int(1700000000)),
        ("_tsDateModified", JsonValue::Int(1700000001)),
        ("_aSubmitter", submitter_json(1, author)),
    ];
    if let Some(v) = version {
        fields.push(("_sVersion", v));
    }
    obj(fields)
}

fn subfeed_json(records: Vec<JsonValue>) -> JsonValue {
    let metadata = obj(vec![
        ("_nRecordCount", JsonValue::Int(records.len() as i64)),
        ("_bIsComplete", JsonValue::Bool(true)),
    ]);
    obj(vec![("_aMetadata", metadata), ("_aRecords", JsonValue::Array(records))])
}

fn plain_record(id: i32, version: Option<&str>) -> SubfeedRecord {
    SubfeedRecord {
        id_row: id,
        name: "Recolor Pack".to_string(),
        date_added: 1700000000,
        date_modified: 1700000001,
        submitter: Submitter { id_row: 1, name: "Alice".to_string() },
        version: version.map(|v| v.to_string()),
    }
}

#[test]
fn single_record_maps_to_expected_mod() {
    let body = record_json(42, "Recolor Pack", "Alice", Some(text("1.2")));
    let m = GameBanana {}.get_mod(&body).unwrap();
    assert_eq!(m.id, "42");
    assert_eq!(m.name, "Recolor Pack");
    assert_eq!(m.service, "GameBanana");
    assert_eq!(m.author, "Alice");
    assert_eq!(m.version, "1.2");
}

#[test]
fn omitted_version_maps_to_sentinel() {
    let body = record_json(42, "Recolor Pack", "Alice", None);
    let m = GameBanana {}.get_mod(&body).unwrap();
    assert_eq!(m.version, "N/A");
}

#[test]
fn null_version_maps_to_sentinel() {
    let body = record_json(42, "Recolor Pack", "Alice", Some(JsonValue::Null));
    let m = GameBanana {}.get_mod(&body).unwrap();
    assert_eq!(m.version, "N/A");
}

#[test]
fn missing_required_field_is_decode_error() {
    let body = obj(vec![
        ("_idRow", JsonValue::Int(42)),
        ("_tsDateAdded", JsonValue::Int(1700000000)),
        ("_tsDateModified", JsonValue::Int(1700000001)),
        ("_aSubmitter", submitter_json(1, "Alice")),
    ]);
    let r = GameBanana {}.get_mod(&body);
    assert!(matches!(r, Err(ServiceError::Decode)));
}

#[test]
fn wrong_type_version_is_decode_error() {
    let body = record_json(42, "Recolor Pack", "Alice", Some(JsonValue::Int(12)));
    let r = GameBanana {}.get_mod(&body);
    assert!(matches!(r, Err(ServiceError::Decode)));
}

#[test]
fn wrong_type_name_is_decode_error() {
    let body = obj(vec![
        ("_idRow", JsonValue::Int(42)),
        ("_sName", JsonValue::Int(7)),
        ("_tsDateAdded", JsonValue::Int(1700000000)),
        ("_tsDateModified", JsonValue::Int(1700000001)),
        ("_aSubmitter", submitter_json(1, "Alice")),
    ]);
    let r = GameBanana {}.get_mod(&body);
    assert!(matches!(r, Err(ServiceError::Decode)));
}

#[test]
fn id_out_of_range_is_decode_error() {
    let body = record_json(2_147_483_648, "Recolor Pack", "Alice", Some(text("1.2")));
    let r = GameBanana {}.get_mod(&body);
    assert!(matches!(r, Err(ServiceError::Decode)));
}

#[test]
fn non_object_body_is_decode_error() {
    let r = GameBanana {}.get_mod(&JsonValue::Int(3));
    assert!(matches!(r, Err(ServiceError::Decode)));
    let r = GameBanana {}.get_mods(&JsonValue::Null);
    assert!(matches!(r, Err(ServiceError::Decode)));
}

#[test]
fn get_mods_maps_every_record_in_order() {
    let body = subfeed_json(vec![
        record_json(42, "Recolor Pack", "Alice", Some(text("1.2"))),
        record_json(7, "Extra Maps", "Bob", None),
    ]);
    let mods = GameBanana {}.get_mods(&body).unwrap();
    assert_eq!(mods.len(), 2);
    assert_eq!(mods[0].id, "42");
    assert_eq!(mods[0].version, "1.2");
    assert_eq!(mods[1].id, "7");
    assert_eq!(mods[1].name, "Extra Maps");
    assert_eq!(mods[1].author, "Bob");
    assert_eq!(mods[1].version, "N/A");
    for m in &mods {
        assert_eq!(m.service, "GameBanana");
    }
}

#[test]
fn get_mods_empty_listing_is_ok() {
    let mods = GameBanana {}.get_mods(&subfeed_json(vec![])).unwrap();
    assert!(mods.is_empty());
}

#[test]
fn malformed_record_aborts_whole_batch() {
    let bad = obj(vec![("_idRow", JsonValue::Int(7))]);
    let body = subfeed_json(vec![
        record_json(42, "Recolor Pack", "Alice", Some(text("1.2"))),
        bad,
    ]);
    let r = GameBanana {}.get_mods(&body);
    assert!(matches!(r, Err(ServiceError::Decode)));
}

#[test]
fn missing_metadata_is_decode_error() {
    let body = obj(vec![("_aRecords", JsonValue::Array(vec![]))]);
    let r = GameBanana {}.get_mods(&body);
    assert!(matches!(r, Err(ServiceError::Decode)));
}

#[test]
fn records_not_an_array_is_decode_error() {
    let metadata = obj(vec![
        ("_nRecordCount", JsonValue::Int(0)),
        ("_bIsComplete", JsonValue::Bool(true)),
    ]);
    let body = obj(vec![("_aMetadata", metadata), ("_aRecords", text("nope"))]);
    let r = GameBanana {}.get_mods(&body);
    assert!(matches!(r, Err(ServiceError::Decode)));
}

#[test]
fn decode_subfeed_reads_metadata() {
    let body = subfeed_json(vec![record_json(42, "Recolor Pack", "Alice", None)]);
    let page = decode_subfeed(&body).unwrap();
    assert_eq!(page.metadata.record_count, 1);
    assert!(page.metadata.is_complete);
    assert_eq!(page.records.len(), 1);
    assert_eq!(page.records[0].id_row, 42);
    assert_eq!(page.records[0].submitter.name, "Alice");
}

#[test]
fn first_binding_of_a_repeated_key_wins() {
    let body = obj(vec![
        ("_idRow", JsonValue::Int(42)),
        ("_sName", text("First")),
        ("_sName", text("Second")),
        ("_tsDateAdded", JsonValue::Int(1700000000)),
        ("_tsDateModified", JsonValue::Int(1700000001)),
        ("_aSubmitter", submitter_json(1, "Alice")),
    ]);
    let m = GameBanana {}.get_mod(&body).unwrap();
    assert_eq!(m.name, "First");
}

#[test]
fn convert_keeps_version_verbatim() {
    let m = convert_record_to_mod("GameBanana", &plain_record(42, Some("0.9-beta"))).unwrap();
    assert_eq!(m.version, "0.9-beta");
    let m = convert_record_to_mod("GameBanana", &plain_record(42, None)).unwrap();
    assert_eq!(m.version, "N/A");
}

#[test]
fn convert_stamps_the_given_service_name() {
    let m = convert_record_to_mod("Elsewhere", &plain_record(42, None)).unwrap();
    assert_eq!(m.service, "Elsewhere");
}

#[test]
fn ids_render_in_decimal() {
    assert_eq!(convert_record_to_mod("GameBanana", &plain_record(0, None)).unwrap().id, "0");
    assert_eq!(convert_record_to_mod("GameBanana", &plain_record(-7, None)).unwrap().id, "-7");
    assert_eq!(
        convert_record_to_mod("GameBanana", &plain_record(i32::MIN, None)).unwrap().id,
        "-2147483648"
    );
    assert_eq!(
        convert_record_to_mod("GameBanana", &plain_record(i32::MAX, None)).unwrap().id,
        "2147483647"
    );
}

#[test]
fn provider_name_and_endpoints() {
    let gb = GameBanana {};
    assert_eq!(gb.get_name(), "GameBanana");
    assert_eq!(
        gb.mods_url(),
        "https://gamebanana.com/apiv11/Game/8552/Subfeed?_csvModelInclusions=Mod"
    );
    assert_eq!(gb.mod_url("42"), "https://gamebanana.com/apiv11/Mod/42/ProfilePage");
}
