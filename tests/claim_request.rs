use issuer_claim::claim_request::{create_claim_request_from_str, ClaimRequest, Field, ParseError};

const CLAIM_REQ_STRING: &str = r#"{
           "msg_type":"CLAIM_REQUEST",
           "version":"0.1",
           "to_did":"BnRXf8yDMUwGyZVDkSENeq",
           "from_did":"GxtnGN6ypZYgEqcftSQFnC",
           "iid":"cCanHnpFAD",
           "mid":"",
           "blinded_ms":{
              "prover_did":"FQ7wPBUgSPnDGJnS1EYjTK",
              "u":"923...607",
              "ur":null
           },
           "issuer_did":"QTrbV4raAcND4DWWzBmdsh",
           "schema_seq_no":48,
           "optional_data":{
              "terms_of_service":"<Large block of text>",
              "price":6
           }
        }"#;

fn example_without(key: &str) -> String {
    let mut v: serde_json::Value = serde_json::from_str(CLAIM_REQ_STRING).unwrap();
    v.as_object_mut().unwrap().remove(key);
    serde_json::to_string(&v).unwrap()
}

fn example_with(key: &str, value: serde_json::Value) -> String {
    let mut v: serde_json::Value = serde_json::from_str(CLAIM_REQ_STRING).unwrap();
    v.as_object_mut().unwrap().insert(key.to_string(), value);
    serde_json::to_string(&v).unwrap()
}

#[test]
fn parses_example_message() {
    let c = create_claim_request_from_str(CLAIM_REQ_STRING).unwrap();
    assert_eq!(c.to_did, "BnRXf8yDMUwGyZVDkSENeq");
    assert_eq!(c.from_did, "GxtnGN6ypZYgEqcftSQFnC");
    assert_eq!(c.iid, "cCanHnpFAD");
    assert_eq!(c.mid, "");
    assert_eq!(c.issuer_did, "QTrbV4raAcND4DWWzBmdsh");
    assert_eq!(c.schema_seq_no, 48);
    assert_eq!(c.blinded_master_secret.prover_did, "FQ7wPBUgSPnDGJnS1EYjTK");
    assert_eq!(c.blinded_master_secret.u, "923...607");
    assert_eq!(c.blinded_master_secret.ur, None);
    assert_eq!(c.optional_data["price"], serde_json::Value::from(6u64));
    assert_eq!(c.optional_data["terms_of_service"], serde_json::Value::from("<Large block of text>"));
}

#[test]
fn missing_issuer_did_is_reported() {
    let r = create_claim_request_from_str(&example_without("issuer_did"));
    assert_eq!(r.unwrap_err(), ParseError::MissingField(Field::IssuerDid));
    assert_eq!(Field::IssuerDid.key(), "issuer_did");
}

#[test]
fn missing_optional_data_is_reported() {
    let r = create_claim_request_from_str(&example_without("optional_data"));
    assert_eq!(r.unwrap_err(), ParseError::MissingField(Field::OptionalData));
}

#[test]
fn empty_to_did_is_reported_missing() {
    let r = create_claim_request_from_str(&example_with("to_did", serde_json::Value::from("")));
    assert_eq!(r.unwrap_err(), ParseError::MissingField(Field::ToDid));
}

#[test]
fn wrong_msg_type_is_envelope_mismatch() {
    let r = create_claim_request_from_str(&example_with("msg_type", serde_json::Value::from("CLAIM_OFFER")));
    assert_eq!(r.unwrap_err(), ParseError::EnvelopeMismatch(Field::MsgType));
}

#[test]
fn unknown_version_is_envelope_mismatch() {
    let r = create_claim_request_from_str(&example_with("version", serde_json::Value::from("0.2")));
    assert_eq!(r.unwrap_err(), ParseError::EnvelopeMismatch(Field::Version));
}

#[test]
fn text_seq_no_is_type_mismatch() {
    let r = create_claim_request_from_str(&example_with("schema_seq_no", serde_json::Value::from("48")));
    assert_eq!(r.unwrap_err(), ParseError::TypeMismatch(Field::SchemaSeqNo));
}

#[test]
fn negative_seq_no_is_type_mismatch() {
    let r = create_claim_request_from_str(&example_with("schema_seq_no", serde_json::Value::from(-1i64)));
    assert_eq!(r.unwrap_err(), ParseError::TypeMismatch(Field::SchemaSeqNo));
}

#[test]
fn largest_seq_no_is_read() {
    let r = create_claim_request_from_str(&example_with("schema_seq_no", serde_json::Value::from(u64::MAX)));
    assert_eq!(r.unwrap().schema_seq_no, u64::MAX);
}

#[test]
fn blinded_ms_as_text_is_type_mismatch() {
    let r = create_claim_request_from_str(&example_with("blinded_ms", serde_json::Value::from("x")));
    assert_eq!(r.unwrap_err(), ParseError::TypeMismatch(Field::BlindedMs));
}

#[test]
fn revocation_part_is_read_when_present() {
    let mut bms = serde_json::Map::new();
    bms.insert("prover_did".to_string(), serde_json::Value::from("P"));
    bms.insert("u".to_string(), serde_json::Value::from("11"));
    bms.insert("ur".to_string(), serde_json::Value::from("22"));
    let r = create_claim_request_from_str(&example_with("blinded_ms", serde_json::Value::from(bms)));
    let c = r.unwrap();
    assert_eq!(c.blinded_master_secret.u, "11");
    assert_eq!(c.blinded_master_secret.ur, Some("22".to_string()));
}

#[test]
fn invalid_text_is_malformed() {
    let r = create_claim_request_from_str("{\"msg_type\":");
    assert_eq!(r.unwrap_err(), ParseError::Malformed);
}

#[test]
fn non_object_message_is_missing_msg_type() {
    let r = create_claim_request_from_str("[1, 2]");
    assert_eq!(r.unwrap_err(), ParseError::MissingField(Field::MsgType));
}

#[test]
fn round_trip_keeps_every_field() {
    let mut data = serde_json::Map::new();
    data.insert("terms_of_service".to_string(), serde_json::Value::from("<Large block of text>"));
    data.insert("price".to_string(), serde_json::Value::from(6u64));
    data.insert("x_vendor_note".to_string(), serde_json::Value::from("kept"));
    let text = example_with("optional_data", serde_json::Value::from(data));
    let c = create_claim_request_from_str(&text).unwrap();
    let written = serde_json::to_string(&c.to_json_value()).unwrap();
    let d = create_claim_request_from_str(&written).unwrap();
    assert_eq!(d.to_did, c.to_did);
    assert_eq!(d.from_did, c.from_did);
    assert_eq!(d.iid, c.iid);
    assert_eq!(d.mid, c.mid);
    assert_eq!(d.issuer_did, c.issuer_did);
    assert_eq!(d.schema_seq_no, c.schema_seq_no);
    assert_eq!(d.blinded_master_secret.prover_did, c.blinded_master_secret.prover_did);
    assert_eq!(d.blinded_master_secret.u, c.blinded_master_secret.u);
    assert_eq!(d.blinded_master_secret.ur, c.blinded_master_secret.ur);
    assert_eq!(d.optional_data, c.optional_data);
    assert_eq!(d.optional_data["x_vendor_note"], serde_json::Value::from("kept"));
    let original: serde_json::Value = serde_json::from_str(&text).unwrap();
    assert_eq!(c.to_json_value(), original);
}

#[test]
fn written_message_carries_envelope() {
    let c = create_claim_request_from_str(CLAIM_REQ_STRING).unwrap();
    let v = c.to_json_value();
    assert_eq!(v["msg_type"], serde_json::Value::from("CLAIM_REQUEST"));
    assert_eq!(v["version"], serde_json::Value::from("0.1"));
    assert_eq!(v["schema_seq_no"], serde_json::Value::from(48u64));
    assert!(v["blinded_ms"]["ur"].is_null());
    let again = ClaimRequest::create_from_api_msg_json(&v).unwrap();
    assert_eq!(again.issuer_did, "QTrbV4raAcND4DWWzBmdsh");
}
