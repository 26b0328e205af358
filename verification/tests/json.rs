use fricu_server::error::AppError;
use fricu_server::json::{decode_document, encode_payload};
use serde_json::{Number, Value};

fn activity() -> Value {
    let mut entry = serde_json::Map::new();
    entry.insert("date".to_string(), Value::String("2026-01-01T00:00:00Z".to_string()));
    entry.insert("sport".to_string(), Value::String("cycling".to_string()));
    entry.insert("durationSec".to_string(), Value::Number(Number::from(3600)));
    entry.insert("distanceKm".to_string(), Value::Number(Number::from_f64(40.1).unwrap()));
    entry.insert("tss".to_string(), Value::Number(Number::from(70)));
    Value::Array(vec![Value::Object(entry)])
}

#[test]
fn decode_document_reads_the_defaults() {
    assert_eq!(decode_document("{}"), Ok(Value::Object(serde_json::Map::new())));
    assert_eq!(decode_document("[]"), Ok(Value::Array(Vec::new())));
}

#[test]
fn decode_document_reads_a_value_not_its_text() {
    let expected = Value::Array(vec![Value::Number(Number::from(1)), Value::Number(Number::from(2))]);
    assert_eq!(decode_document(" [1, 2] "), Ok(expected));
    assert_ne!(decode_document("[1, 2]"), Ok(Value::String("[1, 2]".to_string())));
}

#[test]
fn decode_document_reports_text_that_is_not_json() {
    assert_eq!(
        decode_document("[1, 2"),
        Err(AppError::Decode("EOF while parsing a list at line 1 column 5".to_string()))
    );
    assert_eq!(
        decode_document(""),
        Err(AppError::Decode("EOF while parsing a value at line 1 column 0".to_string()))
    );
}

#[test]
fn decode_document_rejects_text_after_the_value() {
    assert_eq!(
        decode_document("{} {}"),
        Err(AppError::Decode("trailing characters at line 1 column 4".to_string()))
    );
}

#[test]
fn encode_payload_writes_compact_text() {
    assert_eq!(encode_payload("{}"), Ok("{}".to_string()));
    assert_eq!(encode_payload("null"), Ok("null".to_string()));
    assert_eq!(
        encode_payload(&serde_json::to_string_pretty(&activity()).unwrap()),
        Ok("[{\"date\":\"2026-01-01T00:00:00Z\",\"distanceKm\":40.1,\"durationSec\":3600,\"sport\":\"cycling\",\"tss\":70}]".to_string())
    );
}

#[test]
fn encode_payload_drops_insignificant_space() {
    assert_eq!(encode_payload(" { \"a\" : [ 1 , 2 ] } "), Ok("{\"a\":[1,2]}".to_string()));
    assert_eq!(encode_payload("[\n]"), Ok("[]".to_string()));
}

#[test]
fn encode_payload_rejects_text_that_is_not_json() {
    assert_eq!(
        encode_payload("not json"),
        Err(AppError::InvalidPayload("expected ident at line 1 column 2".to_string()))
    );
    assert_eq!(
        encode_payload("{\"a\":}"),
        Err(AppError::InvalidPayload("expected value at line 1 column 6".to_string()))
    );
}

#[test]
fn encoded_payload_decodes_to_the_same_value() {
    let text = encode_payload(&serde_json::to_string_pretty(&activity()).unwrap()).unwrap();
    assert_eq!(decode_document(&text), Ok(activity()));
    assert_eq!(encode_payload(&text), Ok(text));
}
