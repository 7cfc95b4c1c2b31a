use mljboard_client::codec::{
    decimal_text, decode_server, encode_client, encode_server, find, server_from_document,
    DecodeError, Document, Field, Scalar,
};
use mljboard_client::json::{HOSClientReq, HOSServerReq};

fn text(s: &str) -> Option<String> {
    Some(s.to_string())
}

#[test]
fn pairing_with_code_has_type_and_code() {
    let frame = encode_client(&HOSClientReq::pairing(text("abc")));
    assert_eq!(frame, "{\"type\":\"pairing\",\"code\":\"abc\"}");
}

#[test]
fn pairing_without_code_has_type_only() {
    let frame = encode_client(&HOSClientReq::pairing(None));
    assert_eq!(frame, "{\"type\":\"pairing\"}");
    assert!(!frame.contains("null"));
    assert!(!frame.contains("id"));
    assert!(!frame.contains("status"));
    assert!(!frame.contains("content"));
}

#[test]
fn response_has_every_field_in_order() {
    let envelope = HOSClientReq::response(text("42"), text("tok"), 200, "b2s=".to_string());
    assert_eq!(
        encode_client(&envelope),
        "{\"type\":\"response\",\"id\":\"42\",\"code\":\"tok\",\"status\":200,\"content\":\"b2s=\"}"
    );
}

#[test]
fn response_without_code_omits_it() {
    let envelope = HOSClientReq::response(text("7"), None, 404, String::new());
    assert_eq!(
        encode_client(&envelope),
        "{\"type\":\"response\",\"id\":\"7\",\"status\":404,\"content\":\"\"}"
    );
}

#[test]
fn response_without_id_omits_it() {
    let envelope = HOSClientReq::response(None, None, 500, "YQ==".to_string());
    assert_eq!(
        encode_client(&envelope),
        "{\"type\":\"response\",\"status\":500,\"content\":\"YQ==\"}"
    );
}

#[test]
fn constructors_fill_the_fields() {
    assert_eq!(
        HOSClientReq::pairing(text("c")),
        HOSClientReq {
            _type: "pairing".to_string(),
            id: None,
            code: text("c"),
            status: None,
            content: None,
        }
    );
    assert_eq!(
        HOSClientReq::response(text("1"), None, 204, "x".to_string()),
        HOSClientReq {
            _type: "response".to_string(),
            id: text("1"),
            code: None,
            status: Some(204),
            content: text("x"),
        }
    );
}

#[test]
fn strings_are_quoted_and_escaped() {
    let frame = encode_client(&HOSClientReq::pairing(text("a\"b\\c\n")));
    assert_eq!(frame, "{\"type\":\"pairing\",\"code\":\"a\\\"b\\\\c\\n\"}");
}

#[test]
fn decimal_text_of_small_and_large_numbers() {
    assert_eq!(decimal_text(0), "0");
    assert_eq!(decimal_text(7), "7");
    assert_eq!(decimal_text(10), "10");
    assert_eq!(decimal_text(200), "200");
    assert_eq!(decimal_text(404), "404");
    assert_eq!(decimal_text(65535), "65535");
}

#[test]
fn decode_reads_a_get_request() {
    let got = decode_server("{\"type\":\"request\",\"method\":\"GET\",\"url\":\"status\",\"id\":\"42\"}");
    assert_eq!(
        got,
        Ok(HOSServerReq {
            _type: "request".to_string(),
            method: "GET".to_string(),
            url: "status".to_string(),
            id: text("42"),
        })
    );
}

#[test]
fn decode_accepts_absent_and_null_id() {
    let absent = decode_server("{\"type\":\"request\",\"method\":\"GET\",\"url\":\"a/b\"}");
    assert_eq!(absent.unwrap().id, None);
    let null = decode_server("{\"type\":\"request\",\"method\":\"GET\",\"url\":\"a/b\",\"id\":null}");
    assert_eq!(null.unwrap().id, None);
}

#[test]
fn decode_passes_over_unknown_members_and_kinds() {
    let got = decode_server("{\"extra\":[1,2],\"type\":\"ping\",\"method\":\"PUT\",\"url\":\"\"}");
    assert_eq!(
        got,
        Ok(HOSServerReq {
            _type: "ping".to_string(),
            method: "PUT".to_string(),
            url: String::new(),
            id: None,
        })
    );
}

#[test]
fn decode_names_the_missing_field() {
    assert_eq!(
        decode_server("{\"method\":\"GET\",\"url\":\"x\"}"),
        Err(DecodeError::Missing(Field::Kind))
    );
    assert_eq!(
        decode_server("{\"type\":\"request\",\"url\":\"x\",\"id\":\"1\"}"),
        Err(DecodeError::Missing(Field::Method))
    );
    assert_eq!(
        decode_server("{\"type\":\"request\",\"method\":\"GET\"}"),
        Err(DecodeError::Missing(Field::Url))
    );
    assert_eq!(decode_server("{}"), Err(DecodeError::Missing(Field::Kind)));
}

#[test]
fn decode_refuses_fields_that_hold_no_text() {
    assert_eq!(
        decode_server("{\"type\":1,\"method\":\"GET\",\"url\":\"x\"}"),
        Err(DecodeError::NotText(Field::Kind))
    );
    assert_eq!(
        decode_server("{\"type\":\"request\",\"method\":null,\"url\":\"x\"}"),
        Err(DecodeError::NotText(Field::Method))
    );
    assert_eq!(
        decode_server("{\"type\":\"request\",\"method\":\"GET\",\"url\":{}}"),
        Err(DecodeError::NotText(Field::Url))
    );
    assert_eq!(
        decode_server("{\"type\":\"request\",\"method\":\"GET\",\"url\":\"x\",\"id\":42}"),
        Err(DecodeError::NotText(Field::Id))
    );
}

#[test]
fn decode_refuses_what_is_no_object() {
    assert_eq!(decode_server("[1,2,3]"), Err(DecodeError::NotAnObject));
    assert_eq!(decode_server("\"request\""), Err(DecodeError::NotAnObject));
    assert_eq!(decode_server("null"), Err(DecodeError::NotAnObject));
}

#[test]
fn decode_refuses_what_is_no_json() {
    assert_eq!(decode_server(""), Err(DecodeError::Malformed));
    assert_eq!(decode_server("{\"type\":"), Err(DecodeError::Malformed));
    assert_eq!(decode_server("hello"), Err(DecodeError::Malformed));
}

#[test]
fn server_envelope_round_trip() {
    let with_id = HOSServerReq {
        _type: "request".to_string(),
        method: "GET".to_string(),
        url: "a \"quoted\" path/\u{e9}".to_string(),
        id: text("42"),
    };
    let frame = encode_server(&with_id);
    assert_eq!(decode_server(&frame), Ok(with_id));
    let without_id = HOSServerReq {
        _type: "other".to_string(),
        method: "POST".to_string(),
        url: String::new(),
        id: None,
    };
    let frame = encode_server(&without_id);
    assert_eq!(frame, "{\"type\":\"other\",\"method\":\"POST\",\"url\":\"\"}");
    assert_eq!(decode_server(&frame), Ok(without_id));
}

#[test]
fn find_gives_the_last_member_with_the_key() {
    let members = vec![
        ("a".to_string(), Scalar::Null),
        ("b".to_string(), Scalar::Other),
        ("a".to_string(), Scalar::Text("x".to_string())),
    ];
    assert_eq!(find(&members, "a"), Some(2));
    assert_eq!(find(&members, "b"), Some(1));
    assert_eq!(find(&members, "c"), None);
    assert_eq!(find(&vec![], "a"), None);
}

#[test]
fn server_from_document_reads_members() {
    let members = vec![
        ("url".to_string(), Scalar::Text("u".to_string())),
        ("type".to_string(), Scalar::Text("request".to_string())),
        ("method".to_string(), Scalar::Text("GET".to_string())),
        ("id".to_string(), Scalar::Null),
    ];
    assert_eq!(
        server_from_document(&Document::Object(members)),
        Ok(HOSServerReq {
            _type: "request".to_string(),
            method: "GET".to_string(),
            url: "u".to_string(),
            id: None,
        })
    );
    assert_eq!(server_from_document(&Document::Other), Err(DecodeError::NotAnObject));
    let number = vec![("type".to_string(), Scalar::Number(3))];
    assert_eq!(
        server_from_document(&Document::Object(number)),
        Err(DecodeError::NotText(Field::Kind))
    );
}
