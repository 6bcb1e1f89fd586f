use std::collections::BTreeMap;

use docclient::interpret_fetch_body;
use docclient::interpret_write_body;
use docclient::ClientError;

fn payload_of(r: Result<Option<serde_json::Value>, ClientError>) -> Option<serde_json::Value> {
    match r {
        Ok(p) => p,
        Err(e) => panic!("expected a payload, got error: {}", e.message()),
    }
}

#[test]
fn fetch_dne_yields_no_value() {
    let r = interpret_fetch_body("{\"exc_type\":\"DoesNotExistError\"}");
    assert!(matches!(payload_of(r), None));
}

#[test]
fn fetch_dne_wins_over_exception() {
    let r = interpret_fetch_body("{\"exc_type\":\"DoesNotExistError\",\"exception\":\"boom\"}");
    assert!(matches!(payload_of(r), None));
}

#[test]
fn fetch_exception_yields_remote_exception() {
    let r = interpret_fetch_body("{\"exception\":\"boom\"}");
    match r {
        Err(ClientError::RemoteException(m)) => {
            assert!(m.contains("boom"));
        },
        _ => panic!("expected a remote exception"),
    }
}

#[test]
fn fetch_exception_message_carries_server_text() {
    let r = interpret_fetch_body("{\"exception\":\"boom\"}");
    match r {
        Err(e) => {
            let m = e.message();
            assert!(m.starts_with("The response contains an exception: "));
            assert!(m.contains("boom"));
        },
        _ => panic!("expected an error"),
    }
}

#[test]
fn fetch_data_yields_payload() {
    let r = interpret_fetch_body("{\"data\": {\"foo\": \"bar\"}}");
    let v = payload_of(r).expect("expected a present payload");
    let parsed: BTreeMap<String, String> = serde_json::from_value(v).expect("matching shape");
    let mut expected = BTreeMap::new();
    expected.insert("foo".to_string(), "bar".to_string());
    assert_eq!(parsed, expected);
}

#[test]
fn fetch_empty_envelope_is_malformed() {
    let r = interpret_fetch_body("{}");
    assert!(matches!(r, Err(ClientError::MalformedResponse)));
}

#[test]
fn fetch_other_exc_type_is_not_absence() {
    let r = interpret_fetch_body("{\"exc_type\":\"ValidationError\",\"exception\":\"bad\"}");
    match r {
        Err(ClientError::RemoteException(m)) => assert!(m.contains("bad")),
        _ => panic!("expected a remote exception"),
    }
}

#[test]
fn fetch_non_string_exc_type_is_not_absence() {
    let r = interpret_fetch_body("{\"exc_type\":123}");
    assert!(matches!(r, Err(ClientError::MalformedResponse)));
}

#[test]
fn fetch_malformed_message_names_data_field() {
    let r = interpret_fetch_body("{}");
    match r {
        Err(e) => assert_eq!(e.message(), "Missing 'data' field in response"),
        _ => panic!("expected an error"),
    }
}

#[test]
fn fetch_non_json_body_is_decode_error() {
    let r = interpret_fetch_body("not json at all");
    match r {
        Err(ClientError::Decode(_)) => (),
        _ => panic!("expected a decode error"),
    }
}

#[test]
fn fetch_wrong_payload_shape_fails_downstream() {
    let r = interpret_fetch_body("{\"data\": {\"foo\": 123}}");
    let v = payload_of(r).expect("expected a present payload");
    let parsed = serde_json::from_value::<BTreeMap<String, String>>(v);
    let e = match parsed {
        Err(e) => ClientError::Deserialization(e.to_string()),
        Ok(_) => panic!("a number must not deserialize into a string field"),
    };
    assert!(matches!(e, ClientError::Deserialization(_)));
}

#[test]
fn write_exception_yields_remote_exception() {
    let r = interpret_write_body("{\"exception\":\"boom\"}");
    match r {
        Err(ClientError::RemoteException(m)) => assert!(m.contains("boom")),
        _ => panic!("expected a remote exception"),
    }
}

#[test]
fn write_empty_body_is_success() {
    assert!(interpret_write_body("").is_ok());
}

#[test]
fn write_unrelated_envelope_is_success() {
    assert!(interpret_write_body("{\"anything\": 1}").is_ok());
    assert!(interpret_write_body("{\"data\": {\"ok\": true}}").is_ok());
}
