use anki_ai_clients::client::AnkiClient;
use anki_ai_clients::error::ClientError;
use anki_ai_clients::notes::{
    CardsInfoParams, FindCardsParams, FindNotesParams, GetDeckNamesParams,
    GetModelFieldNamesParams, GetModelNamesParams, NotesInfoParams,
};
use anki_ai_clients::rpc::{
    parse_envelope, remote_message, resolve, AnkiRequest, AnkiResponse, JsonText, ToJson,
};

#[test]
fn test_anki_request_serialization() {
    let request = AnkiRequest::new("version", 6, None::<()>);
    let json = request.to_json();
    assert_eq!(json, r#"{"action":"version","version":6}"#);
}

#[test]
fn test_anki_request_with_params_serialization() {
    let params = GetDeckNamesParams { cards: Some(true) };
    let request = AnkiRequest::new("getDeckNames", 6, Some(params));
    let json = request.to_json();
    assert!(json.contains(r#"action":"getDeckNames""#));
    assert!(json.contains(r#"version":6"#));
    assert!(json.contains(r#"cards":true"#));
}

#[test]
fn test_anki_response_success_deserialization() {
    let json = r#"{"result":12345}"#;
    let raw = parse_envelope(json).expect("Failed to deserialize response");
    let typed = raw.result.as_ref().and_then(|v| v.as_u64());
    let response = resolve(raw, typed).expect("Failed to deserialize response");
    match response {
        AnkiResponse::Success { result } => {
            assert_eq!(result, 12345)
        }
        AnkiResponse::Error { .. } => {
            panic!("Expected success response")
        }
    }
}

#[test]
fn test_anki_response_error_deserialization() {
    let json = r#"{"error":"Test error","detail":"Test detail"}"#;
    let raw = parse_envelope(json).expect("Failed to deserialize response");
    let typed = raw.result.as_ref().and_then(|v| v.as_u64());
    let response = resolve(raw, typed).expect("Failed to deserialize response");
    match response {
        AnkiResponse::Success { .. } => {
            panic!("Expected error response")
        }
        AnkiResponse::Error { error, detail } => {
            assert_eq!(error, "Test error");
            assert_eq!(detail, Some("Test detail".to_string()));
        }
    }
}

#[test]
fn test_client_creation() {
    let client = AnkiClient::new();
    assert_eq!(client.url(), "http://localhost:8765");
    assert_eq!(client.protocol_version(), 6);
}

#[test]
fn test_client_with_custom_url() {
    let client = AnkiClient::with_url("http://custom:8765");
    assert_eq!(client.url(), "http://custom:8765");
}

#[test]
fn test_find_notes_params_serialization() {
    let params = FindNotesParams { query: "deck:Default".to_string() };
    let json = params.to_json();
    assert_eq!(json, r#"{"query":"deck:Default"}"#);
}

#[test]
fn test_notes_info_params_serialization() {
    let params = NotesInfoParams { notes: vec![123, 456, 789] };
    let json = params.to_json();
    let parsed: serde_json::Value = serde_json::from_str(&json).expect("Failed to parse JSON");
    assert_eq!(parsed["notes"][0], 123);
    assert_eq!(parsed["notes"][1], 456);
    assert_eq!(parsed["notes"][2], 789);
}

#[test]
fn test_cards_info_params_serialization() {
    let params = CardsInfoParams { cards: vec![111, 222, 333] };
    let json = params.to_json();
    let parsed: serde_json::Value = serde_json::from_str(&json).expect("Failed to parse JSON");
    assert_eq!(parsed["cards"][0], 111);
    assert_eq!(parsed["cards"][1], 222);
    assert_eq!(parsed["cards"][2], 333);
}

#[test]
fn envelope_error_without_detail_formats_error_alone() {
    let raw = parse_envelope(r#"{"error":"x"}"#).unwrap();
    let r = resolve::<u64>(raw, None).unwrap().into_result();
    assert_eq!(r, Err(ClientError::Remote("x".to_string())));
}

#[test]
fn envelope_error_with_detail_formats_both() {
    let raw = parse_envelope(r#"{"error":"x","detail":"y"}"#).unwrap();
    let r = resolve::<u64>(raw, None).unwrap().into_result();
    assert_eq!(r, Err(ClientError::Remote("x: y".to_string())));
    assert_eq!(remote_message("x", Some("y")), "x: y");
    assert_eq!(remote_message("x", None), "x");
}

#[test]
fn envelope_null_detail_counts_as_absent() {
    let raw = parse_envelope(r#"{"error":"x","detail":null}"#).unwrap();
    let f = raw.failure.clone().unwrap();
    assert_eq!(f.error, "x");
    assert_eq!(f.detail, None);
}

#[test]
fn envelope_success_result_comes_out() {
    let raw = parse_envelope(r#"{"result":12345}"#).unwrap();
    let typed = raw.result.as_ref().and_then(|v| v.as_u64());
    assert_eq!(resolve(raw, typed).unwrap().into_result(), Ok(12345u64));
}

#[test]
fn envelope_success_shape_is_tried_first() {
    let raw = parse_envelope(r#"{"result":7,"error":"ignored"}"#).unwrap();
    assert!(raw.failure.is_some());
    let typed = raw.result.as_ref().and_then(|v| v.as_u64());
    assert_eq!(resolve(raw, typed).unwrap().into_result(), Ok(7u64));
}

#[test]
fn envelope_mistyped_result_falls_back_to_error_shape() {
    let raw = parse_envelope(r#"{"result":null,"error":"collection is not available"}"#).unwrap();
    let typed = raw.result.as_ref().and_then(|v| v.as_u64());
    let r = resolve(raw, typed).unwrap().into_result();
    assert_eq!(r, Err(ClientError::Remote("collection is not available".to_string())));
}

#[test]
fn envelope_that_is_not_json_is_a_decode_error() {
    let r = parse_envelope("not json");
    assert!(matches!(r, Err(ClientError::Decode(_))));
    let r = parse_envelope("[1,2]");
    assert!(matches!(r, Err(ClientError::Decode(_))));
}

#[test]
fn envelope_of_neither_shape_is_a_decode_error() {
    let raw = parse_envelope(r#"{"foo":1}"#).unwrap();
    assert!(raw.result.is_none() && raw.failure.is_none());
    let r = resolve::<u64>(raw, None);
    assert_eq!(
        r.err(),
        Some(ClientError::Decode("Failed to parse Anki-Connect response".to_string()))
    );
    let raw = parse_envelope(r#"{"error":5}"#).unwrap();
    assert!(raw.failure.is_none());
}

#[test]
fn deck_names_without_flag_omits_params() {
    let client = AnkiClient::new();
    let request = client.get_deck_names_request(None);
    assert!(request.params.is_none());
    let json = request.to_json();
    assert_eq!(json, r#"{"action":"getDeckNames","version":6}"#);
    let parsed: serde_json::Value = serde_json::from_str(&json).unwrap();
    let obj = parsed.as_object().unwrap();
    assert_eq!(obj.len(), 2);
    assert!(!obj.contains_key("params"));
    assert_eq!(obj["action"], "getDeckNames");
    assert_eq!(obj["version"], 6);
}

#[test]
fn deck_names_with_flag_sends_params() {
    let client = AnkiClient::new();
    let request = client.get_deck_names_request(Some(false));
    assert_eq!(
        request.to_json(),
        r#"{"action":"getDeckNames","version":6,"params":{"cards":false}}"#
    );
}

#[test]
fn envelope_with_raw_params_round_trips() {
    let request = AnkiRequest::new(
        "addNote",
        6,
        Some(JsonText { text: r#"{"note":{"deckName":"Default"}}"#.to_string() }),
    );
    let json = request.to_json();
    let parsed: serde_json::Value = serde_json::from_str(&json).unwrap();
    assert_eq!(parsed["action"], "addNote");
    assert_eq!(parsed["version"], 6);
    assert_eq!(parsed["params"]["note"]["deckName"], "Default");
}

#[test]
fn query_text_is_escaped() {
    let params = FindCardsParams { query: "front:\"a b\"\\x".to_string() };
    let json = params.to_json();
    assert_eq!(json, r#"{"query":"front:\"a b\"\\x"}"#);
    let parsed: serde_json::Value = serde_json::from_str(&json).unwrap();
    assert_eq!(parsed["query"], "front:\"a b\"\\x");
}

#[test]
fn simple_params_serialize() {
    assert_eq!(GetDeckNamesParams { cards: None }.to_json(), "{}");
    assert_eq!(GetModelNamesParams {}.to_json(), "{}");
    assert_eq!(
        GetModelFieldNamesParams { model_name: "Basic".to_string() }.to_json(),
        r#"{"modelName":"Basic"}"#
    );
    assert_eq!(NotesInfoParams { notes: vec![] }.to_json(), r#"{"notes":[]}"#);
    assert_eq!(
        CardsInfoParams { cards: vec![0, 18446744073709551615] }.to_json(),
        r#"{"cards":[0,18446744073709551615]}"#
    );
}

#[test]
fn update_note_fields_false_is_a_failure() {
    let r = AnkiClient::update_note_fields_outcome(false);
    assert_eq!(r, Err(ClientError::Domain("Failed to update note fields".to_string())));
    assert_eq!(AnkiClient::update_note_fields_outcome(true), Ok(()));
}

#[test]
fn requests_carry_action_and_version() {
    let client = AnkiClient::with_url("http://custom:8765");
    let r = client.find_notes_request("deck:Default");
    assert_eq!(r.action, "findNotes");
    assert_eq!(r.version, 6);
    assert_eq!(r.params.unwrap().query, "deck:Default");
    let r = client.notes_info_request(vec![1, 2]);
    assert_eq!(r.to_json(), r#"{"action":"notesInfo","version":6,"params":{"notes":[1,2]}}"#);
    let r = client.version_request();
    assert_eq!(r.to_json(), r#"{"action":"version","version":6}"#);
    assert_eq!(client.get_model_names_request().action, "getModelNames");
    assert_eq!(client.find_cards_request("is:due").action, "findCards");
    assert_eq!(client.cards_info_request(vec![3]).action, "cardsInfo");
}

#[test]
fn default_client_is_the_local_one() {
    let client = AnkiClient::default();
    assert_eq!(client.url(), "http://localhost:8765");
    assert_eq!(client.protocol_version(), 6);
}
