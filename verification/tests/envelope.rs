use plugin_host::envelope::{DecodeError, PluginInfo, PluginRequest, PluginResponse};

fn info(name: &str, version: &str, author: &str) -> PluginInfo {
    PluginInfo { name: name.to_string(), version: version.to_string(), author: author.to_string() }
}

fn request(command: &str, data: &str) -> PluginRequest {
    PluginRequest { command: command.to_string(), data: data.to_string() }
}

fn response(success: bool, data: &str) -> PluginResponse {
    PluginResponse { success, data: data.to_string() }
}

#[test]
fn request_envelope_is_json_text_with_named_fields() {
    let bytes = request("greet", "World").encode();
    assert_eq!(bytes, br#"{"command":"greet","data":"World"}"#.to_vec());
}

#[test]
fn response_envelope_is_json_text_with_named_fields() {
    let bytes = response(true, "Hello, World!").encode();
    assert_eq!(bytes, br#"{"data":"Hello, World!","success":true}"#.to_vec());
}

#[test]
fn descriptor_envelope_is_json_text_with_named_fields() {
    let bytes = info("Example Plugin", "1.0.0", "Suspect").encode();
    assert_eq!(
        bytes,
        br#"{"author":"Suspect","name":"Example Plugin","version":"1.0.0"}"#.to_vec()
    );
}

#[test]
fn descriptor_round_trip() {
    let value = info("Example Plugin", "1.0.0", "Suspect");
    assert_eq!(PluginInfo::decode(&value.encode()), Ok(value));
}

#[test]
fn request_round_trip() {
    let value = request("reverse", "Hello, Rust!");
    assert_eq!(PluginRequest::decode(&value.encode()), Ok(value));
}

#[test]
fn response_round_trip() {
    let value = response(false, "Unknown Command: foo");
    assert_eq!(PluginResponse::decode(&value.encode()), Ok(value));
}

#[test]
fn round_trip_keeps_quotes_escapes_and_wide_characters() {
    let value = request("say \"hi\"\\", "line\nbreak\ttab \u{0} \u{7f} \u{e9} \u{1F600}");
    assert_eq!(PluginRequest::decode(&value.encode()), Ok(value));
    let value = response(true, "");
    assert_eq!(PluginResponse::decode(&value.encode()), Ok(value));
}

#[test]
fn decode_reads_fields_in_any_order_and_passes_over_others() {
    let bytes = br#" { "extra" : [1, {"a": null}], "data" : "x", "success" : false } "#;
    assert_eq!(PluginResponse::decode(bytes), Ok(response(false, "x")));
    let bytes = br#"{"version":"2","author":"a","name":"n","homepage":null}"#;
    assert_eq!(PluginInfo::decode(bytes), Ok(info("n", "2", "a")));
}

#[test]
fn decode_reads_escapes() {
    let bytes = br#"{"command":"greet","data":"a\"b\\c\n"}"#;
    assert_eq!(PluginRequest::decode(bytes), Ok(request("greet", "a\"b\\c\n")));
}

#[test]
fn decode_rejects_what_is_not_one_json_object() {
    assert_eq!(PluginRequest::decode(b""), Err(DecodeError::Syntax));
    assert_eq!(PluginRequest::decode(b"not json"), Err(DecodeError::Syntax));
    assert_eq!(PluginRequest::decode(br#"{"command":"greet","data":"x""#), Err(DecodeError::Syntax));
    assert_eq!(PluginRequest::decode(br#"["greet","x"]"#), Err(DecodeError::Syntax));
    assert_eq!(PluginRequest::decode(br#""greet""#), Err(DecodeError::Syntax));
    assert_eq!(PluginRequest::decode(b"null"), Err(DecodeError::Syntax));
    assert_eq!(
        PluginRequest::decode(br#"{"command":"greet","data":"x"} trailing"#),
        Err(DecodeError::Syntax)
    );
    assert_eq!(PluginInfo::decode(&[0xff, 0xfe]), Err(DecodeError::Syntax));
    assert_eq!(PluginResponse::decode(b"{"), Err(DecodeError::Syntax));
}

#[test]
fn decode_rejects_a_missing_field() {
    assert_eq!(PluginRequest::decode(br#"{"command":"greet"}"#), Err(DecodeError::Shape));
    assert_eq!(PluginRequest::decode(b"{}"), Err(DecodeError::Shape));
    assert_eq!(PluginResponse::decode(br#"{"data":"x"}"#), Err(DecodeError::Shape));
    assert_eq!(
        PluginInfo::decode(br#"{"name":"n","version":"1"}"#),
        Err(DecodeError::Shape)
    );
}

#[test]
fn decode_rejects_a_field_of_another_type() {
    assert_eq!(
        PluginResponse::decode(br#"{"success":"true","data":"x"}"#),
        Err(DecodeError::Shape)
    );
    assert_eq!(
        PluginResponse::decode(br#"{"success":1,"data":"x"}"#),
        Err(DecodeError::Shape)
    );
    assert_eq!(
        PluginRequest::decode(br#"{"command":null,"data":"x"}"#),
        Err(DecodeError::Shape)
    );
    assert_eq!(
        PluginInfo::decode(br#"{"name":"n","version":1.0,"author":"a"}"#),
        Err(DecodeError::Shape)
    );
}

#[test]
fn an_envelope_of_one_message_is_not_one_of_another() {
    let bytes = request("greet", "World").encode();
    assert_eq!(PluginResponse::decode(&bytes), Err(DecodeError::Shape));
    assert_eq!(PluginInfo::decode(&bytes), Err(DecodeError::Shape));
}

#[test]
fn clones_are_equal() {
    let value = info("n", "v", "a");
    assert_eq!(value.clone(), value);
    let value = request("c", "d");
    assert_eq!(value.clone(), value);
    let value = response(true, "d");
    assert_eq!(value.clone(), value);
}

#[test]
fn from_fields_needs_every_field() {
    let text = |value: &str| Some(value.to_string());
    assert_eq!(PluginInfo::from_fields(text("n"), text("v"), text("a")), Ok(info("n", "v", "a")));
    assert_eq!(PluginInfo::from_fields(None, text("v"), text("a")), Err(DecodeError::Shape));
    assert_eq!(PluginInfo::from_fields(text("n"), None, text("a")), Err(DecodeError::Shape));
    assert_eq!(PluginInfo::from_fields(text("n"), text("v"), None), Err(DecodeError::Shape));
    assert_eq!(PluginRequest::from_fields(text("c"), text("d")), Ok(request("c", "d")));
    assert_eq!(PluginRequest::from_fields(None, text("d")), Err(DecodeError::Shape));
    assert_eq!(PluginRequest::from_fields(text("c"), None), Err(DecodeError::Shape));
    assert_eq!(PluginResponse::from_fields(Some(false), text("d")), Ok(response(false, "d")));
    assert_eq!(PluginResponse::from_fields(None, text("d")), Err(DecodeError::Shape));
    assert_eq!(PluginResponse::from_fields(Some(true), None), Err(DecodeError::Shape));
}

#[test]
fn later_member_stands_where_a_key_comes_twice() {
    let bytes = br#"{"command":"first","data":"d","command":"second"}"#;
    assert_eq!(PluginRequest::decode(bytes), Ok(request("second", "d")));
}
