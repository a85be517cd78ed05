use plugin_host::envelope::{DecodeError, PluginInfo, PluginRequest, PluginResponse};
use plugin_host::guest::{serve_execute, serve_init, ResultSlot};

fn info() -> PluginInfo {
    PluginInfo { name: "n".to_string(), version: "v".to_string(), author: "a".to_string() }
}

fn shout(request: PluginRequest) -> PluginResponse {
    PluginResponse { success: request.command == "shout", data: format!("{}!", request.data) }
}

#[test]
fn a_new_slot_holds_zero() {
    assert_eq!(ResultSlot::new().get_result_len(), 0);
}

#[test]
fn record_overwrites_the_slot() {
    let mut slot = ResultSlot::new();
    slot.record(&vec![1, 2, 3]);
    assert_eq!(slot.get_result_len(), 3);
    slot.record(&vec![0; 70000]);
    assert_eq!(slot.get_result_len(), 70000);
    slot.record(&vec![]);
    assert_eq!(slot.get_result_len(), 0);
}

#[test]
fn length_query_repeats_its_answer() {
    let mut slot = ResultSlot::new();
    slot.record(&vec![9; 12]);
    assert_eq!(slot.get_result_len(), 12);
    assert_eq!(slot.get_result_len(), 12);
}

#[test]
fn serve_init_sets_the_slot_to_the_length_of_the_descriptor() {
    let mut slot = ResultSlot::new();
    slot.record(&vec![0; 5]);
    let envelope = serve_init(&mut slot, &info());
    assert_eq!(envelope, br#"{"author":"a","name":"n","version":"v"}"#.to_vec());
    assert_eq!(slot.get_result_len(), 39);
}

#[test]
fn serve_execute_hands_the_request_to_the_handler() {
    let mut slot = ResultSlot::new();
    let bytes = br#"{"command":"shout","data":"hey"}"#;
    let envelope = serve_execute(&mut slot, bytes, shout).unwrap();
    assert_eq!(envelope, br#"{"data":"hey!","success":true}"#.to_vec());
    assert_eq!(slot.get_result_len(), 30);
    let bytes = br#"{"command":"whisper","data":"a longer piece"}"#;
    let envelope = serve_execute(&mut slot, bytes, shout).unwrap();
    assert_eq!(envelope, br#"{"data":"a longer piece!","success":false}"#.to_vec());
    assert_eq!(slot.get_result_len(), envelope.len());
}

#[test]
fn serve_execute_takes_a_closure() {
    let mut slot = ResultSlot::new();
    let prefix = "got ".to_string();
    let handler = |request: PluginRequest| PluginResponse {
        success: true,
        data: format!("{prefix}{}", request.data),
    };
    let envelope = serve_execute(&mut slot, br#"{"command":"c","data":"d"}"#, handler).unwrap();
    assert_eq!(
        PluginResponse::decode(&envelope),
        Ok(PluginResponse { success: true, data: "got d".to_string() })
    );
}

#[test]
fn serve_execute_leaves_the_slot_on_a_decode_error() {
    let mut slot = ResultSlot::new();
    slot.record(&vec![0; 7]);
    assert_eq!(serve_execute(&mut slot, b"[]", shout), Err(DecodeError::Syntax));
    assert_eq!(serve_execute(&mut slot, br#"{"data":"d"}"#, shout), Err(DecodeError::Shape));
    assert_eq!(slot.get_result_len(), 7);
}
