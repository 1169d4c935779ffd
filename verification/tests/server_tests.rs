use wayice::server::{connection_step, process_message, ConnectionAction, Message, MethodKind};

#[test]
fn the_exact_window_info_request_is_echoed_back() {
    let request = br#"{"method":"window-info","data":{}}"#.to_vec();
    match connection_step(request.clone()) {
        ConnectionAction::Respond(echo, kind) => {
            assert_eq!(echo, request);
            assert_eq!(kind, MethodKind::WindowInfo);
        }
        other => panic!("expected an echo, got {:?}", other),
    }
}

#[test]
fn an_unknown_method_is_still_echoed() {
    let request = br#"{"method":"monitor-info","data":[1,2]}"#.to_vec();
    match connection_step(request.clone()) {
        ConnectionAction::Respond(echo, kind) => {
            assert_eq!(echo, request);
            assert_eq!(kind, MethodKind::Unknown);
        }
        other => panic!("expected an echo, got {:?}", other),
    }
}

#[test]
fn an_undecodable_payload_yields_no_response_and_keeps_the_connection() {
    assert_eq!(
        connection_step(b"not json at all".to_vec()),
        ConnectionAction::Ignore
    );
    // A later valid message on the same connection is then served.
    let request = br#"{"method":"window-info","data":{}}"#.to_vec();
    match connection_step(request.clone()) {
        ConnectionAction::Respond(echo, kind) => {
            assert_eq!(echo, request);
            assert_eq!(kind, MethodKind::WindowInfo);
        }
        other => panic!("expected an echo, got {:?}", other),
    }
}

#[test]
fn a_message_must_carry_both_fields() {
    assert_eq!(
        connection_step(br#"{"method":"window-info"}"#.to_vec()),
        ConnectionAction::Ignore
    );
    assert_eq!(
        connection_step(br#"{"data":{}}"#.to_vec()),
        ConnectionAction::Ignore
    );
    assert_eq!(
        connection_step(br#"{"method":7,"data":{}}"#.to_vec()),
        ConnectionAction::Ignore
    );
}

#[test]
fn an_empty_read_closes_the_connection() {
    assert_eq!(connection_step(Vec::new()), ConnectionAction::Close);
}

#[test]
fn dispatch_goes_by_the_method_name_alone() {
    let known = Message {
        method: "window-info".to_string(),
        data: serde_json::Value::Null,
    };
    assert_eq!(process_message(&known), MethodKind::WindowInfo);

    let unknown = Message {
        method: "window-info ".to_string(),
        data: serde_json::Value::Null,
    };
    assert_eq!(process_message(&unknown), MethodKind::Unknown);
}
