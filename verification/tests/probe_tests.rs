use dorsum::probe::{parse_snapshot, snapshot_from_bytes, BackendState, ProbeError};

#[test]
fn parses_running_snapshot() {
    let text = "{\"BackendState\":\"Running\",\"TailscaleIPs\":[\"100.1.2.3\"]}";
    let snap = parse_snapshot(text).unwrap();
    assert!(matches!(snap.backend_state, BackendState::Running));
    assert_eq!(snap.assigned_addresses, vec!["100.1.2.3".to_string()]);
}

#[test]
fn parses_stopped_snapshot_with_empty_addresses() {
    let text = "{\"BackendState\":\"Stopped\",\"TailscaleIPs\":[]}";
    let snap = parse_snapshot(text).unwrap();
    assert!(matches!(snap.backend_state, BackendState::Stopped));
    assert!(snap.assigned_addresses.is_empty());
}

#[test]
fn parses_starting_and_unknown_states() {
    let text = "{\"BackendState\":\"Starting\",\"TailscaleIPs\":[\"100.0.0.1\",\"fd7a::1\"]}";
    let snap = parse_snapshot(text).unwrap();
    assert!(matches!(snap.backend_state, BackendState::Starting));
    assert_eq!(snap.assigned_addresses.len(), 2);
    assert_eq!(snap.assigned_addresses[0], "100.0.0.1");

    let text = "{\"BackendState\":\"NeedsLogin\",\"TailscaleIPs\":[\"100.0.0.1\"]}";
    let snap = parse_snapshot(text).unwrap();
    match snap.backend_state {
        BackendState::Other(s) => assert_eq!(s, "NeedsLogin"),
        _ => panic!("expected the unknown state to be kept verbatim"),
    }
}

#[test]
fn ignores_extra_fields() {
    let text = "{\"Version\":\"1.38\",\"BackendState\":\"Running\",\"Peer\":{},\"TailscaleIPs\":[\"100.1.2.3\"],\"Self\":{\"Online\":true}}";
    let snap = parse_snapshot(text).unwrap();
    assert!(matches!(snap.backend_state, BackendState::Running));
    assert_eq!(snap.assigned_addresses, vec!["100.1.2.3".to_string()]);
}

#[test]
fn malformed_json_is_a_parse_error() {
    let r = parse_snapshot("not json at all");
    assert!(matches!(r, Err(ProbeError::Parse)));
}

#[test]
fn missing_backend_state_is_a_parse_error() {
    let r = parse_snapshot("{\"TailscaleIPs\":[\"100.1.2.3\"]}");
    assert!(matches!(r, Err(ProbeError::Parse)));
}

#[test]
fn missing_addresses_field_is_a_parse_error() {
    let r = parse_snapshot("{\"BackendState\":\"Running\"}");
    assert!(matches!(r, Err(ProbeError::Parse)));
}

#[test]
fn non_string_state_is_a_parse_error() {
    let r = parse_snapshot("{\"BackendState\":7,\"TailscaleIPs\":[]}");
    assert!(matches!(r, Err(ProbeError::Parse)));
}

#[test]
fn non_array_addresses_are_a_parse_error() {
    let r = parse_snapshot("{\"BackendState\":\"Running\",\"TailscaleIPs\":\"100.1.2.3\"}");
    assert!(matches!(r, Err(ProbeError::Parse)));
}

#[test]
fn non_string_address_entry_is_a_parse_error() {
    let r = parse_snapshot("{\"BackendState\":\"Running\",\"TailscaleIPs\":[1,2]}");
    assert!(matches!(r, Err(ProbeError::Parse)));
}

#[test]
fn invalid_utf8_output_is_a_decode_error() {
    let r = snapshot_from_bytes(vec![0xff, 0xfe, b'{', b'}']);
    assert!(matches!(r, Err(ProbeError::Decode)));
}

#[test]
fn utf8_output_is_decoded_losslessly() {
    let text = "{\"BackendState\":\"K\u{00fc}he\",\"TailscaleIPs\":[\"100.1.2.3\"]}";
    let snap = snapshot_from_bytes(text.as_bytes().to_vec()).unwrap();
    match snap.backend_state {
        BackendState::Other(s) => assert_eq!(s, "K\u{00fc}he"),
        _ => panic!("expected the decoded state string"),
    }
}

#[test]
fn parse_error_from_bytes_is_distinct_from_decode_error() {
    let r = snapshot_from_bytes(b"[1,2,3]".to_vec());
    assert!(matches!(r, Err(ProbeError::Parse)));
}
