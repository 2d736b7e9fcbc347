use multiplayer::wire::{
    decode_client_message, decode_client_messages, decode_handshake, decode_host_message,
    decode_host_messages, delta_info_message, disconnect_message, full_sync_message,
    is_complete_handshake, is_complete_host_message, kick_player_message, reset_message,
    rpc_message, GameSetting, ToServerCommands, UpdateFrame, CLIENT_DISCONNECTS,
    CLIENT_DISCONNECTS_SELF, CLIENT_GETS_KICKED, DELTA_UPDATE, FULL_UPDATE, HAND_SHAKE_RESPONSE,
    NEW_CLIENT, RESET, SERVER_DISCONNECTS, SERVER_ERROR, SERVER_RPC,
};

fn bytes_of(frame: &UpdateFrame<Vec<u8>>) -> (bool, Vec<u8>) {
    match frame {
        UpdateFrame::Deltas(b) => (false, b.clone()),
        UpdateFrame::Full(b) => (true, b.clone()),
    }
}

#[test]
fn kick_message_layout() {
    assert_eq!(kick_player_message(0x0102), vec![CLIENT_GETS_KICKED, 1, 2]);
    assert_eq!(kick_player_message(300), vec![CLIENT_GETS_KICKED, 1, 44]);
}

#[test]
fn delta_message_concatenates() {
    let msg = delta_info_message(&vec![vec![1, 2], vec![], vec![3]]);
    assert_eq!(msg, vec![DELTA_UPDATE, 1, 2, 3]);
    assert_eq!(delta_info_message(&vec![]), vec![DELTA_UPDATE]);
}

#[test]
fn full_reset_rpc_and_disconnect_messages() {
    assert_eq!(full_sync_message(&[9, 8]), vec![FULL_UPDATE, 9, 8]);
    assert_eq!(reset_message(&[7]), vec![RESET, 7]);
    assert_eq!(rpc_message(&[1, 2, 3]), vec![SERVER_RPC, 1, 2, 3]);
    assert_eq!(disconnect_message(true), vec![SERVER_DISCONNECTS]);
    assert_eq!(disconnect_message(false), vec![CLIENT_DISCONNECTS_SELF]);
}

#[test]
fn host_reads_join_leave_and_rpc() {
    match decode_host_message(&[NEW_CLIENT, 1, 2]) {
        Ok(ToServerCommands::ClientJoin(id)) => assert_eq!(id, 258),
        _ => panic!("expected a join"),
    }
    match decode_host_message(&[CLIENT_DISCONNECTS, 0, 7]) {
        Ok(ToServerCommands::ClientLeft(id)) => assert_eq!(id, 7),
        _ => panic!("expected a leave"),
    }
    match decode_host_message(&[SERVER_RPC, 0, 1, 5, 6]) {
        Ok(ToServerCommands::Rpc(id, payload)) => {
            assert_eq!(id, 1);
            assert_eq!(payload, vec![5, 6]);
        }
        _ => panic!("expected a move request"),
    }
}

#[test]
fn host_reads_errors() {
    match decode_host_message(&[SERVER_ERROR, b'r', b'o', b'o', b'm']) {
        Err(e) => assert_eq!(e, "room"),
        _ => panic!("expected the relay's error"),
    }
    match decode_host_message(&[SERVER_ERROR, b'a', 0xff]) {
        Err(e) => assert_eq!(e, "a\u{fffd}"),
        _ => panic!("expected the relay's error"),
    }
    match decode_host_message(&[200]) {
        Err(e) => assert_eq!(e, "Unknown message received: 200"),
        _ => panic!("expected an unknown-message error"),
    }
    match decode_host_message(&[DELTA_UPDATE]) {
        Err(e) => assert_eq!(e, "Unknown message received: 6"),
        _ => panic!("expected an unknown-message error"),
    }
}

#[test]
fn host_batch_stops_at_first_error() {
    let ok = decode_host_messages(&vec![vec![NEW_CLIENT, 0, 1], vec![CLIENT_DISCONNECTS, 0, 1]]).unwrap();
    assert_eq!(ok.len(), 2);
    let err = decode_host_messages(&vec![vec![NEW_CLIENT, 0, 1], vec![42], vec![SERVER_ERROR, b'x']]);
    assert_eq!(err.unwrap_err(), "Unknown message received: 42");
    assert!(decode_host_messages(&vec![]).unwrap().is_empty());
}

#[test]
fn completeness_checks() {
    assert!(!is_complete_host_message(&[]));
    assert!(!is_complete_host_message(&[NEW_CLIENT, 1]));
    assert!(is_complete_host_message(&[NEW_CLIENT, 1, 2]));
    assert!(is_complete_host_message(&[SERVER_ERROR]));
    assert!(!is_complete_handshake(&[HAND_SHAKE_RESPONSE, 0, 1, 0]));
    assert!(is_complete_handshake(&[HAND_SHAKE_RESPONSE, 0, 1, 0, 1]));
    assert!(is_complete_handshake(&[99]));
}

#[test]
fn client_reads_what_host_sends() {
    let full = decode_client_message(&full_sync_message(&[1, 2])).unwrap();
    assert_eq!(bytes_of(&full), (true, vec![1, 2]));
    let reset = decode_client_message(&reset_message(&[3])).unwrap();
    assert_eq!(bytes_of(&reset), (true, vec![3]));
    let deltas = decode_client_message(&delta_info_message(&vec![vec![4], vec![5, 6]])).unwrap();
    assert_eq!(bytes_of(&deltas), (false, vec![4, 5, 6]));
    assert_eq!(decode_client_message(&[SERVER_RPC]).unwrap_err(), "Unknown message received: 4");
}

#[test]
fn client_batch() {
    let frames = decode_client_messages(&vec![vec![FULL_UPDATE, 1], vec![DELTA_UPDATE]]).unwrap();
    assert_eq!(frames.len(), 2);
    assert_eq!(bytes_of(&frames[1]), (false, vec![]));
    assert_eq!(
        decode_client_messages(&vec![vec![SERVER_ERROR, b'n', b'o'], vec![FULL_UPDATE]]).unwrap_err(),
        "no"
    );
}

#[test]
fn handshake_reply() {
    assert_eq!(
        decode_handshake(&[HAND_SHAKE_RESPONSE, 0, 3, 0, 1]).unwrap(),
        GameSetting { player_id: 3, rule_variation: 1 }
    );
    assert_eq!(decode_handshake(&[SERVER_ERROR, b'f', b'u', b'l', b'l']).unwrap_err(), "full");
    assert_eq!(decode_handshake(&[NEW_CLIENT]).unwrap_err(), "Unknown message received in handshake: 2");
}
