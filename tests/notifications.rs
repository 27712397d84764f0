use opensips::codec::{decode, decode_batch, encode, DecodeError};
use opensips::events::{
    ClusterNodeState, ClustererNodeStateChange, DialogChange, DialogState, DispatcherState,
    DispatcherStatus, Notification, UAEventType, UASession, UlContact,
};
use opensips::receiver::{run_datagrams, Action, Receiver, ReceiverState};

const UPDATE: &str = r#"{"jsonrpc":"2.0","method":"E_UL_CONTACT_UPDATE","params":{"domain":"location","aor":"test@192.168.20.21","uri":"sip:40936782@192.168.10.179:57028","received":"sip:192.168.10.179:57028","path":null,"qval":-1,"user_agent":"Blink 8.9.4 (MacOSX)","socket":"","bflags":0,"expires":1695059926,"callid":"4VWWnqsOg9TIRYSyFN.08yXb-EvVtTP8","cseq":10,"attr":"","latency":0,"shtag":""}}"#;
const DELETE: &str = r#"{"jsonrpc":"2.0","method":"E_UL_CONTACT_DELETE","params":{"domain":"location","aor":"test@192.168.20.21","uri":"sip:40936782@192.168.10.179:57028","received":"sip:192.168.10.179:57028","path":null,"qval":-1,"user_agent":"Blink 8.9.4 (MacOSX)","socket":"","bflags":0,"expires":1695054721,"callid":"J76aTtBC290Y5VRin97hnIJqwG4Oeb-2","cseq":1,"attr":"","latency":0,"shtag":""}}"#;
const INSERT: &str = r#"{"jsonrpc":"2.0","method":"E_UL_CONTACT_INSERT","params":{"domain":"location","aor":"test@192.168.20.21","uri":"sip:40936782@192.168.10.179:57028","received":"sip:192.168.10.179:57028","path":null,"qval":-1,"user_agent":"Blink 8.9.4 (MacOSX)","socket":"udp:192.168.20.21:5060","bflags":0,"expires":1695054721,"callid":"4VWWnqsOg9TIRYSyFN.08yXb-EvVtTP8","cseq":1,"attr":"","latency":0,"shtag":""}}"#;

fn contact(n: &Notification) -> &UlContact {
    match n {
        Notification::EUlContactInsert(c)
        | Notification::EUlContactDelete(c)
        | Notification::EUlContactUpdate(c) => c,
        other => panic!("not a contact event: {:?}", other),
    }
}

fn sample_contact() -> UlContact {
    UlContact {
        domain: "location".to_string(),
        aor: "alice@example.com".to_string(),
        uri: "sip:alice@10.0.0.1:5060".to_string(),
        received: "sip:10.0.0.1:5060".to_string(),
        path: Some("<sip:edge.example.com;lr>".to_string()),
        qval: -1,
        user_agent: "Phone \"1\" \\ ü".to_string(),
        socket: "udp:10.0.0.2:5060".to_string(),
        bflags: -7,
        expires: u64::MAX,
        callid: "abc@host".to_string(),
        cseq: 42,
        attr: "x=1".to_string(),
        latency: i64::MIN,
        shtag: "vip".to_string(),
    }
}

fn assert_same_contact(a: &UlContact, b: &UlContact) {
    assert_eq!(a.domain, b.domain);
    assert_eq!(a.aor, b.aor);
    assert_eq!(a.uri, b.uri);
    assert_eq!(a.received, b.received);
    assert_eq!(a.path, b.path);
    assert_eq!(a.qval, b.qval);
    assert_eq!(a.user_agent, b.user_agent);
    assert_eq!(a.socket, b.socket);
    assert_eq!(a.bflags, b.bflags);
    assert_eq!(a.expires, b.expires);
    assert_eq!(a.callid, b.callid);
    assert_eq!(a.cseq, b.cseq);
    assert_eq!(a.attr, b.attr);
    assert_eq!(a.latency, b.latency);
    assert_eq!(a.shtag, b.shtag);
}

#[test]
fn test_destination_decode() {
    let input = r#"[
        {"jsonrpc":"2.0","method":"E_UL_CONTACT_UPDATE","params":{"domain":"location","aor":"test@192.168.20.21","uri":"sip:40936782@192.168.10.179:57028","received":"sip:192.168.10.179:57028","path":null,"qval":-1,"user_agent":"Blink 8.9.4 (MacOSX)","socket":"","bflags":0,"expires":1695059926,"callid":"4VWWnqsOg9TIRYSyFN.08yXb-EvVtTP8","cseq":10,"attr":"","latency":0,"shtag":""}},
        {"jsonrpc":"2.0","method":"E_UL_CONTACT_DELETE","params":{"domain":"location","aor":"test@192.168.20.21","uri":"sip:40936782@192.168.10.179:57028","received":"sip:192.168.10.179:57028","path":null,"qval":-1,"user_agent":"Blink 8.9.4 (MacOSX)","socket":"","bflags":0,"expires":1695054721,"callid":"J76aTtBC290Y5VRin97hnIJqwG4Oeb-2","cseq":1,"attr":"","latency":0,"shtag":""}},
        {"jsonrpc":"2.0","method":"E_UL_CONTACT_INSERT","params":{"domain":"location","aor":"test@192.168.20.21","uri":"sip:40936782@192.168.10.179:57028","received":"sip:192.168.10.179:57028","path":null,"qval":-1,"user_agent":"Blink 8.9.4 (MacOSX)","socket":"udp:192.168.20.21:5060","bflags":0,"expires":1695054721,"callid":"4VWWnqsOg9TIRYSyFN.08yXb-EvVtTP8","cseq":1,"attr":"","latency":0,"shtag":""}}
        ]"#;
    let json: Vec<Notification> = decode_batch(input.as_bytes())
        .unwrap()
        .into_iter()
        .map(|r| r.unwrap())
        .collect();
    println!("{:#?}", json);
}

#[test]
fn datagram_run_of_three_contacts() {
    let input: Vec<Vec<u8>> = vec![
        UPDATE.as_bytes().to_vec(),
        DELETE.as_bytes().to_vec(),
        INSERT.as_bytes().to_vec(),
    ];
    let (json, errors) = run_datagrams(&input);
    assert_eq!(json.len(), 3);
    assert!(errors.is_empty());
}

#[test]
fn batch_elements_decode_independently() {
    let input = format!("[{}, 7, {{\"method\":\"E_NOPE\",\"params\":{{}}}}, {}]", INSERT, DELETE);
    let results = decode_batch(input.as_bytes()).unwrap();
    assert_eq!(results.len(), 4);
    assert!(matches!(results[0], Ok(Notification::EUlContactInsert(_))));
    assert!(matches!(results[1], Err(DecodeError::NoDiscriminator)));
    assert!(matches!(&results[2], Err(DecodeError::Unrecognized(m)) if m == "E_NOPE"));
    assert!(matches!(results[3], Ok(Notification::EUlContactDelete(_))));
}

#[test]
fn batch_of_one_and_malformed_batch() {
    let one = decode_batch(UPDATE.as_bytes()).unwrap();
    assert_eq!(one.len(), 1);
    assert!(matches!(one[0], Ok(Notification::EUlContactUpdate(_))));
    assert!(matches!(decode_batch(b"[{"), Err(DecodeError::Malformed(_))));
    assert!(decode_batch(b"[]").unwrap().is_empty());
}

#[test]
fn contact_insert_scenario() {
    let n = decode(INSERT.as_bytes()).unwrap();
    assert!(matches!(n, Notification::EUlContactInsert(_)));
    let c = contact(&n);
    assert_eq!(c.qval, -1);
    assert_eq!(c.expires, 1695054721);
    assert_eq!(c.domain, "location");
    assert_eq!(c.aor, "test@192.168.20.21");
    assert_eq!(c.uri, "sip:40936782@192.168.10.179:57028");
    assert_eq!(c.socket, "udp:192.168.20.21:5060");
    assert_eq!(c.path, None);
    assert_eq!(c.cseq, 1);
}

#[test]
fn contact_update_and_delete_variants() {
    let u = decode(UPDATE.as_bytes()).unwrap();
    assert!(matches!(u, Notification::EUlContactUpdate(_)));
    assert_eq!(contact(&u).expires, 1695059926);
    assert_eq!(contact(&u).cseq, 10);
    let d = decode(DELETE.as_bytes()).unwrap();
    assert!(matches!(d, Notification::EUlContactDelete(_)));
    assert_eq!(contact(&d).callid, "J76aTtBC290Y5VRin97hnIJqwG4Oeb-2");
}

#[test]
fn cluster_node_state_scenario() {
    let input = r#"{"jsonrpc":"2.0","method":"E_CLUSTERER_NODE_STATE_CHANGE","params":{"cluster_id":1,"node_id":2,"new_state":1}}"#;
    let n = decode(input.as_bytes()).unwrap();
    let c = match &n {
        Notification::EClustererNodeStateChange(c) => *c,
        other => panic!("unexpected {:?}", other),
    };
    assert_eq!(c.cluster_id, 1);
    assert_eq!(c.node_id, 2);
    assert_eq!(c.new_state, ClusterNodeState::Up);
    let text = String::from_utf8(encode(&n)).unwrap();
    assert!(text.contains("\"new_state\":1"), "{}", text);
    assert!(!text.contains("\"Up\""), "{}", text);
}

#[test]
fn cluster_node_state_down_and_bad_code() {
    let down = r#"{"method":"E_CLUSTERER_NODE_STATE_CHANGE","params":{"cluster_id":3,"node_id":4,"new_state":0}}"#;
    match decode(down.as_bytes()).unwrap() {
        Notification::EClustererNodeStateChange(c) => assert_eq!(c.new_state, ClusterNodeState::Down),
        other => panic!("unexpected {:?}", other),
    }
    let named = r#"{"method":"E_CLUSTERER_NODE_STATE_CHANGE","params":{"cluster_id":3,"node_id":4,"new_state":"Up"}}"#;
    assert!(matches!(decode(named.as_bytes()), Err(DecodeError::BadPayload(_))));
    let two = r#"{"method":"E_CLUSTERER_NODE_STATE_CHANGE","params":{"cluster_id":3,"node_id":4,"new_state":2}}"#;
    assert!(matches!(decode(two.as_bytes()), Err(DecodeError::BadPayload(_))));
}

#[test]
fn malformed_input_is_a_decode_failure() {
    let inputs: Vec<&[u8]> = vec![
        b"",
        b"not json",
        b"{\"method\":\"E_UA_SESSION\"",
        &[0xff, 0xfe, 0x00],
        b"{\"a\":}",
    ];
    for input in inputs {
        assert!(matches!(decode(input), Err(DecodeError::Malformed(_))), "{:?}", input);
    }
}

#[test]
fn malformed_carries_the_parser_message() {
    match decode(b"not json") {
        Err(DecodeError::Malformed(m)) => assert_eq!(m, "expected ident at line 1 column 2"),
        other => panic!("unexpected {:?}", other),
    }
}

#[test]
fn truncated_datagram_is_malformed() {
    let cut = &INSERT.as_bytes()[..INSERT.len() / 2];
    assert!(matches!(decode(cut), Err(DecodeError::Malformed(_))));
}

#[test]
fn unrecognized_discriminator_is_distinct() {
    let input = r#"{"jsonrpc":"2.0","method":"E_SOMETHING_ELSE","params":{"a":1}}"#;
    match decode(input.as_bytes()) {
        Err(DecodeError::Unrecognized(m)) => assert_eq!(m, "E_SOMETHING_ELSE"),
        other => panic!("unexpected {:?}", other),
    }
    let lower = r#"{"method":"e_ua_session","params":{}}"#;
    assert!(matches!(decode(lower.as_bytes()), Err(DecodeError::Unrecognized(_))));
}

#[test]
fn recognized_discriminator_bad_payload() {
    let input = r#"{"jsonrpc":"2.0","method":"E_UL_CONTACT_INSERT","params":{"domain":"location"}}"#;
    match decode(input.as_bytes()) {
        Err(DecodeError::BadPayload(m)) => assert_eq!(m, "E_UL_CONTACT_INSERT"),
        other => panic!("unexpected {:?}", other),
    }
    let no_params = r#"{"method":"E_DISPATCHER_STATUS"}"#;
    assert!(matches!(decode(no_params.as_bytes()), Err(DecodeError::BadPayload(_))));
    let scalar_params = r#"{"method":"E_DISPATCHER_STATUS","params":3}"#;
    assert!(matches!(decode(scalar_params.as_bytes()), Err(DecodeError::BadPayload(_))));
}

#[test]
fn missing_discriminator() {
    assert!(matches!(decode(b"[1,2,3]"), Err(DecodeError::NoDiscriminator)));
    assert!(matches!(decode(b"{\"params\":{}}"), Err(DecodeError::NoDiscriminator)));
    assert!(matches!(decode(b"{\"method\":5,\"params\":{}}"), Err(DecodeError::NoDiscriminator)));
    assert!(matches!(decode(b"\"E_UA_SESSION\""), Err(DecodeError::NoDiscriminator)));
}

#[test]
fn received_and_path_absent_default() {
    let input = r#"{"method":"E_UL_CONTACT_INSERT","params":{"domain":"d","aor":"a","uri":"u","qval":5,"user_agent":"ua","socket":"s","bflags":1,"expires":2,"callid":"c","cseq":3,"attr":"t","latency":-4,"shtag":"h"}}"#;
    let n = decode(input.as_bytes()).unwrap();
    let c = contact(&n);
    assert_eq!(c.received, "");
    assert_eq!(c.path, None);
    assert_eq!(c.latency, -4);
}

#[test]
fn received_and_path_null_default() {
    let input = r#"{"method":"E_UL_CONTACT_DELETE","params":{"domain":"d","aor":"a","uri":"u","received":null,"path":null,"qval":5,"user_agent":"ua","socket":"s","bflags":1,"expires":2,"callid":"c","cseq":3,"attr":"t","latency":-4,"shtag":"h"}}"#;
    let n = decode(input.as_bytes()).unwrap();
    let c = contact(&n);
    assert_eq!(c.received, "");
    assert_eq!(c.path, None);
}

#[test]
fn path_present_is_kept() {
    let input = r#"{"method":"E_UL_CONTACT_DELETE","params":{"domain":"d","aor":"a","uri":"u","received":"r","path":"<sip:p>","qval":5,"user_agent":"ua","socket":"s","bflags":1,"expires":2,"callid":"c","cseq":3,"attr":"t","latency":-4,"shtag":"h"}}"#;
    let n = decode(input.as_bytes()).unwrap();
    assert_eq!(contact(&n).path, Some("<sip:p>".to_string()));
    assert_eq!(contact(&n).received, "r");
}

#[test]
fn integer_fields_out_of_range() {
    let too_big_qval = INSERT.replace("\"qval\":-1", "\"qval\":9223372036854775808");
    assert!(matches!(decode(too_big_qval.as_bytes()), Err(DecodeError::BadPayload(_))));
    let negative_expires = INSERT.replace("\"expires\":1695054721", "\"expires\":-1");
    assert!(matches!(decode(negative_expires.as_bytes()), Err(DecodeError::BadPayload(_))));
    let fractional = INSERT.replace("\"cseq\":1,", "\"cseq\":1.5,");
    assert!(matches!(decode(fractional.as_bytes()), Err(DecodeError::BadPayload(_))));
    let max_expires = INSERT.replace("\"expires\":1695054721", "\"expires\":18446744073709551615");
    assert_eq!(contact(&decode(max_expires.as_bytes()).unwrap()).expires, u64::MAX);
}

#[test]
fn later_duplicate_member_wins() {
    let input = r#"{"method":"E_DISPATCHER_STATUS","params":{"partition":"p","group":"1","address":"a","status":"active","status":"inactive"}}"#;
    match decode(input.as_bytes()).unwrap() {
        Notification::EDispatcherStatus(d) => assert_eq!(d.status, DispatcherState::Inactive),
        other => panic!("unexpected {:?}", other),
    }
}

#[test]
fn dialog_change_decodes() {
    let input = r#"{"jsonrpc":"2.0","method":"E_DLG_STATE_CHANGED","params":{"id":"123","callid":"cid","from_tag":"ft","to_tag":"tt","old_state":3,"new_state":4}}"#;
    match decode(input.as_bytes()).unwrap() {
        Notification::EDlgStateChanged(d) => {
            assert_eq!(d.id, "123");
            assert_eq!(d.call_id, "cid");
            assert_eq!(d.from_tag, "ft");
            assert_eq!(d.to_tag, "tt");
            assert_eq!(d.old_state, DialogState::ConfirmedNA);
            assert_eq!(d.new_state, DialogState::Confirmed);
        }
        other => panic!("unexpected {:?}", other),
    }
    let no_to_tag = r#"{"method":"E_DLG_STATE_CHANGED","params":{"id":"1","callid":"c","from_tag":"f","old_state":1,"new_state":5}}"#;
    match decode(no_to_tag.as_bytes()).unwrap() {
        Notification::EDlgStateChanged(d) => {
            assert_eq!(d.to_tag, "");
            assert_eq!(d.old_state, DialogState::Unconfirmed);
            assert_eq!(d.new_state, DialogState::Deleted);
        }
        other => panic!("unexpected {:?}", other),
    }
    let bad_state = r#"{"method":"E_DLG_STATE_CHANGED","params":{"id":"1","callid":"c","from_tag":"f","old_state":0,"new_state":5}}"#;
    assert!(matches!(decode(bad_state.as_bytes()), Err(DecodeError::BadPayload(_))));
}

#[test]
fn dispatcher_status_decodes() {
    let input = r#"{"method":"E_DISPATCHER_STATUS","params":{"partition":"default","group":"1","address":"sip:10.0.0.9","status":"inactive"}}"#;
    match decode(input.as_bytes()).unwrap() {
        Notification::EDispatcherStatus(d) => {
            assert_eq!(d.partition, "default");
            assert_eq!(d.group, "1");
            assert_eq!(d.address, "sip:10.0.0.9");
            assert_eq!(d.status, DispatcherState::Inactive);
        }
        other => panic!("unexpected {:?}", other),
    }
    let capitalised = input.replace("\"inactive\"", "\"Inactive\"");
    assert!(matches!(decode(capitalised.as_bytes()), Err(DecodeError::BadPayload(_))));
}

#[test]
fn ua_session_decodes() {
    let input = r#"{"method":"E_UA_SESSION","params":{"key":"k1","entity_type":"UAC","event_type":"ANSWERED","status":200,"reason":"OK","method":"INVITE","body":"v=0","headers":"X: y"}}"#;
    match decode(input.as_bytes()).unwrap() {
        Notification::EUaSession(u) => {
            assert_eq!(u.key, "k1");
            assert_eq!(u.entity_type, "UAC");
            assert_eq!(u.event_type, UAEventType::Answered);
            assert_eq!(u.status, 200);
            assert_eq!(u.reason, "OK");
            assert_eq!(u.method, "INVITE");
            assert_eq!(u.body, "v=0");
            assert_eq!(u.headers, "X: y");
        }
        other => panic!("unexpected {:?}", other),
    }
    let lower = input.replace("\"ANSWERED\"", "\"answered\"");
    assert!(matches!(decode(lower.as_bytes()), Err(DecodeError::BadPayload(_))));
}

#[test]
fn round_trip_contacts() {
    let c = sample_contact();
    for n in [
        Notification::EUlContactInsert(c.clone()),
        Notification::EUlContactDelete(c.clone()),
        Notification::EUlContactUpdate(c.clone()),
    ] {
        let bytes = encode(&n);
        let back = decode(&bytes).unwrap();
        assert_eq!(back.method_name(), n.method_name());
        assert_same_contact(contact(&back), &c);
    }
    let mut sparse = sample_contact();
    sparse.path = None;
    sparse.received = String::new();
    let back = decode(&encode(&Notification::EUlContactInsert(sparse.clone()))).unwrap();
    assert_same_contact(contact(&back), &sparse);
}

#[test]
fn round_trip_other_variants() {
    let dialog = DialogChange {
        id: "9".to_string(),
        call_id: "call".to_string(),
        from_tag: "f".to_string(),
        to_tag: "t".to_string(),
        old_state: DialogState::Early,
        new_state: DialogState::Deleted,
    };
    match decode(&encode(&Notification::EDlgStateChanged(dialog.clone()))).unwrap() {
        Notification::EDlgStateChanged(d) => {
            assert_eq!(d.id, dialog.id);
            assert_eq!(d.call_id, dialog.call_id);
            assert_eq!(d.from_tag, dialog.from_tag);
            assert_eq!(d.to_tag, dialog.to_tag);
            assert_eq!(d.old_state, dialog.old_state);
            assert_eq!(d.new_state, dialog.new_state);
        }
        other => panic!("unexpected {:?}", other),
    }
    let status = DispatcherStatus {
        partition: "p".to_string(),
        group: "g".to_string(),
        address: "a".to_string(),
        status: DispatcherState::Active,
    };
    match decode(&encode(&Notification::EDispatcherStatus(status.clone()))).unwrap() {
        Notification::EDispatcherStatus(d) => {
            assert_eq!(d.partition, "p");
            assert_eq!(d.group, "g");
            assert_eq!(d.address, "a");
            assert_eq!(d.status, DispatcherState::Active);
        }
        other => panic!("unexpected {:?}", other),
    }
    let node = ClustererNodeStateChange { cluster_id: usize::MAX, node_id: 0, new_state: ClusterNodeState::Down };
    match decode(&encode(&Notification::EClustererNodeStateChange(node))).unwrap() {
        Notification::EClustererNodeStateChange(c) => assert_eq!(c, node),
        other => panic!("unexpected {:?}", other),
    }
    let session = UASession {
        key: "k".to_string(),
        entity_type: "UAS".to_string(),
        event_type: UAEventType::Terminated,
        status: 487,
        reason: "Request Terminated".to_string(),
        method: "BYE".to_string(),
        body: String::new(),
        headers: "A: b\r\n".to_string(),
    };
    match decode(&encode(&Notification::EUaSession(session.clone()))).unwrap() {
        Notification::EUaSession(u) => {
            assert_eq!(u.key, session.key);
            assert_eq!(u.entity_type, session.entity_type);
            assert_eq!(u.event_type, session.event_type);
            assert_eq!(u.status, session.status);
            assert_eq!(u.reason, session.reason);
            assert_eq!(u.method, session.method);
            assert_eq!(u.body, session.body);
            assert_eq!(u.headers, session.headers);
        }
        other => panic!("unexpected {:?}", other),
    }
}

#[test]
fn encode_writes_wire_names() {
    let n = Notification::EUlContactInsert(sample_contact());
    let text = String::from_utf8(encode(&n)).unwrap();
    assert!(text.contains("\"method\":\"E_UL_CONTACT_INSERT\""), "{}", text);
    assert!(text.contains("\"jsonrpc\":\"2.0\""), "{}", text);
    assert!(text.contains("\"qval\":-1"), "{}", text);
    let status = Notification::EDispatcherStatus(DispatcherStatus {
        partition: "p".to_string(),
        group: "g".to_string(),
        address: "a".to_string(),
        status: DispatcherState::Inactive,
    });
    let text = String::from_utf8(encode(&status)).unwrap();
    assert!(text.contains("\"status\":\"inactive\""), "{}", text);
    let dialog = Notification::EDlgStateChanged(DialogChange {
        id: "1".to_string(),
        call_id: "c".to_string(),
        from_tag: "f".to_string(),
        to_tag: String::new(),
        old_state: DialogState::Unconfirmed,
        new_state: DialogState::ConfirmedNA,
    });
    let text = String::from_utf8(encode(&dialog)).unwrap();
    assert!(text.contains("\"new_state\":3"), "{}", text);
    assert!(text.contains("\"callid\":\"c\""), "{}", text);
}

#[test]
fn one_bad_datagram_in_a_run() {
    let input: Vec<Vec<u8>> = vec![
        INSERT.as_bytes().to_vec(),
        b"{garbage".to_vec(),
        UPDATE.as_bytes().to_vec(),
        DELETE.as_bytes().to_vec(),
    ];
    let (delivered, failures) = run_datagrams(&input);
    assert_eq!(delivered.len(), 3);
    assert_eq!(failures.len(), 1);
    assert!(matches!(failures[0], DecodeError::Malformed(_)));
    assert!(matches!(delivered[0], Notification::EUlContactInsert(_)));
    assert!(matches!(delivered[1], Notification::EUlContactUpdate(_)));
    assert!(matches!(delivered[2], Notification::EUlContactDelete(_)));
}

#[test]
fn empty_run_delivers_nothing() {
    let (delivered, failures) = run_datagrams(&Vec::new());
    assert!(delivered.is_empty());
    assert!(failures.is_empty());
}

#[test]
fn receiver_state_machine() {
    let mut r = Receiver::new();
    assert_eq!(r.state, ReceiverState::Listening);
    assert!(matches!(r.on_datagram(INSERT.as_bytes()), Action::Dispatch(_)));
    assert!(matches!(r.on_datagram(b"nope"), Action::Skip(DecodeError::Malformed(_))));
    assert_eq!(r.state, ReceiverState::Listening);
    assert!(matches!(r.on_transport_error(), Action::Stop));
    assert_eq!(r.state, ReceiverState::Terminated);
    assert!(matches!(r.on_datagram(INSERT.as_bytes()), Action::Stop));
    assert_eq!(r.state, ReceiverState::Terminated);
}

#[test]
fn dialog_state_names_and_codes() {
    assert_eq!(DialogState::Unconfirmed.name(), "Unconfirmed");
    assert_eq!(DialogState::Early.name(), "Early");
    assert_eq!(DialogState::ConfirmedNA.name(), "Confirmed NoACk");
    assert_eq!(DialogState::Confirmed.name(), "Confirmed");
    assert_eq!(DialogState::Deleted.name(), "Deleted");
    assert_eq!(DialogState::Unconfirmed.code(), 1);
    assert_eq!(DialogState::Deleted.code(), 5);
    assert_eq!(DialogState::from_code(3), Some(DialogState::ConfirmedNA));
    assert_eq!(DialogState::from_code(6), None);
    assert_eq!(DialogState::from_code(0), None);
}

#[test]
fn enum_wire_forms() {
    assert_eq!(DispatcherState::Active.wire(), "active");
    assert_eq!(DispatcherState::from_wire(&"inactive".to_string()), Some(DispatcherState::Inactive));
    assert_eq!(DispatcherState::from_wire(&"ACTIVE".to_string()), None);
    assert_eq!(UAEventType::Rejected.wire(), "REJECTED");
    assert_eq!(UAEventType::from_wire(&"EARLY".to_string()), Some(UAEventType::Early));
    assert_eq!(UAEventType::from_wire(&"New".to_string()), None);
    assert_eq!(ClusterNodeState::Up.code(), 1);
    assert_eq!(ClusterNodeState::from_code(0), Some(ClusterNodeState::Down));
    assert_eq!(ClusterNodeState::from_code(-1), None);
}
