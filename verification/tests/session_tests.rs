use stratum_core::json_rpc::{Id, Message, Response, StandardRequest, Value};
use stratum_core::{client_to_server, server_to_client, Client, ClientStatus, HexBytes, HexU32Be, IsClient, IsServer, Server};
use stratum_core::error::Error;
use stratum_core::ParsingMethodError;


fn ok_some(r: Result<Option<Response>, Error>) -> Response {
    match r {
        Ok(Some(resp)) => resp,
        Ok(None) => panic!("expected a response, got none"),
        Err(_) => panic!("expected a response, got an error"),
    }
}

fn ok_msg(r: Result<Message, Error>) -> Message {
    match r {
        Ok(m) => m,
        Err(_) => panic!("expected a message, got an error"),
    }
}

fn authorize_msg(id: Id, name: &str, pw: &str) -> Message {
    Message::StandardRequest(StandardRequest {
        id,
        method: "mining.authorize".to_string(),
        params: vec![Value::Str(name.to_string()), Value::Str(pw.to_string())],
    })
}

fn submit_msg(id: Id, user: &str, en2: &str, version_bits: Option<&str>) -> Message {
    let mut params = vec![
        Value::Str(user.to_string()),
        Value::Str("job1".to_string()),
        Value::Str(en2.to_string()),
        Value::Num(1700000000),
        Value::Num(42),
    ];
    if let Some(vb) = version_bits {
        params.push(Value::Str(vb.to_string()));
    }
    Message::StandardRequest(StandardRequest {
        id,
        method: "mining.submit".to_string(),
        params,
    })
}

fn sample_notify_msg() -> Message {
    let n = server_to_client::Notify {
        job_id: "job1".to_string(),
        prev_hash: HexBytes(vec![0x00]),
        coin_base1: HexBytes(vec![0x01]),
        coin_base2: HexBytes(vec![0x02]),
        merkle_branch: vec![],
        version: HexU32Be(0x20000000),
        bits: HexU32Be(0x1d00ffff),
        time: HexU32Be(0x64000000),
        clean_jobs: false,
    };
    n.to_message()
}

#[test]
fn server_authorize_happy_path() {
    let mut server = Server::new(HexBytes(vec![0x01, 0x02]), 4);
    let r = server.handle_message(authorize_msg(Id::Num(1), "alice", "pw"));
    let resp = ok_some(r);
    assert_eq!(resp.id, Id::Num(1));
    assert!(matches!(resp.result, Some(Value::Bool(true))));
    assert!(resp.error.is_none());
    assert!(server.is_authorized("alice"));
}

#[test]
fn server_submit_rejected_on_size_mismatch() {
    let mut server = Server::new(HexBytes(vec![0x01, 0x02]), 4);
    ok_some(server.handle_message(authorize_msg(Id::Num(1), "alice", "pw")));
    let r = server.handle_message(submit_msg(Id::Num(2), "alice", "aabb", None));
    assert!(matches!(r, Err(Error::InvalidSubmission)));
    assert!(server.is_authorized("alice"));
}

#[test]
fn server_submit_rejected_on_version_bits_without_mask() {
    let mut server = Server::new(HexBytes(vec![0x01, 0x02]), 4);
    ok_some(server.handle_message(authorize_msg(Id::Num(1), "alice", "pw")));
    let r = server.handle_message(submit_msg(Id::Num(2), "alice", "aabbccdd", Some("00000000")));
    assert!(matches!(r, Err(Error::InvalidSubmission)));
}

#[test]
fn server_submit_accepted_when_all_clauses_hold() {
    let mut server = Server::new(HexBytes(vec![0x01, 0x02]), 4);
    ok_some(server.handle_message(authorize_msg(Id::Num(1), "alice", "pw")));
    let r = server.handle_message(submit_msg(Id::Num(2), "alice", "aabbccdd", None));
    let resp = ok_some(r);
    assert_eq!(resp.id, Id::Num(2));
    assert!(matches!(resp.result, Some(Value::Bool(true))));
}

#[test]
fn server_refuses_responses() {
    let mut server = Server::new(HexBytes(vec![]), 4);
    let msg = Message::Response(Response {
        id: Id::Num(1),
        result: Some(Value::Bool(true)),
        error: None,
    });
    assert!(matches!(server.handle_message(msg), Err(Error::InvalidJsonRpcMessageKind)));
}

#[test]
fn server_update_extranonce_is_idempotent() {
    let mut server = Server::new(HexBytes(vec![0x01]), 2);
    let m1 = ok_msg(server.update_extranonce(HexBytes(vec![0xaa, 0xbb]), 8));
    let m2 = ok_msg(server.update_extranonce(HexBytes(vec![0xaa, 0xbb]), 8));
    assert_eq!(server.extranonce1(), HexBytes(vec![0xaa, 0xbb]));
    assert_eq!(server.extranonce2_size(), 8);
    for m in [m1, m2] {
        match m {
            Message::Notification(n) => {
                assert_eq!(n.method, "mining.set_extranonce");
                assert!(matches!(&n.params[0], Value::Str(s) if s == "aabb"));
                assert!(matches!(&n.params[1], Value::Num(8)));
            },
            _ => panic!("expected a notification"),
        }
    }
}

#[test]
fn client_resolves_ambiguous_response_as_authorize() {
    let mut client = Client::new("miner/1.0".to_string());
    client.status = ClientStatus::Configured;
    let out = client.authorize(Id::Str("7".to_string()), "alice".to_string(), "pw".to_string());
    assert!(out.is_ok());
    let resp = Message::Response(Response {
        id: Id::Str("7".to_string()),
        result: Some(Value::Bool(true)),
        error: None,
    });
    let r = client.handle_message(resp);
    assert!(matches!(r, Ok(None)));
    assert!(matches!(client.status, ClientStatus::Configured));
    assert!(client.is_authorized(&"alice".to_string()));
}

#[test]
fn client_reports_unknown_response_ids() {
    let mut client = Client::new("miner/1.0".to_string());
    let resp = Message::Response(Response {
        id: Id::Num(99),
        result: Some(Value::Bool(true)),
        error: None,
    });
    match client.handle_message(resp) {
        Err(Error::UnknownID(id)) => assert_eq!(id, Id::Num(99)),
        _ => panic!("expected an unknown-id error"),
    }
}

#[test]
fn client_duplicate_response_for_one_id_is_unknown() {
    let mut client = Client::new("miner/1.0".to_string());
    client.status = ClientStatus::Configured;
    ok_msg(client.authorize(Id::Num(7), "alice".to_string(), "pw".to_string()));
    let make = || Message::Response(Response {
        id: Id::Num(7),
        result: Some(Value::Bool(true)),
        error: None,
    });
    assert!(matches!(client.handle_message(make()), Ok(None)));
    assert!(matches!(client.handle_message(make()), Err(Error::UnknownID(_))));
}

#[test]
fn client_submit_in_init_is_a_state_violation() {
    let mut client = Client::new("miner/1.0".to_string());
    let r = client.submit(
        Id::Num(1),
        "alice".to_string(),
        HexBytes(vec![0, 1, 2, 3]),
        1700000000,
        42,
        None,
    );
    assert!(matches!(r, Err(Error::StateViolation)));
}

#[test]
fn client_authorize_in_init_is_a_state_violation() {
    let mut client = Client::new("miner/1.0".to_string());
    let r = client.authorize(Id::Num(1), "alice".to_string(), "pw".to_string());
    assert!(matches!(r, Err(Error::StateViolation)));
    let r = client.subscribe(Id::Num(2), None);
    assert!(matches!(r, Err(Error::StateViolation)));
}

#[test]
fn client_stores_the_last_notify_and_twice_changes_nothing_else() {
    let mut client = Client::new("miner/1.0".to_string());
    client.status = ClientStatus::Subscribed;
    assert!(matches!(client.handle_message(sample_notify_msg()), Ok(None)));
    let first = client.last_notify().expect("a notify was stored");
    assert_eq!(first.job_id, "job1");
    assert!(matches!(client.handle_message(sample_notify_msg()), Ok(None)));
    let second = client.last_notify().expect("a notify was stored");
    assert_eq!(second.job_id, "job1");
    assert!(matches!(client.status, ClientStatus::Subscribed));
    assert_eq!(client.extranonce1(), HexBytes(vec![]));
}

#[test]
fn client_submit_uses_the_last_notified_job() {
    let mut client = Client::new("miner/1.0".to_string());
    client.status = ClientStatus::Subscribed;
    assert!(matches!(client.handle_message(sample_notify_msg()), Ok(None)));
    client.authorized_names.push("alice".to_string());
    let m = ok_msg(
        client.submit(
            Id::Num(3),
            "alice".to_string(),
            HexBytes(vec![1, 2, 3, 4]),
            1700000000,
            42,
            None,
        ),
    );
    match m {
        Message::StandardRequest(r) => {
            assert_eq!(r.method, "mining.submit");
            assert!(matches!(&r.params[1], Value::Str(s) if s == "job1"));
        },
        _ => panic!("expected a request"),
    }
}

#[test]
fn client_status_never_goes_backward() {
    let mut client = Client::new("miner/1.0".to_string());
    let conf = client_to_server::Configure {
        id: Id::Num(1),
        version_rolling_mask: None,
        version_rolling_min_bit_count: None,
    };
    let sub = client_to_server::Subscribe {
        id: Id::Num(2),
        agent_signature: "miner/1.0".to_string(),
        extranonce1: None,
    };
    let conf_resp = Message::Response(conf.respond(None, None));
    let sub_resp = Message::Response(sub.respond(vec![], HexBytes(vec![0xaa]), 4));
    assert!(matches!(client.handle_message(conf_resp), Ok(None)));
    assert!(matches!(client.status, ClientStatus::Configured));
    assert!(matches!(client.handle_message(sub_resp), Ok(None)));
    assert!(matches!(client.status, ClientStatus::Subscribed));
    assert_eq!(client.extranonce1(), HexBytes(vec![0xaa]));
    assert_eq!(client.extranonce2_size(), 4);
    // a late configure answer must not downgrade the handshake
    let late = client_to_server::Configure {
        id: Id::Num(9),
        version_rolling_mask: None,
        version_rolling_min_bit_count: None,
    };
    assert!(matches!(client.handle_message(Message::Response(late.respond(None, None))), Ok(None)));
    assert!(matches!(client.status, ClientStatus::Subscribed));
}

#[test]
fn client_adopts_set_version_mask() {
    let mut client = Client::new("miner/1.0".to_string());
    let m = server_to_client::SetVersionMask { version_mask: HexU32Be(0x1fffe000) }.to_message();
    assert!(matches!(client.handle_message(m), Ok(None)));
    assert_eq!(client.version_rolling_mask, Some(HexU32Be(0x1fffe000)));
}

#[test]
fn client_surfaces_unknown_methods_as_parsing_errors() {
    let mut client = Client::new("miner/1.0".to_string());
    let msg = Message::StandardRequest(StandardRequest {
        id: Id::Num(1),
        method: "mining.frobnicate".to_string(),
        params: vec![],
    });
    assert!(matches!(
        client.handle_message(msg),
        Err(Error::Parsing(ParsingMethodError::UnknownMethod))
    ));
}

#[test]
fn client_refuses_client_bound_requests() {
    let mut client = Client::new("miner/1.0".to_string());
    let r = client.handle_message(authorize_msg(Id::Num(1), "alice", "pw"));
    assert!(matches!(r, Err(Error::InvalidReceiver(_))));
}

#[test]
fn client_configure_carries_the_session_terms() {
    let mut client = Client::new("miner/1.0".to_string());
    client.version_rolling_mask = Some(HexU32Be(0x1fffe000));
    let m = client.configure(Id::Num(1));
    match m {
        Message::StandardRequest(r) => {
            assert_eq!(r.method, "mining.configure");
            assert!(matches!(&r.params[0], Value::Str(s) if s == "1fffe000"));
            assert!(matches!(&r.params[1], Value::Null));
        },
        _ => panic!("expected a request"),
    }
}

#[test]
fn server_subscribe_reports_the_assigned_extranonce() {
    let mut server = Server::new(HexBytes(vec![0x0a, 0x0b]), 4);
    let msg = Message::StandardRequest(StandardRequest {
        id: Id::Num(1),
        method: "mining.subscribe".to_string(),
        params: vec![Value::Str("miner/1.0".to_string())],
    });
    let resp = ok_some(server.handle_message(msg));
    assert_eq!(resp.id, Id::Num(1));
    match resp.result {
        Some(Value::List(l)) => {
            assert!(matches!(&l[1], Value::Str(s) if s == "0a0b"));
            assert!(matches!(&l[2], Value::Num(4)));
        },
        _ => panic!("expected a list result"),
    }
}
