use stratum_core::json_rpc::{Id, Message, Response, StandardRequest, Value};
use stratum_core::methods::{parse_message, Client2Server, Method, ParsingMethodError, Server2Client, Server2ClientResponse};
use stratum_core::{client_to_server, server_to_client, HexBytes, HexU32Be};

fn parse(m: Message) -> Method {
    parse_message(m).unwrap()
}

#[test]
fn authorize_serializes_and_parses_back_equal() {
    let a = client_to_server::Authorize {
        id: Id::Num(1),
        name: "alice".to_string(),
        password: "pw".to_string(),
    };
    match parse(a.to_message()) {
        Method::Client2Server(Client2Server::Authorize(b)) => {
            assert_eq!(b.id, Id::Num(1));
            assert_eq!(b.name, "alice");
            assert_eq!(b.password, "pw");
        },
        _ => panic!("wrong classification"),
    }
}

#[test]
fn configure_serializes_and_parses_back_equal() {
    let c = client_to_server::Configure {
        id: Id::Str("7".to_string()),
        version_rolling_mask: Some(HexU32Be(0x1fffe000)),
        version_rolling_min_bit_count: None,
    };
    match parse(c.to_message()) {
        Method::Client2Server(Client2Server::Configure(b)) => {
            assert_eq!(b.id, Id::Str("7".to_string()));
            assert_eq!(b.version_rolling_mask, Some(HexU32Be(0x1fffe000)));
            assert_eq!(b.version_rolling_min_bit_count, None);
        },
        _ => panic!("wrong classification"),
    }
}

#[test]
fn extranonce_subscribe_serializes_and_parses_back_equal() {
    let e = client_to_server::ExtranonceSubscribe { id: Id::Num(9) };
    match parse(e.to_message()) {
        Method::Client2Server(Client2Server::ExtranonceSubscribe(b)) => {
            assert_eq!(b.id, Id::Num(9));
        },
        _ => panic!("wrong classification"),
    }
}

#[test]
fn submit_serializes_and_parses_back_equal() {
    let s = client_to_server::Submit {
        id: Id::Num(4),
        user_name: "alice".to_string(),
        job_id: "j1".to_string(),
        extra_nonce2: HexBytes(vec![0xaa, 0xbb, 0xcc, 0xdd]),
        time: 1700000000,
        nonce: 12345,
        version_bits: Some(HexU32Be(0x00002000)),
    };
    match parse(s.to_message()) {
        Method::Client2Server(Client2Server::Submit(b)) => {
            assert_eq!(b.id, Id::Num(4));
            assert_eq!(b.user_name, "alice");
            assert_eq!(b.job_id, "j1");
            assert_eq!(b.extra_nonce2, HexBytes(vec![0xaa, 0xbb, 0xcc, 0xdd]));
            assert_eq!(b.time, 1700000000);
            assert_eq!(b.nonce, 12345);
            assert_eq!(b.version_bits, Some(HexU32Be(0x00002000)));
        },
        _ => panic!("wrong classification"),
    }
}

#[test]
fn submit_without_version_bits_parses_back_equal() {
    let s = client_to_server::Submit {
        id: Id::Num(5),
        user_name: "bob".to_string(),
        job_id: "j2".to_string(),
        extra_nonce2: HexBytes(vec![1, 2]),
        time: 0,
        nonce: -1,
        version_bits: None,
    };
    match parse(s.to_message()) {
        Method::Client2Server(Client2Server::Submit(b)) => {
            assert_eq!(b.version_bits, None);
            assert_eq!(b.nonce, -1);
        },
        _ => panic!("wrong classification"),
    }
}

#[test]
fn subscribe_serializes_and_parses_back_equal() {
    let s = client_to_server::Subscribe {
        id: Id::Num(2),
        agent_signature: "miner/1.0".to_string(),
        extranonce1: Some(HexBytes(vec![0x01, 0x02])),
    };
    match parse(s.to_message()) {
        Method::Client2Server(Client2Server::Subscribe(b)) => {
            assert_eq!(b.agent_signature, "miner/1.0");
            assert_eq!(b.extranonce1, Some(HexBytes(vec![0x01, 0x02])));
        },
        _ => panic!("wrong classification"),
    }
}

fn sample_notify() -> server_to_client::Notify {
    server_to_client::Notify {
        job_id: "job7".to_string(),
        prev_hash: HexBytes(vec![0x00, 0x11]),
        coin_base1: HexBytes(vec![0x22]),
        coin_base2: HexBytes(vec![0x33, 0x44]),
        merkle_branch: vec![HexBytes(vec![0x55]), HexBytes(vec![0x66, 0x77])],
        version: HexU32Be(0x20000000),
        bits: HexU32Be(0x1d00ffff),
        time: HexU32Be(0x64000000),
        clean_jobs: true,
    }
}

#[test]
fn notify_serializes_and_parses_back_equal() {
    let n = sample_notify();
    match parse(n.to_message()) {
        Method::Server2Client(Server2Client::Notify(b)) => {
            assert_eq!(b.job_id, "job7");
            assert_eq!(b.prev_hash, HexBytes(vec![0x00, 0x11]));
            assert_eq!(b.coin_base1, HexBytes(vec![0x22]));
            assert_eq!(b.coin_base2, HexBytes(vec![0x33, 0x44]));
            assert_eq!(b.merkle_branch, vec![HexBytes(vec![0x55]), HexBytes(vec![0x66, 0x77])]);
            assert_eq!(b.version, HexU32Be(0x20000000));
            assert_eq!(b.bits, HexU32Be(0x1d00ffff));
            assert_eq!(b.time, HexU32Be(0x64000000));
            assert!(b.clean_jobs);
        },
        _ => panic!("wrong classification"),
    }
}

#[test]
fn set_difficulty_serializes_and_parses_back_equal() {
    let d = server_to_client::SetDifficulty { value: 8192 };
    match parse(d.to_message()) {
        Method::Server2Client(Server2Client::SetDifficulty(b)) => {
            assert_eq!(b.value, 8192);
        },
        _ => panic!("wrong classification"),
    }
}

#[test]
fn set_extranonce_serializes_and_parses_back_equal() {
    let e = server_to_client::SetExtranonce {
        extra_nonce1: HexBytes(vec![0xab, 0xcd]),
        extra_nonce2_size: 4,
    };
    match parse(e.to_message()) {
        Method::Server2Client(Server2Client::SetExtranonce(b)) => {
            assert_eq!(b.extra_nonce1, HexBytes(vec![0xab, 0xcd]));
            assert_eq!(b.extra_nonce2_size, 4);
        },
        _ => panic!("wrong classification"),
    }
}

#[test]
fn set_version_mask_serializes_and_parses_back_equal() {
    let v = server_to_client::SetVersionMask { version_mask: HexU32Be(0x1fffe000) };
    match parse(v.to_message()) {
        Method::Server2Client(Server2Client::SetVersionMask(b)) => {
            assert_eq!(b.version_mask, HexU32Be(0x1fffe000));
        },
        _ => panic!("wrong classification"),
    }
}

#[test]
fn configure_response_parses_back_equal() {
    let req = client_to_server::Configure {
        id: Id::Num(3),
        version_rolling_mask: Some(HexU32Be(0x1fffe000)),
        version_rolling_min_bit_count: Some(HexU32Be(2)),
    };
    let vrp = server_to_client::VersionRollingParams {
        version_rolling: true,
        version_rolling_mask: HexU32Be(0x1fffe000),
        version_rolling_min_bit_count: HexU32Be(2),
    };
    let resp = req.respond(Some(vrp), Some(false));
    match parse(Message::Response(resp)) {
        Method::Server2ClientResponse(Server2ClientResponse::Configure(c)) => {
            assert_eq!(c.id, Id::Num(3));
            assert_eq!(c.version_rolling_mask(), Some(HexU32Be(0x1fffe000)));
            assert_eq!(c.version_rolling_min_bit(), Some(HexU32Be(2)));
            assert_eq!(c.minimum_difficulty, Some(false));
        },
        _ => panic!("wrong classification"),
    }
}

#[test]
fn subscribe_response_parses_back_equal() {
    let req = client_to_server::Subscribe {
        id: Id::Num(6),
        agent_signature: "miner/1.0".to_string(),
        extranonce1: None,
    };
    let subs = vec![("mining.notify".to_string(), "s1".to_string())];
    let resp = req.respond(subs, HexBytes(vec![0x0f, 0xf0]), 4);
    match parse(Message::Response(resp)) {
        Method::Server2ClientResponse(Server2ClientResponse::Subscribe(s)) => {
            assert_eq!(s.id, Id::Num(6));
            assert_eq!(s.extra_nonce1, HexBytes(vec![0x0f, 0xf0]));
            assert_eq!(s.extra_nonce2_size, 4);
            assert_eq!(s.subscriptions, vec![("mining.notify".to_string(), "s1".to_string())]);
        },
        _ => panic!("wrong classification"),
    }
}

#[test]
fn bare_boolean_response_is_a_general_response() {
    let resp = Response { id: Id::Str("7".to_string()), result: Some(Value::Bool(true)), error: None };
    match parse(Message::Response(resp)) {
        Method::Server2ClientResponse(Server2ClientResponse::GeneralResponse(g)) => {
            assert_eq!(g.id, Id::Str("7".to_string()));
            assert!(g.result);
        },
        _ => panic!("wrong classification"),
    }
}

#[test]
fn unknown_method_is_reported_as_such() {
    let m = Message::StandardRequest(StandardRequest {
        id: Id::Num(1),
        method: "mining.frobnicate".to_string(),
        params: vec![],
    });
    assert!(matches!(parse_message(m), Err(ParsingMethodError::UnknownMethod)));
}

#[test]
fn bad_params_are_reported_as_such() {
    let m = Message::StandardRequest(StandardRequest {
        id: Id::Num(1),
        method: "mining.authorize".to_string(),
        params: vec![Value::Num(3)],
    });
    assert!(matches!(parse_message(m), Err(ParsingMethodError::BadParams)));
}

#[test]
fn responses_pair_requests_by_id() {
    let a = client_to_server::Authorize {
        id: Id::Num(41),
        name: "alice".to_string(),
        password: "pw".to_string(),
    };
    let resp = a.respond(true);
    assert_eq!(resp.id, Id::Num(41));
    let s = client_to_server::Submit {
        id: Id::Str("s-9".to_string()),
        user_name: "alice".to_string(),
        job_id: "j".to_string(),
        extra_nonce2: HexBytes(vec![]),
        time: 0,
        nonce: 0,
        version_bits: None,
    };
    let resp = s.respond(false);
    assert_eq!(resp.id, Id::Str("s-9".to_string()));
}
