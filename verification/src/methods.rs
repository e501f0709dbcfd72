//! Method registry of the V1 protocol: the mapping between wire method
//! names and typed in-memory message variants, and the classification of a
//! parsed message by the direction it travels.

pub mod client_to_server;
pub mod server_to_client;

use vstd::prelude::*;
use crate::json_rpc::{Message, Value};
use crate::utils::{lemma_spec_hex_injective, lemma_spec_u32_hex_injective, str_eq};

verus! {

/// Why a message could not be mapped to a typed method.
#[derive(Clone, Copy, Debug, PartialEq, Eq, Structural)]
pub enum ParsingMethodError {
    /// The method name is not one the registry knows.
    UnknownMethod,
    /// The method is known but the parameters have the wrong shape.
    BadParams,
}

/// The requests a client may send.
pub enum Client2Server {
    Authorize(client_to_server::Authorize),
    Configure(client_to_server::Configure),
    ExtranonceSubscribe(client_to_server::ExtranonceSubscribe),
    Submit(client_to_server::Submit),
    Subscribe(client_to_server::Subscribe),
}

/// The typed request serializes to the message.
pub open spec fn c2s_matches(c: Client2Server, msg: Message) -> bool {
    match c {
        Client2Server::Authorize(a) => a.matches_message(msg),
        Client2Server::Configure(a) => a.matches_message(msg),
        Client2Server::ExtranonceSubscribe(a) => a.matches_message(msg),
        Client2Server::Submit(a) => a.matches_message(msg),
        Client2Server::Subscribe(a) => a.matches_message(msg),
    }
}

/// The notifications a server may send.
pub enum Server2Client {
    Notify(server_to_client::Notify),
    SetDifficulty(server_to_client::SetDifficulty),
    SetExtranonce(server_to_client::SetExtranonce),
    SetVersionMask(server_to_client::SetVersionMask),
}

/// The typed notification serializes to the message.
pub open spec fn s2c_matches(s: Server2Client, msg: Message) -> bool {
    match s {
        Server2Client::Notify(a) => a.matches_message(msg),
        Server2Client::SetDifficulty(a) => a.matches_message(msg),
        Server2Client::SetExtranonce(a) => a.matches_message(msg),
        Server2Client::SetVersionMask(a) => a.matches_message(msg),
    }
}

/// The answers a server may send, one per client request kind, plus the
/// transient unresolved classification.
pub enum Server2ClientResponse {
    Configure(server_to_client::Configure),
    Subscribe(server_to_client::Subscribe),
    Authorize(server_to_client::Authorize),
    Submit(server_to_client::Submit),
    GeneralResponse(server_to_client::GeneralResponse),
}

/// The typed answer serializes to the response.
pub open spec fn s2cr_matches(s: Server2ClientResponse, resp: crate::json_rpc::Response) -> bool {
    match s {
        Server2ClientResponse::Configure(a) => a.matches_response(resp),
        Server2ClientResponse::Subscribe(a) => a.matches_response(resp),
        Server2ClientResponse::Authorize(a) => a.matches_response(resp),
        Server2ClientResponse::Submit(a) => a.matches_response(resp),
        Server2ClientResponse::GeneralResponse(a) => a.matches_response(resp),
    }
}

/// A message classified by direction and method.
pub enum Method {
    Client2Server(Client2Server),
    Server2Client(Server2Client),
    Server2ClientResponse(Server2ClientResponse),
    ErrorMessage(Message),
}

/// The classified method corresponds to the message.
pub open spec fn method_matches(m: Method, msg: Message) -> bool {
    match m {
        Method::Client2Server(c) => c2s_matches(c, msg),
        Method::Server2Client(s) => s2c_matches(s, msg),
        Method::Server2ClientResponse(s) => msg matches Message::Response(p) && s2cr_matches(s, p),
        Method::ErrorMessage(e) => msg matches Message::Response(p) && p.error is Some && e == msg,
    }
}

/// The nine canonical method names.
pub open spec fn known_method(s: Seq<char>) -> bool {
    ||| s == "mining.authorize"@
    ||| s == "mining.configure"@
    ||| s == "mining.extranonce.subscribe"@
    ||| s == "mining.submit"@
    ||| s == "mining.subscribe"@
    ||| s == "mining.notify"@
    ||| s == "mining.set_difficulty"@
    ||| s == "mining.set_extranonce"@
    ||| s == "mining.set_version_mask"@
}

/// The canonical method names name different methods.
pub proof fn lemma_method_names_distinct()
    ensures
        "mining.authorize"@.len() == 16,
        "mining.configure"@.len() == 16,
        "mining.extranonce.subscribe"@.len() == 27,
        "mining.submit"@.len() == 13,
        "mining.subscribe"@.len() == 16,
        "mining.notify"@.len() == 13,
        "mining.set_difficulty"@.len() == 21,
        "mining.set_extranonce"@.len() == 21,
        "mining.set_version_mask"@.len() == 23,
        "mining.authorize"@ != "mining.configure"@,
        "mining.authorize"@ != "mining.subscribe"@,
        "mining.configure"@ != "mining.subscribe"@,
        "mining.submit"@ != "mining.notify"@,
        "mining.set_difficulty"@ != "mining.set_extranonce"@,
{
    reveal_strlit("mining.authorize");
    reveal_strlit("mining.configure");
    reveal_strlit("mining.extranonce.subscribe");
    reveal_strlit("mining.submit");
    reveal_strlit("mining.subscribe");
    reveal_strlit("mining.notify");
    reveal_strlit("mining.set_difficulty");
    reveal_strlit("mining.set_extranonce");
    reveal_strlit("mining.set_version_mask");
    assert("mining.authorize"@[7] == 'a');
    assert("mining.configure"@[7] == 'c');
    assert("mining.subscribe"@[7] == 's');
    assert("mining.submit"@[7] == 's');
    assert("mining.notify"@[7] == 'n');
    assert("mining.set_difficulty"@[11] == 'd');
    assert("mining.set_extranonce"@[11] == 'e');
}

/// Which of the nine canonical methods a name denotes.
enum MethodKind {
    Authorize,
    Configure,
    ExtranonceSubscribe,
    Submit,
    Subscribe,
    Notify,
    SetDifficulty,
    SetExtranonce,
    SetVersionMask,
    Unknown,
}

/// Look a method name up in the registry.
fn method_kind(m: &str) -> (k: MethodKind)
    ensures
        (k is Authorize) <==> m@ == "mining.authorize"@,
        (k is Configure) <==> m@ == "mining.configure"@,
        (k is ExtranonceSubscribe) <==> m@ == "mining.extranonce.subscribe"@,
        (k is Submit) <==> m@ == "mining.submit"@,
        (k is Subscribe) <==> m@ == "mining.subscribe"@,
        (k is Notify) <==> m@ == "mining.notify"@,
        (k is SetDifficulty) <==> m@ == "mining.set_difficulty"@,
        (k is SetExtranonce) <==> m@ == "mining.set_extranonce"@,
        (k is SetVersionMask) <==> m@ == "mining.set_version_mask"@,
        (k is Unknown) <==> !known_method(m@),
{
    proof {
        lemma_method_names_distinct();
    }
    if str_eq(m, "mining.authorize") {
        MethodKind::Authorize
    } else if str_eq(m, "mining.configure") {
        MethodKind::Configure
    } else if str_eq(m, "mining.extranonce.subscribe") {
        MethodKind::ExtranonceSubscribe
    } else if str_eq(m, "mining.submit") {
        MethodKind::Submit
    } else if str_eq(m, "mining.subscribe") {
        MethodKind::Subscribe
    } else if str_eq(m, "mining.notify") {
        MethodKind::Notify
    } else if str_eq(m, "mining.set_difficulty") {
        MethodKind::SetDifficulty
    } else if str_eq(m, "mining.set_extranonce") {
        MethodKind::SetExtranonce
    } else if str_eq(m, "mining.set_version_mask") {
        MethodKind::SetVersionMask
    } else {
        MethodKind::Unknown
    }
}

/// Classify a message into a typed method. Succeeds on every message a
/// typed method serializes to, yields `UnknownMethod` exactly on requests
/// whose name the registry does not know, and `BadParams` otherwise.
pub fn parse_message(msg: Message) -> (r: Result<Method, ParsingMethodError>)
    ensures
        r matches Ok(m) ==> method_matches(m, msg),
        (exists|a: client_to_server::Authorize| a.matches_message(msg)) ==> (r matches Ok(m) && m
            matches Method::Client2Server(Client2Server::Authorize(_))),
        (exists|a: client_to_server::Configure| a.matches_message(msg)) ==> (r matches Ok(m) && m
            matches Method::Client2Server(Client2Server::Configure(_))),
        (exists|a: client_to_server::ExtranonceSubscribe| a.matches_message(msg)) ==> (r matches Ok(
            m,
        ) && m matches Method::Client2Server(Client2Server::ExtranonceSubscribe(_))),
        (exists|a: client_to_server::Submit| a.matches_message(msg)) ==> (r matches Ok(m) && m
            matches Method::Client2Server(Client2Server::Submit(_))),
        (exists|a: client_to_server::Subscribe| a.matches_message(msg)) ==> (r matches Ok(m) && m
            matches Method::Client2Server(Client2Server::Subscribe(_))),
        (exists|a: server_to_client::Notify| a.matches_message(msg)) ==> (r matches Ok(m) && m
            matches Method::Server2Client(Server2Client::Notify(_))),
        (exists|a: server_to_client::SetDifficulty| a.matches_message(msg)) ==> (r matches Ok(m)
            && m matches Method::Server2Client(Server2Client::SetDifficulty(_))),
        (exists|a: server_to_client::SetExtranonce| a.matches_message(msg)) ==> (r matches Ok(m)
            && m matches Method::Server2Client(Server2Client::SetExtranonce(_))),
        (exists|a: server_to_client::SetVersionMask| a.matches_message(msg)) ==> (r matches Ok(m)
            && m matches Method::Server2Client(Server2Client::SetVersionMask(_))),
        (msg matches Message::Response(p) && (exists|a: server_to_client::Configure|
            a.matches_response(p))) ==> (r matches Ok(m) && m matches
            Method::Server2ClientResponse(Server2ClientResponse::Configure(_))),
        (msg matches Message::Response(p) && (exists|a: server_to_client::Subscribe|
            a.matches_response(p))) ==> (r matches Ok(m) && m matches
            Method::Server2ClientResponse(Server2ClientResponse::Subscribe(_))),
        (msg matches Message::Response(p) && p.error is None && (p.result matches Some(v) && (v
            is Bool || v is Null))) ==> (r matches Ok(m) && m matches
            Method::Server2ClientResponse(Server2ClientResponse::GeneralResponse(_))),
        (msg matches Message::Response(p) && p.error is Some) ==> (r matches Ok(m) && m matches
            Method::ErrorMessage(e) && e == msg),
        (msg matches Message::StandardRequest(q) && !known_method(q.method@)) ==> r == Err::<
            Method,
            ParsingMethodError,
        >(ParsingMethodError::UnknownMethod),
        (msg matches Message::Notification(q) && !known_method(q.method@)) ==> r == Err::<
            Method,
            ParsingMethodError,
        >(ParsingMethodError::UnknownMethod),
{
    proof {
        lemma_method_names_distinct();
    }
    match msg {
        Message::StandardRequest(req) => match method_kind(req.method.as_str()) {
            MethodKind::Authorize => match client_to_server::Authorize::from_request(&req) {
                Ok(a) => Ok(Method::Client2Server(Client2Server::Authorize(a))),
                Err(e) => Err(e),
            },
            MethodKind::Configure => match client_to_server::Configure::from_request(&req) {
                Ok(a) => Ok(Method::Client2Server(Client2Server::Configure(a))),
                Err(e) => Err(e),
            },
            MethodKind::ExtranonceSubscribe => match client_to_server::ExtranonceSubscribe::from_request(
                &req,
            ) {
                Ok(a) => Ok(Method::Client2Server(Client2Server::ExtranonceSubscribe(a))),
                Err(e) => Err(e),
            },
            MethodKind::Submit => match client_to_server::Submit::from_request(&req) {
                Ok(a) => Ok(Method::Client2Server(Client2Server::Submit(a))),
                Err(e) => Err(e),
            },
            MethodKind::Subscribe => match client_to_server::Subscribe::from_request(&req) {
                Ok(a) => Ok(Method::Client2Server(Client2Server::Subscribe(a))),
                Err(e) => Err(e),
            },
            MethodKind::Unknown => Err(ParsingMethodError::UnknownMethod),
            _ => Err(ParsingMethodError::BadParams),
        },
        Message::Notification(req) => match method_kind(req.method.as_str()) {
            MethodKind::Notify => match server_to_client::Notify::from_notification(&req) {
                Ok(a) => Ok(Method::Server2Client(Server2Client::Notify(a))),
                Err(e) => Err(e),
            },
            MethodKind::SetDifficulty => match server_to_client::SetDifficulty::from_notification(
                &req,
            ) {
                Ok(a) => Ok(Method::Server2Client(Server2Client::SetDifficulty(a))),
                Err(e) => Err(e),
            },
            MethodKind::SetExtranonce => match server_to_client::SetExtranonce::from_notification(
                &req,
            ) {
                Ok(a) => Ok(Method::Server2Client(Server2Client::SetExtranonce(a))),
                Err(e) => Err(e),
            },
            MethodKind::SetVersionMask => match server_to_client::SetVersionMask::from_notification(
                &req,
            ) {
                Ok(a) => Ok(Method::Server2Client(Server2Client::SetVersionMask(a))),
                Err(e) => Err(e),
            },
            MethodKind::Unknown => Err(ParsingMethodError::UnknownMethod),
            _ => Err(ParsingMethodError::BadParams),
        },
        Message::Response(p) => {
            if p.error.is_some() {
                return Ok(Method::ErrorMessage(Message::Response(p)));
            }
            match &p.result {
                Some(Value::List(l)) => {
                    if l.len() == 3 {
                        match server_to_client::Subscribe::from_response(&p) {
                            Ok(a) => Ok(
                                Method::Server2ClientResponse(Server2ClientResponse::Subscribe(a)),
                            ),
                            Err(e) => Err(e),
                        }
                    } else if l.len() == 2 {
                        match server_to_client::Configure::from_response(&p) {
                            Ok(a) => Ok(
                                Method::Server2ClientResponse(Server2ClientResponse::Configure(a)),
                            ),
                            Err(e) => Err(e),
                        }
                    } else {
                        Err(ParsingMethodError::BadParams)
                    }
                },
                Some(Value::Bool(_)) | Some(Value::Null) => {
                    match server_to_client::GeneralResponse::from_response(&p) {
                        Ok(a) => Ok(
                            Method::Server2ClientResponse(
                                Server2ClientResponse::GeneralResponse(a),
                            ),
                        ),
                        Err(e) => Err(e),
                    }
                },
                _ => Err(ParsingMethodError::BadParams),
            }
        },
    }
}

/// One wire shape names one authorize request: serializing and parsing
/// back yields an equal value.
pub proof fn lemma_authorize_round_trip(
    a: client_to_server::Authorize,
    b: client_to_server::Authorize,
    msg: Message,
)
    requires
        a.matches_message(msg),
        b.matches_message(msg),
    ensures
        a.eqv(b),
{
}

/// One wire shape names one configure request: serializing and parsing
/// back yields an equal value.
pub proof fn lemma_configure_round_trip(
    a: client_to_server::Configure,
    b: client_to_server::Configure,
    msg: Message,
)
    requires
        a.matches_message(msg),
        b.matches_message(msg),
    ensures
        a.eqv(b),
{
    lemma_opt_hex32_determined(a.version_rolling_mask, b.version_rolling_mask);
    lemma_opt_hex32_determined(a.version_rolling_min_bit_count, b.version_rolling_min_bit_count);
}

/// One value names one optional hex word.
proof fn lemma_opt_hex32_determined(a: Option<crate::utils::HexU32Be>, b: Option<
    crate::utils::HexU32Be,
>)
    requires
        exists|v: Value|
            #[trigger] client_to_server::v_opt_hex32(v, a) && client_to_server::v_opt_hex32(v, b),
    ensures
        a == b,
{
    match (a, b) {
        (Some(x), Some(y)) => {
            lemma_spec_u32_hex_injective(x.0, y.0);
        },
        _ => {},
    }
}

/// One wire shape names one extranonce subscription request.
pub proof fn lemma_extranonce_subscribe_round_trip(
    a: client_to_server::ExtranonceSubscribe,
    b: client_to_server::ExtranonceSubscribe,
    msg: Message,
)
    requires
        a.matches_message(msg),
        b.matches_message(msg),
    ensures
        a.eqv(b),
{
}

/// One wire shape names one submit request: serializing and parsing back
/// yields an equal value.
pub proof fn lemma_submit_round_trip(
    a: client_to_server::Submit,
    b: client_to_server::Submit,
    msg: Message,
)
    requires
        a.matches_message(msg),
        b.matches_message(msg),
    ensures
        a.eqv(b),
{
    lemma_spec_hex_injective(a.extra_nonce2.0@, b.extra_nonce2.0@);
    match (a.version_bits, b.version_bits) {
        (Some(x), Some(y)) => {
            lemma_spec_u32_hex_injective(x.0, y.0);
        },
        _ => {},
    }
}

/// One wire shape names one subscribe request: serializing and parsing
/// back yields an equal value.
pub proof fn lemma_subscribe_round_trip(
    a: client_to_server::Subscribe,
    b: client_to_server::Subscribe,
    msg: Message,
)
    requires
        a.matches_message(msg),
        b.matches_message(msg),
    ensures
        a.eqv(b),
{
    match (a.extranonce1, b.extranonce1) {
        (Some(x), Some(y)) => {
            lemma_spec_hex_injective(x.0@, y.0@);
        },
        _ => {},
    }
}

/// One wire shape names one job announcement: serializing and parsing back
/// yields an equal value.
pub proof fn lemma_notify_round_trip(
    a: server_to_client::Notify,
    b: server_to_client::Notify,
    msg: Message,
)
    requires
        a.matches_message(msg),
        b.matches_message(msg),
    ensures
        a.eqv(b),
{
    lemma_spec_hex_injective(a.prev_hash.0@, b.prev_hash.0@);
    lemma_spec_hex_injective(a.coin_base1.0@, b.coin_base1.0@);
    lemma_spec_hex_injective(a.coin_base2.0@, b.coin_base2.0@);
    lemma_spec_u32_hex_injective(a.version.0, b.version.0);
    lemma_spec_u32_hex_injective(a.bits.0, b.bits.0);
    lemma_spec_u32_hex_injective(a.time.0, b.time.0);
    assert forall|i: int|
        0 <= i < a.merkle_branch@.len() implies (#[trigger] a.merkle_branch@[i]).0@
        == b.merkle_branch@[i].0@ by {
        let r = msg->Notification_0;
        let l = r.params@[4]->List_0;
        assert(crate::json_rpc::v_hex(l@[i], a.merkle_branch@[i].0@));
        assert(crate::json_rpc::v_hex(l@[i], b.merkle_branch@[i].0@));
        lemma_spec_hex_injective(a.merkle_branch@[i].0@, b.merkle_branch@[i].0@);
    }
}

/// One wire shape names one difficulty update.
pub proof fn lemma_set_difficulty_round_trip(
    a: server_to_client::SetDifficulty,
    b: server_to_client::SetDifficulty,
    msg: Message,
)
    requires
        a.matches_message(msg),
        b.matches_message(msg),
    ensures
        a.eqv(b),
{
}

/// One wire shape names one extranonce update: serializing and parsing
/// back yields an equal value.
pub proof fn lemma_set_extranonce_round_trip(
    a: server_to_client::SetExtranonce,
    b: server_to_client::SetExtranonce,
    msg: Message,
)
    requires
        a.matches_message(msg),
        b.matches_message(msg),
    ensures
        a.eqv(b),
{
    lemma_spec_hex_injective(a.extra_nonce1.0@, b.extra_nonce1.0@);
}

/// One wire shape names one mask update.
pub proof fn lemma_set_version_mask_round_trip(
    a: server_to_client::SetVersionMask,
    b: server_to_client::SetVersionMask,
    msg: Message,
)
    requires
        a.matches_message(msg),
        b.matches_message(msg),
    ensures
        a.eqv(b),
{
    lemma_spec_u32_hex_injective(a.version_mask.0, b.version_mask.0);
}

/// One response shape names one configure answer: serializing and parsing
/// back yields an equal value.
pub proof fn lemma_configure_response_round_trip(
    a: server_to_client::Configure,
    b: server_to_client::Configure,
    resp: crate::json_rpc::Response,
)
    requires
        a.matches_response(resp),
        b.matches_response(resp),
    ensures
        a.eqv(b),
{
    match (a.version_rolling, b.version_rolling) {
        (Some(x), Some(y)) => {
            lemma_spec_u32_hex_injective(x.version_rolling_mask.0, y.version_rolling_mask.0);
            lemma_spec_u32_hex_injective(
                x.version_rolling_min_bit_count.0,
                y.version_rolling_min_bit_count.0,
            );
        },
        _ => {},
    }
}

/// One response shape names one subscribe answer: serializing and parsing
/// back yields an equal value.
pub proof fn lemma_subscribe_response_round_trip(
    a: server_to_client::Subscribe,
    b: server_to_client::Subscribe,
    resp: crate::json_rpc::Response,
)
    requires
        a.matches_response(resp),
        b.matches_response(resp),
    ensures
        a.eqv(b),
{
    lemma_spec_hex_injective(a.extra_nonce1.0@, b.extra_nonce1.0@);
    assert forall|i: int|
        0 <= i < a.subscriptions@.len() implies (#[trigger] a.subscriptions@[i]).0@
        == b.subscriptions@[i].0@ && a.subscriptions@[i].1@ == b.subscriptions@[i].1@ by {
        let v = resp.result->Some_0;
        let l = v->List_0;
        let sl = l@[0]->List_0;
        assert((sl@[i] matches Value::List(p) && p@.len() == 2 && crate::json_rpc::v_str(
            p@[0],
            a.subscriptions@[i].0@,
        ) && crate::json_rpc::v_str(p@[1], a.subscriptions@[i].1@)));
        assert((sl@[i] matches Value::List(p) && p@.len() == 2 && crate::json_rpc::v_str(
            p@[0],
            b.subscriptions@[i].0@,
        ) && crate::json_rpc::v_str(p@[1], b.subscriptions@[i].1@)));
    }
}

/// One response shape names one authorize answer, up to the worker name,
/// which is not on the wire: it comes from the correlation table.
pub proof fn lemma_authorize_response_determined(
    a: server_to_client::Authorize,
    b: server_to_client::Authorize,
    resp: crate::json_rpc::Response,
)
    requires
        a.matches_response(resp),
        b.matches_response(resp),
    ensures
        a.id@ == b.id@,
        a.authorized == b.authorized,
{
}

/// One response shape names one submit answer.
pub proof fn lemma_submit_response_determined(
    a: server_to_client::Submit,
    b: server_to_client::Submit,
    resp: crate::json_rpc::Response,
)
    requires
        a.matches_response(resp),
        b.matches_response(resp),
    ensures
        a.id@ == b.id@,
        a.is_ok == b.is_ok,
{
}

} // verus!
