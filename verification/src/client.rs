//! The client-side session state machine of the V1 protocol.
//!
//! A client value stands for one connection with one server, progressing
//! from `Init` through `Configured` to `Subscribed` and never backward.
//! Because a bare response does not say on the wire which request it
//! answers, the client keeps an outstanding-request table keyed by id;
//! outbound builders insert entries and inbound resolution retires them on
//! first match.

use vstd::prelude::*;
use vstd::string::StringExecFns;
use crate::error::Error;
use crate::json_rpc::{Id, IdView, Message, Response, id_eq};
use crate::methods::{client_to_server, server_to_client, parse_message, Method, Server2Client, Server2ClientResponse};
use crate::server::{names_set, opt_mask_view};
use crate::utils::{str_eq, HexBytes, HexU32Be};

verus! {

/// How far the session handshake has progressed. Forward only.
#[derive(Clone, Copy, Debug, PartialEq, Eq, Structural)]
pub enum ClientStatus {
    Init,
    Configured,
    Subscribed,
}

/// The rank of a status in the handshake order.
pub open spec fn status_ord(s: ClientStatus) -> int {
    match s {
        ClientStatus::Init => 0,
        ClientStatus::Configured => 1,
        ClientStatus::Subscribed => 2,
    }
}

/// Status order: the handshake never goes backward.
pub open spec fn status_leq(a: ClientStatus, b: ClientStatus) -> bool {
    status_ord(a) <= status_ord(b)
}

/// The status order is transitive, so a status that never decreases over
/// single steps never decreases over any sequence of handled messages.
pub proof fn lemma_status_leq_trans(a: ClientStatus, b: ClientStatus, c: ClientStatus)
    requires
        status_leq(a, b),
        status_leq(b, c),
    ensures
        status_leq(a, c),
{
}

/// The status after a configure answer: Init moves to Configured, a later
/// status stays where it is.
pub open spec fn bump_configured(s: ClientStatus) -> ClientStatus {
    match s {
        ClientStatus::Init => ClientStatus::Configured,
        _ => s,
    }
}

/// One entry of the outstanding-request table: what the request under an
/// id was, or the mark left once it has been answered.
pub enum Outstanding {
    Authorize(String),
    Submit,
    Resolved,
}

/// The mathematical shape of a table entry.
pub enum OutstandingV {
    Authorize(Seq<char>),
    Submit,
    Resolved,
}

impl View for Outstanding {
    type V = OutstandingV;

    open spec fn view(&self) -> OutstandingV {
        match self {
            Outstanding::Authorize(n) => OutstandingV::Authorize(n@),
            Outstanding::Submit => OutstandingV::Submit,
            Outstanding::Resolved => OutstandingV::Resolved,
        }
    }
}

/// The table a list of entries stands for: a later entry under the same
/// id overrides an earlier one.
pub open spec fn outstanding_map(s: Seq<(Id, Outstanding)>) -> Map<IdView, OutstandingV>
    decreases s.len(),
{
    if s.len() == 0 {
        Map::empty()
    } else {
        outstanding_map(s.drop_last()).insert(s.last().0@, s.last().1@)
    }
}

/// An id that no entry carries is not in the table.
proof fn lemma_outstanding_absent(s: Seq<(Id, Outstanding)>, k: IdView)
    requires
        forall|j: int| 0 <= j < s.len() ==> (#[trigger] s[j]).0@ != k,
    ensures
        !outstanding_map(s).contains_key(k),
    decreases s.len(),
{
    if s.len() > 0 {
        lemma_outstanding_absent(s.drop_last(), k);
    }
}

/// The table's binding for an id is the last entry that carries it.
proof fn lemma_outstanding_last_match(s: Seq<(Id, Outstanding)>, i: int, k: IdView)
    requires
        0 <= i < s.len(),
        s[i].0@ == k,
        forall|j: int| i < j < s.len() ==> (#[trigger] s[j]).0@ != k,
    ensures
        outstanding_map(s).contains_key(k),
        outstanding_map(s)[k] == s[i].1@,
    decreases s.len(),
{
    if i < s.len() - 1 {
        lemma_outstanding_last_match(s.drop_last(), i, k);
    }
}

/// The mathematical state of one client-side session.
pub struct ClientSessionView {
    pub status: ClientStatus,
    pub extranonce1: Seq<u8>,
    pub extranonce2_size: int,
    pub version_rolling_mask: Option<u32>,
    pub version_rolling_min_bit: Option<u32>,
    pub authorized: Set<Seq<char>>,
    pub last_notify: Option<server_to_client::Notify>,
    pub outstanding: Map<IdView, OutstandingV>,
    pub signature: Seq<char>,
}

/// The state a job announcement puts a session in: only the last notify
/// changes.
pub open spec fn notify_update_view(v: ClientSessionView, n: server_to_client::Notify) -> ClientSessionView {
    ClientSessionView { last_notify: Some(n), ..v }
}

/// Receiving the same notify twice leaves the session exactly where the
/// first one put it.
pub proof fn lemma_notify_twice(v: ClientSessionView, n: server_to_client::Notify)
    ensures
        notify_update_view(notify_update_view(v, n), n) == notify_update_view(v, n),
{
}

/// One client-side connection with a server.
pub trait IsClient {
    /// The mathematical session state an implementor exposes.
    spec fn session_view(&self) -> ClientSessionView;

    /// Policy hook: what to do with a response that carries an error. It
    /// must not move the handshake backward.
    fn handle_error_message(&mut self, message: Message) -> (r: Result<Option<Response>, Error>)
        ensures
            status_leq(old(self).session_view().status, final(self).session_view().status),
    ;

    /// If the id belongs to an outstanding authorize, retire the entry
    /// and hand back the worker name it carried.
    fn id_is_authorize(&mut self, id: &Id) -> (r: Option<String>)
        ensures
            (old(self).session_view().outstanding.contains_key(id@) && old(self).session_view().outstanding[id@] is Authorize) ==> (r matches Some(s) && s@ == old(self).session_view().outstanding[id@]->Authorize_0 && final(self).session_view() == (
            ClientSessionView {
                outstanding: old(self).session_view().outstanding.insert(
                    id@,
                    OutstandingV::Resolved,
                ),
                ..old(self).session_view()
            })),
            !(old(self).session_view().outstanding.contains_key(id@) && old(self).session_view().outstanding[id@] is Authorize) ==> (r is None && final(self).session_view() == old(self).session_view()),
    ;

    /// If the id belongs to an outstanding submit, retire the entry.
    fn id_is_submit(&mut self, id: &Id) -> (r: bool)
        ensures
            (old(self).session_view().outstanding.contains_key(id@) && old(self).session_view().outstanding[id@] is Submit) ==> (r && final(self).session_view() == (
            ClientSessionView {
                outstanding: old(self).session_view().outstanding.insert(
                    id@,
                    OutstandingV::Resolved,
                ),
                ..old(self).session_view()
            })),
            !(old(self).session_view().outstanding.contains_key(id@) && old(self).session_view().outstanding[id@] is Submit) ==> (!r && final(self).session_view()
                == old(self).session_view()),
    ;

    /// Policy hook: inspect a configure answer before it is adopted.
    fn handle_configure(&self, conf: &server_to_client::Configure) -> Result<(), Error>;

    /// Policy hook: inspect a subscribe answer before it is adopted. It
    /// must leave the session state alone.
    fn handle_subscribe(&mut self, subscribe: &server_to_client::Subscribe) -> (r: Result<
        (),
        Error,
    >)
        ensures
            final(self).session_view() == old(self).session_view(),
    ;

    /// Record the session's extranonce1.
    fn set_extranonce1(&mut self, extranonce1: HexBytes)
        ensures
            final(self).session_view() == (ClientSessionView {
                extranonce1: extranonce1.0@,
                ..old(self).session_view()
            }),
    ;

    /// The session's extranonce1.
    fn extranonce1(&self) -> (r: HexBytes)
        ensures
            r.0@ == self.session_view().extranonce1,
    ;

    /// Record the expected extranonce2 length.
    fn set_extranonce2_size(&mut self, extra_nonce2_size: usize)
        ensures
            extra_nonce2_size <= 0xFFFFFFFF ==> final(self).session_view() == (ClientSessionView {
                extranonce2_size: extra_nonce2_size as int,
                ..old(self).session_view()
            }),
            extra_nonce2_size > 0xFFFFFFFF ==> final(self).session_view() == old(self).session_view(),
    ;

    /// The expected extranonce2 length.
    fn extranonce2_size(&self) -> (r: usize)
        ensures
            r as int == self.session_view().extranonce2_size,
    ;

    /// The adopted version-rolling mask, if any.
    fn version_rolling_mask(&self) -> (r: Option<HexU32Be>)
        ensures
            opt_mask_view(r) == self.session_view().version_rolling_mask,
    ;

    /// Record the version-rolling mask.
    fn set_version_rolling_mask(&mut self, mask: Option<HexU32Be>)
        ensures
            final(self).session_view() == (ClientSessionView {
                version_rolling_mask: opt_mask_view(mask),
                ..old(self).session_view()
            }),
    ;

    /// Record the version-rolling minimum bit count.
    fn set_version_rolling_min_bit(&mut self, min: Option<HexU32Be>)
        ensures
            final(self).session_view() == (ClientSessionView {
                version_rolling_min_bit: opt_mask_view(min),
                ..old(self).session_view()
            }),
    ;

    /// The adopted version-rolling minimum bit count, if any.
    fn version_rolling_min_bit(&mut self) -> (r: Option<HexU32Be>)
        ensures
            final(self).session_view() == old(self).session_view(),
            opt_mask_view(r) == old(self).session_view().version_rolling_min_bit,
    ;

    /// Record the handshake status.
    fn set_status(&mut self, status: ClientStatus)
        ensures
            final(self).session_view() == (ClientSessionView {
                status,
                ..old(self).session_view()
            }),
    ;

    /// The user-agent signature sent on subscribe.
    fn signature(&self) -> (r: String)
        ensures
            r@ == self.session_view().signature,
    ;

    /// The handshake status.
    fn status(&self) -> (r: ClientStatus)
        ensures
            r == self.session_view().status,
    ;

    /// The most recent job announcement, if any arrived.
    fn last_notify(&self) -> (r: Option<server_to_client::Notify>)
        ensures
            r is Some <==> self.session_view().last_notify is Some,
            r matches Some(n) ==> (self.session_view().last_notify matches Some(m) && n.eqv(m)),
    ;

    /// Store a job announcement as the most recent one.
    fn set_last_notify(&mut self, notify: server_to_client::Notify)
        ensures
            final(self).session_view() == notify_update_view(old(self).session_view(), notify),
    ;

    /// Has the server authorized this worker name?
    fn is_authorized(&self, name: &String) -> (r: bool)
        ensures
            r == self.session_view().authorized.contains(name@),
    ;

    /// Record a worker name the server authorized.
    fn authorize_user_name(&mut self, name: String)
        ensures
            final(self).session_view() == (ClientSessionView {
                authorized: old(self).session_view().authorized.insert(name@),
                ..old(self).session_view()
            }),
    ;

    /// Put an entry into the outstanding-request table.
    fn register_outstanding(&mut self, id: &Id, entry: Outstanding)
        ensures
            final(self).session_view() == (ClientSessionView {
                outstanding: old(self).session_view().outstanding.insert(id@, entry@),
                ..old(self).session_view()
            }),
    ;

    /// Handle one inbound message: resolve and adopt responses, apply
    /// notifications, refuse client-bound requests. The handshake status
    /// never moves backward.
    fn handle_message(&mut self, msg: Message) -> (r: Result<Option<Response>, Error>)
        ensures
            status_leq(old(self).session_view().status, final(self).session_view().status),
            forall|n: server_to_client::Notify| #[trigger]
                n.matches_message(msg) ==> (r matches Ok(o) && o is None && (final(self).session_view().last_notify matches Some(m) && m.eqv(n)) && final(self).session_view() == (ClientSessionView {
                    last_notify: final(self).session_view().last_notify,
                    ..old(self).session_view()
                })),
            forall|se: server_to_client::SetExtranonce| #[trigger]
                se.matches_message(msg) ==> (r matches Ok(o) && o is None && final(self).session_view() == (ClientSessionView {
                    extranonce1: se.extra_nonce1.0@,
                    extranonce2_size: se.extra_nonce2_size as int,
                    ..old(self).session_view()
                })),
            forall|sm: server_to_client::SetVersionMask| #[trigger]
                sm.matches_message(msg) ==> (r matches Ok(o) && o is None && final(self).session_view() == (ClientSessionView {
                    version_rolling_mask: Some(sm.version_mask.0),
                    ..old(self).session_view()
                })),
            forall|sd: server_to_client::SetDifficulty| #[trigger]
                sd.matches_message(msg) ==> (r matches Ok(o) && o is None && final(self).session_view() == old(self).session_view()),
            forall|c: server_to_client::Configure|
                (msg is Response && #[trigger] c.matches_response(msg->Response_0)) ==> ((r
                    matches Ok(o) && o is None && final(self).session_view() == (
                ClientSessionView {
                    version_rolling_mask: opt_mask_view(c.spec_version_rolling_mask()),
                    version_rolling_min_bit: opt_mask_view(c.spec_version_rolling_min_bit()),
                    status: bump_configured(old(self).session_view().status),
                    ..old(self).session_view()
                })) || (r is Err && final(self).session_view() == old(self).session_view())),
            forall|s: server_to_client::Subscribe|
                (msg is Response && #[trigger] s.matches_response(msg->Response_0)) ==> ((r
                    matches Ok(o) && o is None && final(self).session_view() == (
                ClientSessionView {
                    extranonce1: s.extra_nonce1.0@,
                    extranonce2_size: s.extra_nonce2_size as int,
                    status: ClientStatus::Subscribed,
                    ..old(self).session_view()
                })) || (r is Err && final(self).session_view() == old(self).session_view())),
            (msg is Response && msg->Response_0.error is None && msg->Response_0.result is Some
                && msg->Response_0.result->Some_0 is Bool && old(self).session_view().outstanding.contains_key(msg->Response_0.id@) && old(self).session_view().outstanding[msg->Response_0.id@] is Authorize) ==> (r matches Ok(o)
                && o is None && final(self).session_view() == (ClientSessionView {
                authorized: if msg->Response_0.result->Some_0->Bool_0 {
                    old(self).session_view().authorized.insert(
                        old(self).session_view().outstanding[msg->Response_0.id@]->Authorize_0,
                    )
                } else {
                    old(self).session_view().authorized
                },
                outstanding: old(self).session_view().outstanding.insert(
                    msg->Response_0.id@,
                    OutstandingV::Resolved,
                ),
                ..old(self).session_view()
            })),
            (msg is Response && msg->Response_0.error is None && msg->Response_0.result is Some
                && msg->Response_0.result->Some_0 is Bool && old(self).session_view().outstanding.contains_key(msg->Response_0.id@) && old(self).session_view().outstanding[msg->Response_0.id@] is Submit) ==> (r matches Ok(o) && o
                is None && final(self).session_view() == (ClientSessionView {
                outstanding: old(self).session_view().outstanding.insert(
                    msg->Response_0.id@,
                    OutstandingV::Resolved,
                ),
                ..old(self).session_view()
            })),
            (msg is Response && msg->Response_0.error is None && msg->Response_0.result is Some
                && msg->Response_0.result->Some_0 is Bool && !(old(self).session_view().outstanding.contains_key(msg->Response_0.id@) && (old(self).session_view().outstanding[msg->Response_0.id@] is Authorize || old(self).session_view().outstanding[msg->Response_0.id@] is Submit))) ==> (r matches Err(e)
                && e matches Error::UnknownID(i) && i@ == msg->Response_0.id@ && final(self).session_view() == old(self).session_view()),
    {
        let ghost msg0 = msg;
        match parse_message(msg) {
            Ok(m) => match m {
                Method::Server2ClientResponse(response) => {
                    let ghost resp0 = response;
                    match self.update_response(response) {
                        Ok(resolved) => {
                            let hr = self.handle_response(resolved);
                            let r: Result<Option<Response>, Error> = match hr {
                                Ok(_) => Ok(None),
                                Err(e) => Err(e),
                            };
                            proof {
                                assert forall|c: server_to_client::Configure|
                                    msg0 is Response && #[trigger] c.matches_response(
                                    msg0->Response_0,
                                ) implies ((r matches Ok(o) && o is None
                                    && self.session_view() == (ClientSessionView {
                                    version_rolling_mask: opt_mask_view(
                                        c.spec_version_rolling_mask(),
                                    ),
                                    version_rolling_min_bit: opt_mask_view(
                                        c.spec_version_rolling_min_bit(),
                                    ),
                                    status: bump_configured(old(self).session_view().status),
                                    ..old(self).session_view()
                                })) || (r is Err && self.session_view() == old(self).session_view())) by {
                                    let b = resp0->Configure_0;
                                    crate::methods::lemma_configure_response_round_trip(
                                        c,
                                        b,
                                        msg0->Response_0,
                                    );
                                }
                                assert forall|s: server_to_client::Subscribe|
                                    msg0 is Response && #[trigger] s.matches_response(
                                    msg0->Response_0,
                                ) implies ((r matches Ok(o) && o is None
                                    && self.session_view() == (ClientSessionView {
                                    extranonce1: s.extra_nonce1.0@,
                                    extranonce2_size: s.extra_nonce2_size as int,
                                    status: ClientStatus::Subscribed,
                                    ..old(self).session_view()
                                })) || (r is Err && self.session_view() == old(self).session_view())) by {
                                    let b = resp0->Subscribe_0;
                                    crate::methods::lemma_subscribe_response_round_trip(
                                        s,
                                        b,
                                        msg0->Response_0,
                                    );
                                }
                            }
                            r
                        },
                        Err(e) => Err(e),
                    }
                },
                Method::Server2Client(request) => {
                    let ghost r0 = request;
                    let r = self.handle_request(request);
                    proof {
                        assert forall|n: server_to_client::Notify| #[trigger]
                            n.matches_message(msg0) implies (r matches Ok(o) && o is None && (
                        self.session_view().last_notify matches Some(m) && m.eqv(n)) && self.session_view() == (ClientSessionView {
                            last_notify: self.session_view().last_notify,
                            ..old(self).session_view()
                        })) by {
                            let b = r0->Notify_0;
                            crate::methods::lemma_notify_round_trip(n, b, msg0);
                        }
                        assert forall|se: server_to_client::SetExtranonce| #[trigger]
                            se.matches_message(msg0) implies (r matches Ok(o) && o is None
                            && self.session_view() == (ClientSessionView {
                            extranonce1: se.extra_nonce1.0@,
                            extranonce2_size: se.extra_nonce2_size as int,
                            ..old(self).session_view()
                        })) by {
                            let b = r0->SetExtranonce_0;
                            crate::methods::lemma_set_extranonce_round_trip(se, b, msg0);
                        }
                        assert forall|sm: server_to_client::SetVersionMask| #[trigger]
                            sm.matches_message(msg0) implies (r matches Ok(o) && o is None
                            && self.session_view() == (ClientSessionView {
                            version_rolling_mask: Some(sm.version_mask.0),
                            ..old(self).session_view()
                        })) by {
                            let b = r0->SetVersionMask_0;
                            crate::methods::lemma_set_version_mask_round_trip(sm, b, msg0);
                        }
                    }
                    r
                },
                Method::Client2Server(_) => Err(Error::InvalidReceiver(m)),
                Method::ErrorMessage(message) => self.handle_error_message(message),
            },
            Err(e) => Err(Error::Parsing(e)),
        }
    }

    /// Resolve an ambiguous response against the outstanding-request
    /// table: the entry registered under the id names the variant, and is
    /// retired on first match; an id with no live entry is unknown.
    fn update_response(&mut self, response: Server2ClientResponse) -> (r: Result<
        Server2ClientResponse,
        Error,
    >)
        ensures
            final(self).session_view().status == old(self).session_view().status,
            r matches Ok(x) ==> !(x is GeneralResponse),
            !(response is GeneralResponse) ==> (r matches Ok(x) && x == response && final(self).session_view() == old(self).session_view()),
            response matches Server2ClientResponse::GeneralResponse(g) ==> ((old(self).session_view().outstanding.contains_key(g.id@) && old(self).session_view().outstanding[g.id@] is Authorize) ==> (r matches Ok(x) && x matches
                Server2ClientResponse::Authorize(a) && a.id@ == g.id@ && a.authorized == g.result
                && a.user_name@ == old(self).session_view().outstanding[g.id@]->Authorize_0
                && final(self).session_view() == (ClientSessionView {
                outstanding: old(self).session_view().outstanding.insert(
                    g.id@,
                    OutstandingV::Resolved,
                ),
                ..old(self).session_view()
            }))),
            response matches Server2ClientResponse::GeneralResponse(g) ==> ((old(self).session_view().outstanding.contains_key(g.id@) && old(self).session_view().outstanding[g.id@] is Submit) ==> (r matches Ok(x) && x matches
                Server2ClientResponse::Submit(sb) && sb.id@ == g.id@ && sb.is_ok == g.result
                && final(self).session_view() == (ClientSessionView {
                outstanding: old(self).session_view().outstanding.insert(
                    g.id@,
                    OutstandingV::Resolved,
                ),
                ..old(self).session_view()
            }))),
            response matches Server2ClientResponse::GeneralResponse(g) ==> (!(old(self).session_view().outstanding.contains_key(g.id@) && (old(self).session_view().outstanding[g.id@] is Authorize || old(self).session_view().outstanding[g.id@] is Submit)) ==> (r matches Err(e) && e matches
                Error::UnknownID(i) && i@ == g.id@ && final(self).session_view() == old(self).session_view())),
    {
        match response {
            Server2ClientResponse::GeneralResponse(general) => {
                let is_authorize = self.id_is_authorize(&general.id);
                let is_submit = self.id_is_submit(&general.id);
                match (is_authorize, is_submit) {
                    (Some(prev_name), false) => Ok(
                        Server2ClientResponse::Authorize(general.into_authorize(prev_name)),
                    ),
                    (None, true) => Ok(Server2ClientResponse::Submit(general.into_submit())),
                    _ => {
                        let server_to_client::GeneralResponse { id, result: _ } = general;
                        Err(Error::UnknownID(id))
                    },
                }
            },
            other => Ok(other),
        }
    }

    /// Apply a server notification: store a job, adopt new session
    /// parameters. Always answerless.
    fn handle_request(&mut self, request: Server2Client) -> (r: Result<Option<Response>, Error>)
        ensures
            final(self).session_view().status == old(self).session_view().status,
            request matches Server2Client::Notify(n) ==> (r matches Ok(o) && o is None && final(self).session_view() == notify_update_view(old(self).session_view(), n)),
            request matches Server2Client::SetDifficulty(_) ==> (r matches Ok(o) && o is None
                && final(self).session_view() == old(self).session_view()),
            request matches Server2Client::SetExtranonce(se) ==> (r matches Ok(o) && o is None && (
            se.extra_nonce2_size <= 0xFFFFFFFF ==> final(self).session_view() == (
            ClientSessionView {
                extranonce1: se.extra_nonce1.0@,
                extranonce2_size: se.extra_nonce2_size as int,
                ..old(self).session_view()
            }))),
            request matches Server2Client::SetVersionMask(sm) ==> (r matches Ok(o) && o is None
                && final(self).session_view() == (ClientSessionView {
                version_rolling_mask: Some(sm.version_mask.0),
                ..old(self).session_view()
            })),
    {
        match request {
            Server2Client::Notify(notify) => match self.handle_notify(notify) {
                Ok(_) => Ok(None),
                Err(e) => Err(e),
            },
            Server2Client::SetDifficulty(_) => Ok(None),
            Server2Client::SetExtranonce(se) => {
                self.set_extranonce1(se.extra_nonce1);
                self.set_extranonce2_size(se.extra_nonce2_size);
                Ok(None)
            },
            Server2Client::SetVersionMask(sm) => {
                self.set_version_rolling_mask(Some(sm.version_mask));
                Ok(None)
            },
        }
    }

    /// Store a job announcement; nothing else changes.
    fn handle_notify(&mut self, notify: server_to_client::Notify) -> (r: Result<(), Error>)
        ensures
            r is Ok,
            final(self).session_view() == notify_update_view(old(self).session_view(), notify),
    {
        self.set_last_notify(notify);
        Ok(())
    }

    /// Adopt a resolved response: configure and subscribe advance the
    /// handshake, authorize fills the authorized set, submit changes
    /// nothing. The status never moves backward.
    fn handle_response(&mut self, response: Server2ClientResponse) -> (r: Result<(), Error>)
        requires
            !(response is GeneralResponse),
        ensures
            status_leq(old(self).session_view().status, final(self).session_view().status),
            response matches Server2ClientResponse::Configure(c) ==> ((r is Ok ==> final(self).session_view() == (ClientSessionView {
                version_rolling_mask: opt_mask_view(c.spec_version_rolling_mask()),
                version_rolling_min_bit: opt_mask_view(c.spec_version_rolling_min_bit()),
                status: bump_configured(old(self).session_view().status),
                ..old(self).session_view()
            })) && (r is Err ==> final(self).session_view() == old(self).session_view())),
            response matches Server2ClientResponse::Subscribe(s) ==> ((r is Ok
                && s.extra_nonce2_size <= 0xFFFFFFFF) ==> final(self).session_view() == (
            ClientSessionView {
                extranonce1: s.extra_nonce1.0@,
                extranonce2_size: s.extra_nonce2_size as int,
                status: ClientStatus::Subscribed,
                ..old(self).session_view()
            })),
            (response matches Server2ClientResponse::Subscribe(_) && r is Err) ==> final(self).session_view() == old(self).session_view(),
            response matches Server2ClientResponse::Authorize(a) ==> (r is Ok && final(self).session_view() == (ClientSessionView {
                authorized: if a.authorized {
                    old(self).session_view().authorized.insert(a.user_name@)
                } else {
                    old(self).session_view().authorized
                },
                ..old(self).session_view()
            })),
            response matches Server2ClientResponse::Submit(_) ==> (r is Ok && final(self).session_view() == old(self).session_view()),
    {
        match response {
            Server2ClientResponse::Configure(configure) => {
                match self.handle_configure(&configure) {
                    Ok(_) => (),
                    Err(e) => { return Err(e) },
                }
                self.set_version_rolling_mask(configure.version_rolling_mask());
                self.set_version_rolling_min_bit(configure.version_rolling_min_bit());
                match self.status() {
                    ClientStatus::Init => self.set_status(ClientStatus::Configured),
                    _ => (),
                }
                Ok(())
            },
            Server2ClientResponse::Subscribe(subscribe) => {
                match self.handle_subscribe(&subscribe) {
                    Ok(_) => (),
                    Err(e) => { return Err(e) },
                }
                self.set_extranonce1(subscribe.extra_nonce1);
                self.set_extranonce2_size(subscribe.extra_nonce2_size);
                self.set_status(ClientStatus::Subscribed);
                Ok(())
            },
            Server2ClientResponse::Authorize(authorize) => {
                if authorize.is_ok() {
                    let name = authorize.user_name();
                    self.authorize_user_name(name);
                }
                Ok(())
            },
            Server2ClientResponse::Submit(_) => Ok(()),
            Server2ClientResponse::GeneralResponse(_) => Ok(()),
        }
    }

    /// Build a configure request carrying the session's rolling terms.
    /// Valid in any state.
    fn configure(&mut self, id: Id) -> (r: Message)
        ensures
            final(self).session_view() == old(self).session_view(),
            exists|c: client_to_server::Configure| #[trigger]
                c.matches_message(r) && c.id@ == id@ && opt_mask_view(c.version_rolling_mask)
                    == old(self).session_view().version_rolling_mask && opt_mask_view(
                    c.version_rolling_min_bit_count,
                ) == old(self).session_view().version_rolling_min_bit,
    {
        let mask = self.version_rolling_mask();
        let min_bit = self.version_rolling_min_bit();
        let c = client_to_server::Configure::new(id, mask, min_bit);
        let m = c.to_message();
        proof {
            assert(c.matches_message(m) && c.id@ == id@ && opt_mask_view(c.version_rolling_mask)
                == old(self).session_view().version_rolling_mask && opt_mask_view(
                c.version_rolling_min_bit_count,
            ) == old(self).session_view().version_rolling_min_bit);
        }
        m
    }

    /// Build a subscribe request. Forbidden in `Init`.
    fn subscribe(&mut self, id: Id, extranonce1: Option<HexBytes>) -> (r: Result<Message, Error>)
        ensures
            final(self).session_view() == old(self).session_view(),
            old(self).session_view().status is Init ==> (r matches Err(e) && e
                is StateViolation),
            !(old(self).session_view().status is Init) ==> (r matches Ok(m) && exists|
                s: client_to_server::Subscribe,
            | #[trigger]
                s.matches_message(m) && s.id@ == id@ && s.agent_signature@ == old(self).session_view().signature),
    {
        match self.status() {
            ClientStatus::Init => Err(Error::StateViolation),
            _ => {
                let s = client_to_server::Subscribe {
                    id,
                    agent_signature: self.signature(),
                    extranonce1,
                };
                let m = s.to_message();
                proof {
                    assert(s.matches_message(m) && s.id@ == id@ && s.agent_signature@ == old(self).session_view().signature);
                }
                Ok(m)
            },
        }
    }

    /// Build an authorize request and register its id in the table.
    /// Forbidden in `Init`.
    fn authorize(&mut self, id: Id, name: String, password: String) -> (r: Result<Message, Error>)
        ensures
            old(self).session_view().status is Init ==> (r matches Err(e) && e is StateViolation
                && final(self).session_view() == old(self).session_view()),
            !(old(self).session_view().status is Init) ==> (r matches Ok(m) && (exists|
                a: client_to_server::Authorize,
            | #[trigger]
                a.matches_message(m) && a.id@ == id@ && a.name@ == name@ && a.password@
                    == password@) && final(self).session_view() == (ClientSessionView {
                outstanding: old(self).session_view().outstanding.insert(
                    id@,
                    OutstandingV::Authorize(name@),
                ),
                ..old(self).session_view()
            })),
    {
        match self.status() {
            ClientStatus::Init => Err(Error::StateViolation),
            _ => {
                self.register_outstanding(&id, Outstanding::Authorize(name.clone()));
                let a = client_to_server::Authorize { id, name, password };
                let m = a.to_message();
                proof {
                    assert(a.matches_message(m) && a.id@ == id@);
                }
                Ok(m)
            },
        }
    }

    /// Build a submit request for the current job and register its id in
    /// the table. Forbidden in `Init`, without a job, or for a worker the
    /// server has not authorized.
    fn submit(
        &mut self,
        id: Id,
        user_name: String,
        extra_nonce2: HexBytes,
        time: i64,
        nonce: i64,
        version_bits: Option<HexU32Be>,
    ) -> (r: Result<Message, Error>)
        ensures
            old(self).session_view().status is Init ==> (r matches Err(e) && e is StateViolation
                && final(self).session_view() == old(self).session_view()),
            (!(old(self).session_view().status is Init) && old(self).session_view().last_notify
                is None) ==> (r matches Err(e) && e is StateViolation && final(self).session_view()
                == old(self).session_view()),
            (!(old(self).session_view().status is Init) && old(self).session_view().last_notify
                is Some && !old(self).session_view().authorized.contains(user_name@)) ==> (r
                matches Err(e) && e is StateViolation && final(self).session_view() == old(self).session_view()),
            (!(old(self).session_view().status is Init) && old(self).session_view().last_notify
                is Some && old(self).session_view().authorized.contains(user_name@)) ==> (r
                matches Ok(m) && (exists|s: client_to_server::Submit| #[trigger]
                s.matches_message(m) && s.id@ == id@ && s.user_name@ == user_name@
                    && s.extra_nonce2.0@ == extra_nonce2.0@ && s.time == time && s.nonce == nonce
                    && s.version_bits == version_bits && s.job_id@ == old(self).session_view().last_notify->Some_0.job_id@) && final(self).session_view() == (
            ClientSessionView {
                outstanding: old(self).session_view().outstanding.insert(
                    id@,
                    OutstandingV::Submit,
                ),
                ..old(self).session_view()
            })),
    {
        match self.status() {
            ClientStatus::Init => Err(Error::StateViolation),
            _ => match self.last_notify() {
                None => Err(Error::StateViolation),
                Some(notify) => {
                    if self.is_authorized(&user_name) {
                        self.register_outstanding(&id, Outstanding::Submit);
                        let s = client_to_server::Submit {
                            id,
                            user_name,
                            job_id: notify.job_id,
                            extra_nonce2,
                            time,
                            nonce,
                            version_bits,
                        };
                        let m = s.to_message();
                        proof {
                            assert(s.matches_message(m) && s.id@ == id@);
                        }
                        Ok(m)
                    } else {
                        Err(Error::StateViolation)
                    }
                },
            },
        }
    }
}

/// A ready-to-use client session backed by plain in-memory storage.
pub struct Client {
    pub status: ClientStatus,
    pub extranonce1: HexBytes,
    pub extranonce2_size: u32,
    pub version_rolling_mask: Option<HexU32Be>,
    pub version_rolling_min_bit: Option<HexU32Be>,
    pub authorized_names: Vec<String>,
    pub signature: String,
    pub last_notify: Option<server_to_client::Notify>,
    pub outstanding: Vec<(Id, Outstanding)>,
}

impl Client {
    /// A fresh session in `Init` with the given user-agent signature.
    pub fn new(signature: String) -> (r: Client)
        ensures
            r.session_view() == (ClientSessionView {
                status: ClientStatus::Init,
                extranonce1: Seq::<u8>::empty(),
                extranonce2_size: 0,
                version_rolling_mask: None,
                version_rolling_min_bit: None,
                authorized: Set::<Seq<char>>::empty(),
                last_notify: None,
                outstanding: Map::<IdView, OutstandingV>::empty(),
                signature: signature@,
            }),
    {
        let r = Client {
            status: ClientStatus::Init,
            extranonce1: HexBytes(Vec::new()),
            extranonce2_size: 0,
            version_rolling_mask: None,
            version_rolling_min_bit: None,
            authorized_names: Vec::new(),
            signature,
            last_notify: None,
            outstanding: Vec::new(),
        };
        proof {
            assert(names_set(r.authorized_names@) =~= Set::<Seq<char>>::empty());
            assert(r.extranonce1.0@ =~= Seq::<u8>::empty());
        }
        r
    }
}

impl IsClient for Client {
    open spec fn session_view(&self) -> ClientSessionView {
        ClientSessionView {
            status: self.status,
            extranonce1: self.extranonce1.0@,
            extranonce2_size: self.extranonce2_size as int,
            version_rolling_mask: opt_mask_view(self.version_rolling_mask),
            version_rolling_min_bit: opt_mask_view(self.version_rolling_min_bit),
            authorized: names_set(self.authorized_names@),
            last_notify: self.last_notify,
            outstanding: outstanding_map(self.outstanding@),
            signature: self.signature@,
        }
    }

    fn handle_error_message(&mut self, _message: Message) -> (r: Result<Option<Response>, Error>) {
        Ok(None)
    }

    fn id_is_authorize(&mut self, id: &Id) -> (r: Option<String>) {
        let ghost s = self.outstanding@;
        let mut i: usize = self.outstanding.len();
        while i > 0
            invariant
                i <= s.len(),
                self.outstanding@ == s,
                *self == *old(self),
                forall|j: int| i <= j < s.len() ==> (#[trigger] s[j]).0@ != id@,
            decreases i,
        {
            i -= 1;
            if id_eq(&self.outstanding[i].0, id) {
                proof {
                    lemma_outstanding_last_match(s, i as int, id@);
                }
                match &self.outstanding[i].1 {
                    Outstanding::Authorize(name) => {
                        let out = name.clone();
                        self.outstanding.push((id.duplicate(), Outstanding::Resolved));
                        proof {
                            assert(self.outstanding@.drop_last() =~= s);
                        }
                        return Some(out);
                    },
                    _ => { return None },
                }
            }
        }
        proof {
            lemma_outstanding_absent(s, id@);
        }
        None
    }

    fn id_is_submit(&mut self, id: &Id) -> (r: bool) {
        let ghost s = self.outstanding@;
        let mut i: usize = self.outstanding.len();
        while i > 0
            invariant
                i <= s.len(),
                self.outstanding@ == s,
                *self == *old(self),
                forall|j: int| i <= j < s.len() ==> (#[trigger] s[j]).0@ != id@,
            decreases i,
        {
            i -= 1;
            if id_eq(&self.outstanding[i].0, id) {
                proof {
                    lemma_outstanding_last_match(s, i as int, id@);
                }
                match &self.outstanding[i].1 {
                    Outstanding::Submit => {
                        self.outstanding.push((id.duplicate(), Outstanding::Resolved));
                        proof {
                            assert(self.outstanding@.drop_last() =~= s);
                        }
                        return true;
                    },
                    _ => { return false },
                }
            }
        }
        proof {
            lemma_outstanding_absent(s, id@);
        }
        false
    }

    fn handle_configure(&self, _conf: &server_to_client::Configure) -> Result<(), Error> {
        Ok(())
    }

    fn handle_subscribe(&mut self, _subscribe: &server_to_client::Subscribe) -> (r: Result<
        (),
        Error,
    >) {
        Ok(())
    }

    fn set_extranonce1(&mut self, extranonce1: HexBytes) {
        self.extranonce1 = extranonce1;
    }

    fn extranonce1(&self) -> (r: HexBytes) {
        self.extranonce1.duplicate()
    }

    fn set_extranonce2_size(&mut self, extra_nonce2_size: usize) {
        if extra_nonce2_size <= 0xFFFFFFFF {
            self.extranonce2_size = extra_nonce2_size as u32;
        }
    }

    fn extranonce2_size(&self) -> (r: usize) {
        self.extranonce2_size as usize
    }

    fn version_rolling_mask(&self) -> (r: Option<HexU32Be>) {
        self.version_rolling_mask
    }

    fn set_version_rolling_mask(&mut self, mask: Option<HexU32Be>) {
        self.version_rolling_mask = mask;
    }

    fn set_version_rolling_min_bit(&mut self, min: Option<HexU32Be>) {
        self.version_rolling_min_bit = min;
    }

    fn version_rolling_min_bit(&mut self) -> (r: Option<HexU32Be>) {
        self.version_rolling_min_bit
    }

    fn set_status(&mut self, status: ClientStatus) {
        self.status = status;
    }

    fn signature(&self) -> (r: String) {
        self.signature.clone()
    }

    fn status(&self) -> (r: ClientStatus) {
        self.status
    }

    fn last_notify(&self) -> (r: Option<server_to_client::Notify>) {
        match &self.last_notify {
            None => None,
            Some(n) => Some(n.duplicate()),
        }
    }

    fn set_last_notify(&mut self, notify: server_to_client::Notify) {
        self.last_notify = Some(notify);
    }

    fn is_authorized(&self, name: &String) -> (r: bool) {
        let mut i: usize = 0;
        while i < self.authorized_names.len()
            invariant
                i <= self.authorized_names@.len(),
                forall|j: int| 0 <= j < i ==> self.authorized_names@[j]@ != name@,
            decreases self.authorized_names@.len() - i,
        {
            if str_eq(self.authorized_names[i].as_str(), name.as_str()) {
                return true;
            }
            i += 1;
        }
        proof {
            assert(!names_set(self.authorized_names@).contains(name@));
        }
        false
    }

    fn authorize_user_name(&mut self, name: String) {
        let ghost nv = name@;
        self.authorized_names.push(name);
        proof {
            let s = self.authorized_names@;
            let pre = old(self).authorized_names@;
            assert forall|n: Seq<char>| names_set(s).contains(n) <==> names_set(pre).insert(
                nv,
            ).contains(n) by {
                if names_set(pre).insert(nv).contains(n) {
                    if n == nv {
                        assert(s[s.len() - 1]@ == n);
                    } else {
                        let i = choose|i: int| 0 <= i < pre.len() && pre[i]@ == n;
                        assert(s[i]@ == n);
                    }
                }
            }
            assert(names_set(s) =~= names_set(pre).insert(nv));
        }
    }

    fn register_outstanding(&mut self, id: &Id, entry: Outstanding) {
        self.outstanding.push((id.duplicate(), entry));
        proof {
            assert(self.outstanding@.drop_last() =~= old(self).outstanding@);
        }
    }
}

} // verus!
