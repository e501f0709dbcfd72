//! The server-side session state machine of the V1 protocol.
//!
//! A server value stands for one connection with one client. The state it
//! governs is the capability interface [`IsServer`]: the authorized worker
//! names, the assigned extranonce pair and the negotiated version-rolling
//! parameters. The provided handlers carry the protocol rules; an
//! implementor supplies storage and policy.

use vstd::prelude::*;
use vstd::string::StringExecFns;
use crate::error::Error;
use crate::json_rpc::{Message, Response, Value};
use crate::methods::{client_to_server, server_to_client, parse_message, Client2Server, Method};
use crate::methods::server_to_client::{configure_response_shape, subscribe_response_shape, VersionRollingParams};
use crate::utils::{str_eq, HexBytes, HexU32Be};

verus! {

/// The mathematical state of one server-side session.
pub struct ServerSessionView {
    pub authorized: Set<Seq<char>>,
    pub extranonce1: Seq<u8>,
    pub extranonce2_size: int,
    pub version_rolling_mask: Option<u32>,
    pub version_rolling_min_bit: Option<u32>,
}

/// The word a hex-encoded mask stands for, if one is there.
pub open spec fn opt_mask_view(o: Option<HexU32Be>) -> Option<u32> {
    match o {
        None => None,
        Some(h) => Some(h.0),
    }
}

/// The version-bits clause of submit validation: bits must come exactly
/// when a mask was negotiated, and flip nothing outside it.
pub open spec fn version_bits_ok(mask: Option<u32>, bits: Option<HexU32Be>) -> bool {
    match bits {
        Some(b) => mask matches Some(m) && crate::utils::spec_mask_ok(m, b.0),
        None => mask is None,
    }
}

/// All three submit validation clauses: the worker is authorized, the
/// extranonce2 has the session's length, and the version bits obey the
/// negotiated mask.
pub open spec fn valid_submit(v: ServerSessionView, s: client_to_server::Submit) -> bool {
    &&& v.authorized.contains(s.user_name@)
    &&& s.extra_nonce2.0@.len() == v.extranonce2_size
    &&& version_bits_ok(v.version_rolling_mask, s.version_bits)
}

/// What handling an authorize request does: a response under the same id
/// whose boolean says whether the name entered the authorized set.
pub open spec fn authorize_outcome(
    a: client_to_server::Authorize,
    pre: ServerSessionView,
    post: ServerSessionView,
    r: Result<Option<Response>, Error>,
) -> bool {
    &&& r matches Ok(o)
    &&& o matches Some(resp)
    &&& resp.id@ == a.id@
    &&& resp.wf()
    &&& (resp.result matches Some(v) && v matches Value::Bool(acc) && post == (ServerSessionView {
        authorized: if acc {
            pre.authorized.insert(a.name@)
        } else {
            pre.authorized
        },
        ..pre
    }))
}

/// What handling a submit does: state untouched, a same-id response
/// exactly when all validation clauses hold, the submission error
/// otherwise.
pub open spec fn submit_outcome(
    s: client_to_server::Submit,
    pre: ServerSessionView,
    post: ServerSessionView,
    r: Result<Option<Response>, Error>,
) -> bool {
    &&& post == pre
    &&& (valid_submit(pre, s) ==> (r matches Ok(o) && o matches Some(resp) && resp.id@ == s.id@
        && resp.wf() && (resp.result matches Some(v) && v is Bool)))
    &&& (!valid_submit(pre, s) ==> r == Err::<Option<Response>, Error>(Error::InvalidSubmission))
}

/// What handling a configure does: the requested mask and minimum bit are
/// recorded and a same-id response returns the negotiated terms.
pub open spec fn configure_outcome(
    c: client_to_server::Configure,
    pre: ServerSessionView,
    post: ServerSessionView,
    r: Result<Option<Response>, Error>,
) -> bool {
    &&& r matches Ok(o)
    &&& o matches Some(resp)
    &&& resp.id@ == c.id@
    &&& resp.wf()
    &&& post == (ServerSessionView {
        version_rolling_mask: opt_mask_view(c.version_rolling_mask),
        version_rolling_min_bit: opt_mask_view(c.version_rolling_min_bit_count),
        ..pre
    })
    &&& (exists|vr: Option<VersionRollingParams>, md: Option<bool>|
        configure_response_shape(c.id@, vr, md, resp))
}

/// What handling a subscribe does: a same-id response reporting exactly
/// the extranonce pair the session now holds.
pub open spec fn subscribe_outcome(
    su: client_to_server::Subscribe,
    pre: ServerSessionView,
    post: ServerSessionView,
    r: Result<Option<Response>, Error>,
) -> bool {
    &&& r matches Ok(o)
    &&& o matches Some(resp)
    &&& resp.id@ == su.id@
    &&& resp.wf()
    &&& post.authorized == pre.authorized
    &&& post.version_rolling_mask == pre.version_rolling_mask
    &&& post.version_rolling_min_bit == pre.version_rolling_min_bit
    &&& (exists|subs: Seq<(String, String)>, n2: usize|
        subscribe_response_shape(su.id@, subs, post.extranonce1, n2, resp) && n2 as int
            == post.extranonce2_size)
}

/// The state an extranonce update puts a session in.
pub open spec fn extranonce_update_view(v: ServerSessionView, e1: Seq<u8>, n2: int) -> ServerSessionView {
    ServerSessionView { extranonce1: e1, extranonce2_size: n2, ..v }
}

/// Updating the extranonce twice with the same values leaves the session
/// exactly where one update put it.
pub proof fn lemma_update_extranonce_idempotent(v: ServerSessionView, e1: Seq<u8>, n2: int)
    ensures
        extranonce_update_view(extranonce_update_view(v, e1, n2), e1, n2)
            == extranonce_update_view(v, e1, n2),
{
}

/// A submit the server accepts carries an extranonce2 whose length is the
/// session's extranonce2 size.
pub proof fn lemma_submit_success_extranonce2_len(
    v: ServerSessionView,
    s: client_to_server::Submit,
)
    requires
        valid_submit(v, s),
    ensures
        s.extra_nonce2.0@.len() == v.extranonce2_size,
{
}

/// One server-side connection with a client. The server never issues
/// requests, so it never takes responses.
pub trait IsServer {
    /// The mathematical session state an implementor exposes.
    spec fn session_view(&self) -> ServerSessionView;

    /// Policy hook: should this worker be authorized?
    fn handle_authorize(&self, request: &client_to_server::Authorize) -> bool;

    /// Policy hook: the subscription handles to report.
    fn handle_subscribe(&self, request: &client_to_server::Subscribe) -> Vec<(String, String)>;

    /// Policy hook: deliver an already validated share to the work
    /// acceptor.
    fn handle_submit(&self, request: &client_to_server::Submit) -> bool;

    /// Policy hook: the client announced support for extranonce updates.
    fn handle_extranonce_subscribe(&self);

    /// Policy hook: the negotiated version-rolling terms. It must leave
    /// the session state alone.
    fn handle_configure(&mut self, request: &client_to_server::Configure) -> (r: (
        Option<VersionRollingParams>,
        Option<bool>,
    ))
        ensures
            final(self).session_view() == old(self).session_view(),
    ;

    /// Is this worker name in the authorized set?
    fn is_authorized(&self, name: &str) -> (r: bool)
        ensures
            r == self.session_view().authorized.contains(name@),
    ;

    /// Put this worker name into the authorized set.
    fn authorize(&mut self, name: &str)
        ensures
            final(self).session_view() == (ServerSessionView {
                authorized: old(self).session_view().authorized.insert(name@),
                ..old(self).session_view()
            }),
    ;

    /// Set extranonce1 to the given value, or keep or mint one when none
    /// is given; the session then holds exactly what is returned.
    fn set_extranonce1(&mut self, extranonce1: Option<HexBytes>) -> (r: HexBytes)
        ensures
            final(self).session_view() == (ServerSessionView {
                extranonce1: r.0@,
                ..old(self).session_view()
            }),
            extranonce1 matches Some(e) ==> r.0@ == e.0@,
    ;

    /// The session's extranonce1.
    fn extranonce1(&self) -> (r: HexBytes)
        ensures
            r.0@ == self.session_view().extranonce1,
    ;

    /// Set the extranonce2 size, or keep or mint one when none is given;
    /// the session then holds exactly what is returned.
    fn set_extranonce2_size(&mut self, extra_nonce2_size: Option<usize>) -> (r: usize)
        ensures
            final(self).session_view() == (ServerSessionView {
                extranonce2_size: r as int,
                ..old(self).session_view()
            }),
            extra_nonce2_size matches Some(n) ==> (n <= 0xFFFFFFFF ==> r == n),
            r <= 0xFFFFFFFF,
    ;

    /// The session's extranonce2 size.
    fn extranonce2_size(&self) -> (r: usize)
        ensures
            r as int == self.session_view().extranonce2_size,
    ;

    /// The negotiated version-rolling mask, if any.
    fn version_rolling_mask(&self) -> (r: Option<HexU32Be>)
        ensures
            opt_mask_view(r) == self.session_view().version_rolling_mask,
    ;

    /// Record the version-rolling mask.
    fn set_version_rolling_mask(&mut self, mask: Option<HexU32Be>)
        ensures
            final(self).session_view() == (ServerSessionView {
                version_rolling_mask: opt_mask_view(mask),
                ..old(self).session_view()
            }),
    ;

    /// Record the version-rolling minimum bit count.
    fn set_version_rolling_min_bit(&mut self, mask: Option<HexU32Be>)
        ensures
            final(self).session_view() == (ServerSessionView {
                version_rolling_min_bit: opt_mask_view(mask),
                ..old(self).session_view()
            }),
    ;

    /// Policy hook: a job announcement built from the current job state;
    /// the job itself comes from an external work source.
    fn notify(&mut self) -> (r: Result<Message, Error>)
        ensures
            final(self).session_view() == old(self).session_view(),
    ;

    /// Handle one inbound message. The server never receives responses;
    /// everything else is dispatched to the typed handler.
    fn handle_message(&mut self, msg: Message) -> (r: Result<Option<Response>, Error>)
        ensures
            msg is Response ==> (r == Err::<Option<Response>, Error>(
                Error::InvalidJsonRpcMessageKind,
            ) && final(self).session_view() == old(self).session_view()),
            forall|a: client_to_server::Authorize| #[trigger]
                a.matches_message(msg) ==> authorize_outcome(
                    a,
                    old(self).session_view(),
                    final(self).session_view(),
                    r,
                ),
            forall|s: client_to_server::Submit| #[trigger]
                s.matches_message(msg) ==> submit_outcome(
                    s,
                    old(self).session_view(),
                    final(self).session_view(),
                    r,
                ),
            forall|c: client_to_server::Configure| #[trigger]
                c.matches_message(msg) ==> configure_outcome(
                    c,
                    old(self).session_view(),
                    final(self).session_view(),
                    r,
                ),
            forall|su: client_to_server::Subscribe| #[trigger]
                su.matches_message(msg) ==> subscribe_outcome(
                    su,
                    old(self).session_view(),
                    final(self).session_view(),
                    r,
                ),
            forall|e: client_to_server::ExtranonceSubscribe| #[trigger]
                e.matches_message(msg) ==> (r matches Ok(o) && o is None && final(self).session_view() == old(self).session_view()),
    {
        if msg.is_response() {
            return Err(Error::InvalidJsonRpcMessageKind);
        }
        let ghost msg0 = msg;
        match parse_message(msg) {
            Ok(m) => match m {
                Method::Client2Server(c) => {
                    let ghost c0 = c;
                    let r = self.handle_request(c);
                    proof {
                        assert forall|a: client_to_server::Authorize| #[trigger]
                            a.matches_message(msg0) implies authorize_outcome(
                            a,
                            old(self).session_view(),
                            self.session_view(),
                            r,
                        ) by {
                            let b = c0->Authorize_0;
                            crate::methods::lemma_authorize_round_trip(a, b, msg0);
                        }
                        assert forall|s: client_to_server::Submit| #[trigger]
                            s.matches_message(msg0) implies submit_outcome(
                            s,
                            old(self).session_view(),
                            self.session_view(),
                            r,
                        ) by {
                            let b = c0->Submit_0;
                            crate::methods::lemma_submit_round_trip(s, b, msg0);
                        }
                        assert forall|c: client_to_server::Configure| #[trigger]
                            c.matches_message(msg0) implies configure_outcome(
                            c,
                            old(self).session_view(),
                            self.session_view(),
                            r,
                        ) by {
                            let b = c0->Configure_0;
                            crate::methods::lemma_configure_round_trip(c, b, msg0);
                        }
                        assert forall|su: client_to_server::Subscribe| #[trigger]
                            su.matches_message(msg0) implies subscribe_outcome(
                            su,
                            old(self).session_view(),
                            self.session_view(),
                            r,
                        ) by {
                            let b = c0->Subscribe_0;
                            crate::methods::lemma_subscribe_round_trip(su, b, msg0);
                        }
                    }
                    r
                },
                _ => Err(Error::InvalidReceiver(m)),
            },
            Err(e) => Err(Error::Parsing(e)),
        }
    }

    /// Dispatch a typed client request to the right handler and build the
    /// response that pairs it.
    fn handle_request(&mut self, request: Client2Server) -> (r: Result<Option<Response>, Error>)
        ensures
            request matches Client2Server::Authorize(a) ==> authorize_outcome(
                a,
                old(self).session_view(),
                final(self).session_view(),
                r,
            ),
            request matches Client2Server::Configure(c) ==> configure_outcome(
                c,
                old(self).session_view(),
                final(self).session_view(),
                r,
            ),
            request matches Client2Server::ExtranonceSubscribe(_) ==> (r matches Ok(o) && o
                is None && final(self).session_view() == old(self).session_view()),
            request matches Client2Server::Submit(s) ==> submit_outcome(
                s,
                old(self).session_view(),
                final(self).session_view(),
                r,
            ),
            request matches Client2Server::Subscribe(su) ==> subscribe_outcome(
                su,
                old(self).session_view(),
                final(self).session_view(),
                r,
            ),
    {
        match request {
            Client2Server::Authorize(authorize) => {
                let authorized = self.handle_authorize(&authorize);
                if authorized {
                    self.authorize(authorize.name.as_str());
                }
                Ok(Some(authorize.respond(authorized)))
            },
            Client2Server::Configure(configure) => {
                self.set_version_rolling_mask(configure.version_rolling_mask());
                self.set_version_rolling_min_bit(configure.version_rolling_min_bit_count());
                let (version_rolling, min_diff) = self.handle_configure(&configure);
                Ok(Some(configure.respond(version_rolling, min_diff)))
            },
            Client2Server::ExtranonceSubscribe(_) => {
                self.handle_extranonce_subscribe();
                Ok(None)
            },
            Client2Server::Submit(submit) => {
                let has_valid_version_bits = match &submit.version_bits {
                    Some(a) => match self.version_rolling_mask() {
                        Some(version_rolling_mask) => version_rolling_mask.check_mask(a),
                        None => false,
                    },
                    None => self.version_rolling_mask().is_none(),
                };
                let is_valid_submission = self.is_authorized(submit.user_name.as_str())
                    && self.extranonce2_size() == submit.extra_nonce2.len()
                    && has_valid_version_bits;
                if is_valid_submission {
                    let accepted = self.handle_submit(&submit);
                    Ok(Some(submit.respond(accepted)))
                } else {
                    Err(Error::InvalidSubmission)
                }
            },
            Client2Server::Subscribe(subscribe) => {
                let subscriptions = self.handle_subscribe(&subscribe);
                let extra_n1 = self.set_extranonce1(None);
                let extra_n2_size = self.set_extranonce2_size(None);
                let ghost suid = subscribe.id@;
                let ghost subs0 = subscriptions@;
                let ghost e10 = extra_n1.0@;
                let resp = subscribe.respond(subscriptions, extra_n1, extra_n2_size);
                proof {
                    assert(self.session_view().extranonce1 == e10);
                    assert(subscribe_response_shape(
                        suid,
                        subs0,
                        self.session_view().extranonce1,
                        extra_n2_size,
                        resp,
                    ));
                }
                Ok(Some(resp))
            },
        }
    }

    /// Assign a new extranonce pair and build the update notification that
    /// announces it.
    fn update_extranonce(&mut self, extra_nonce1: HexBytes, extra_nonce2_size: usize) -> (r:
        Result<Message, Error>)
        requires
            extra_nonce2_size <= 0xFFFFFFFF,
        ensures
            final(self).session_view() == extranonce_update_view(
                old(self).session_view(),
                extra_nonce1.0@,
                extra_nonce2_size as int,
            ),
            r matches Ok(m) && (server_to_client::SetExtranonce {
                extra_nonce1,
                extra_nonce2_size,
            }).matches_message(m),
    {
        let dup = extra_nonce1.duplicate();
        self.set_extranonce1(Some(extra_nonce1));
        self.set_extranonce2_size(Some(extra_nonce2_size));
        let out = server_to_client::SetExtranonce { extra_nonce1: dup, extra_nonce2_size };
        Ok(out.to_message())
    }
}

/// The set of worker names a list of strings holds.
pub open spec fn names_set(s: Seq<String>) -> Set<Seq<char>> {
    Set::new(|n: Seq<char>| exists|i: int| 0 <= i < s.len() && s[i]@ == n)
}

/// A ready-to-use server session backed by plain in-memory storage, with
/// an accept-everything policy.
pub struct Server {
    pub authorized_names: Vec<String>,
    pub extranonce1: HexBytes,
    pub extranonce2_size: u32,
    pub version_rolling_mask: Option<HexU32Be>,
    pub version_rolling_min_bit: Option<HexU32Be>,
}

impl Server {
    /// A fresh session with the given extranonce pair and no authorized
    /// workers.
    pub fn new(extranonce1: HexBytes, extranonce2_size: u32) -> (r: Server)
        ensures
            r.session_view() == (ServerSessionView {
                authorized: Set::<Seq<char>>::empty(),
                extranonce1: extranonce1.0@,
                extranonce2_size: extranonce2_size as int,
                version_rolling_mask: None,
                version_rolling_min_bit: None,
            }),
    {
        let r = Server {
            authorized_names: Vec::new(),
            extranonce1,
            extranonce2_size,
            version_rolling_mask: None,
            version_rolling_min_bit: None,
        };
        proof {
            assert(names_set(r.authorized_names@) =~= Set::<Seq<char>>::empty());
        }
        r
    }
}

impl IsServer for Server {
    open spec fn session_view(&self) -> ServerSessionView {
        ServerSessionView {
            authorized: names_set(self.authorized_names@),
            extranonce1: self.extranonce1.0@,
            extranonce2_size: self.extranonce2_size as int,
            version_rolling_mask: opt_mask_view(self.version_rolling_mask),
            version_rolling_min_bit: opt_mask_view(self.version_rolling_min_bit),
        }
    }

    fn handle_authorize(&self, _request: &client_to_server::Authorize) -> bool {
        true
    }

    fn handle_subscribe(&self, _request: &client_to_server::Subscribe) -> Vec<(String, String)> {
        Vec::new()
    }

    fn handle_submit(&self, _request: &client_to_server::Submit) -> bool {
        true
    }

    fn handle_extranonce_subscribe(&self) {
    }

    fn handle_configure(&mut self, _request: &client_to_server::Configure) -> (r: (
        Option<VersionRollingParams>,
        Option<bool>,
    )) {
        (None, None)
    }

    fn is_authorized(&self, name: &str) -> (r: bool) {
        let mut i: usize = 0;
        while i < self.authorized_names.len()
            invariant
                i <= self.authorized_names@.len(),
                forall|j: int| 0 <= j < i ==> self.authorized_names@[j]@ != name@,
            decreases self.authorized_names@.len() - i,
        {
            if str_eq(self.authorized_names[i].as_str(), name) {
                return true;
            }
            i += 1;
        }
        proof {
            assert(!names_set(self.authorized_names@).contains(name@));
        }
        false
    }

    fn authorize(&mut self, name: &str) {
        let owned = String::from_str(name);
        self.authorized_names.push(owned);
        proof {
            let s = self.authorized_names@;
            let pre = old(self).authorized_names@;
            assert forall|n: Seq<char>| names_set(s).contains(n) <==> names_set(
                pre,
            ).insert(name@).contains(n) by {
                if names_set(pre).insert(name@).contains(n) {
                    if n == name@ {
                        assert(s[s.len() - 1]@ == n);
                    } else {
                        let i = choose|i: int| 0 <= i < pre.len() && pre[i]@ == n;
                        assert(s[i]@ == n);
                    }
                }
            }
            assert(names_set(s) =~= names_set(pre).insert(name@));
        }
    }

    fn set_extranonce1(&mut self, extranonce1: Option<HexBytes>) -> (r: HexBytes) {
        match extranonce1 {
            Some(e) => {
                let d = e.duplicate();
                self.extranonce1 = e;
                d
            },
            None => self.extranonce1.duplicate(),
        }
    }

    fn extranonce1(&self) -> (r: HexBytes) {
        self.extranonce1.duplicate()
    }

    fn set_extranonce2_size(&mut self, extra_nonce2_size: Option<usize>) -> (r: usize) {
        match extra_nonce2_size {
            Some(n) => {
                if n <= 0xFFFFFFFF {
                    self.extranonce2_size = n as u32;
                }
                self.extranonce2_size as usize
            },
            None => self.extranonce2_size as usize,
        }
    }

    fn extranonce2_size(&self) -> (r: usize) {
        self.extranonce2_size as usize
    }

    fn version_rolling_mask(&self) -> (r: Option<HexU32Be>) {
        self.version_rolling_mask
    }

    fn set_version_rolling_mask(&mut self, mask: Option<HexU32Be>) {
        self.version_rolling_mask = mask;
    }

    fn set_version_rolling_min_bit(&mut self, mask: Option<HexU32Be>) {
        self.version_rolling_min_bit = mask;
    }

    fn notify(&mut self) -> (r: Result<Message, Error>) {
        Err(Error::StateViolation)
    }
}

} // verus!
