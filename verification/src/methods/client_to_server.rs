//! Client-to-server methods of the V1 protocol: the five requests a miner
//! may send, each with its canonical wire shape and its response builder.

use vstd::prelude::*;
use vstd::string::StringExecFns;
use crate::json_rpc::{Id, Message, Response, StandardRequest, Value, v_bool, v_hex, v_hex32, v_num, v_str};
use crate::methods::ParsingMethodError;
use crate::methods::server_to_client::{
    configure_response_shape, parse_hex_param, parse_hex32_param, subscribe_response_shape,
    v_opt_bool, v_opt_vrp, value_of_opt_vrp, VersionRollingParams,
};
use crate::utils::{HexBytes, HexU32Be};

verus! {

/// `mining.authorize`: register a worker name under this connection.
pub struct Authorize {
    pub id: Id,
    pub name: String,
    pub password: String,
}

impl Authorize {
    /// The canonical wire shape of this request.
    pub open spec fn matches_message(self, m: Message) -> bool {
        &&& m matches Message::StandardRequest(r)
        &&& r.id@ == self.id@
        &&& r.method@ == "mining.authorize"@
        &&& r.params@.len() == 2
        &&& v_str(r.params@[0], self.name@)
        &&& v_str(r.params@[1], self.password@)
    }

    /// Two requests ask the same authorization.
    pub open spec fn eqv(self, o: Self) -> bool {
        self.id@ == o.id@ && self.name@ == o.name@ && self.password@ == o.password@
    }

    /// Serialize into the request shape the wire codec expects.
    pub fn to_message(&self) -> (m: Message)
        ensures
            self.matches_message(m),
    {
        Message::StandardRequest(
            StandardRequest {
                id: self.id.duplicate(),
                method: String::from_str("mining.authorize"),
                params: vec![Value::Str(self.name.clone()), Value::Str(self.password.clone())],
            },
        )
    }

    /// Parse the canonical request shape; fails exactly when no authorize
    /// request serializes to it.
    pub fn from_request(req: &StandardRequest) -> (r: Result<Authorize, ParsingMethodError>)
        requires
            req.method@ == "mining.authorize"@,
        ensures
            r matches Ok(a) ==> a.matches_message(Message::StandardRequest(*req)),
            r is Err ==> forall|a: Authorize| !a.matches_message(Message::StandardRequest(*req)),
            r is Err ==> r == Err::<Authorize, ParsingMethodError>(ParsingMethodError::BadParams),
    {
        if req.params.len() != 2 {
            return Err(ParsingMethodError::BadParams);
        }
        match (&req.params[0], &req.params[1]) {
            (Value::Str(name), Value::Str(password)) => Ok(
                Authorize { id: req.id.duplicate(), name: name.clone(), password: password.clone() },
            ),
            _ => Err(ParsingMethodError::BadParams),
        }
    }

    /// The response pairing this request: it carries the very same id.
    pub fn respond(self, authorized: bool) -> (r: Response)
        ensures
            r.id@ == self.id@,
            r.error is None,
            r.result matches Some(v) && v_bool(v, authorized),
            r.wf(),
    {
        Response { id: self.id, result: Some(Value::Bool(authorized)), error: None }
    }
}

/// `mining.configure`: negotiate version rolling before subscribing.
pub struct Configure {
    pub id: Id,
    pub version_rolling_mask: Option<HexU32Be>,
    pub version_rolling_min_bit_count: Option<HexU32Be>,
}

/// The value encodes the optional hex word; absence is the null sentinel.
pub open spec fn v_opt_hex32(v: Value, o: Option<HexU32Be>) -> bool {
    match o {
        None => v is Null,
        Some(h) => v_hex32(v, h.0),
    }
}

/// Build the value for an optional hex word.
pub fn value_of_opt_hex32(o: &Option<HexU32Be>) -> (v: Value)
    ensures
        v_opt_hex32(v, *o),
{
    match o {
        None => Value::Null,
        Some(h) => Value::Str(h.to_hex()),
    }
}

/// Parse an optional hex word; fails exactly when the value encodes none.
pub fn parse_opt_hex32(v: &Value) -> (r: Result<Option<HexU32Be>, ParsingMethodError>)
    ensures
        r matches Ok(o) ==> v_opt_hex32(*v, o),
        r is Err ==> forall|o: Option<HexU32Be>| !v_opt_hex32(*v, o),
        r is Err ==> r == Err::<Option<HexU32Be>, ParsingMethodError>(
            ParsingMethodError::BadParams,
        ),
{
    match v {
        Value::Null => Ok(None),
        _ => match parse_hex32_param(v) {
            Ok(h) => Ok(Some(h)),
            Err(e) => Err(e),
        },
    }
}

impl Configure {
    /// A request for the given version-rolling terms.
    pub fn new(id: Id, mask: Option<HexU32Be>, min_bit_count: Option<HexU32Be>) -> (r: Configure)
        ensures
            r.id@ == id@,
            r.version_rolling_mask == mask,
            r.version_rolling_min_bit_count == min_bit_count,
    {
        Configure { id, version_rolling_mask: mask, version_rolling_min_bit_count: min_bit_count }
    }

    /// The mask the client asks for.
    pub fn version_rolling_mask(&self) -> (r: Option<HexU32Be>)
        ensures
            r == self.version_rolling_mask,
    {
        self.version_rolling_mask
    }

    /// The minimum bit count the client asks for.
    pub fn version_rolling_min_bit_count(&self) -> (r: Option<HexU32Be>)
        ensures
            r == self.version_rolling_min_bit_count,
    {
        self.version_rolling_min_bit_count
    }

    /// The canonical wire shape of this request.
    pub open spec fn matches_message(self, m: Message) -> bool {
        &&& m matches Message::StandardRequest(r)
        &&& r.id@ == self.id@
        &&& r.method@ == "mining.configure"@
        &&& r.params@.len() == 2
        &&& v_opt_hex32(r.params@[0], self.version_rolling_mask)
        &&& v_opt_hex32(r.params@[1], self.version_rolling_min_bit_count)
    }

    /// Two requests ask the same terms.
    pub open spec fn eqv(self, o: Self) -> bool {
        self.id@ == o.id@ && self.version_rolling_mask == o.version_rolling_mask
            && self.version_rolling_min_bit_count == o.version_rolling_min_bit_count
    }

    /// Serialize into the request shape the wire codec expects.
    pub fn to_message(&self) -> (m: Message)
        ensures
            self.matches_message(m),
    {
        Message::StandardRequest(
            StandardRequest {
                id: self.id.duplicate(),
                method: String::from_str("mining.configure"),
                params: vec![
                    value_of_opt_hex32(&self.version_rolling_mask),
                    value_of_opt_hex32(&self.version_rolling_min_bit_count),
                ],
            },
        )
    }

    /// Parse the canonical request shape; fails exactly when no configure
    /// request serializes to it.
    pub fn from_request(req: &StandardRequest) -> (r: Result<Configure, ParsingMethodError>)
        requires
            req.method@ == "mining.configure"@,
        ensures
            r matches Ok(a) ==> a.matches_message(Message::StandardRequest(*req)),
            r is Err ==> forall|a: Configure| !a.matches_message(Message::StandardRequest(*req)),
            r is Err ==> r == Err::<Configure, ParsingMethodError>(ParsingMethodError::BadParams),
    {
        if req.params.len() != 2 {
            return Err(ParsingMethodError::BadParams);
        }
        let mask = match parse_opt_hex32(&req.params[0]) {
            Ok(o) => o,
            Err(e) => { return Err(e) },
        };
        let min_bit = match parse_opt_hex32(&req.params[1]) {
            Ok(o) => o,
            Err(e) => { return Err(e) },
        };
        Ok(Configure::new(req.id.duplicate(), mask, min_bit))
    }

    /// The response pairing this request: it carries the very same id.
    pub fn respond(self, version_rolling: Option<VersionRollingParams>, min_diff: Option<bool>) -> (r:
        Response)
        ensures
            configure_response_shape(self.id@, version_rolling, min_diff, r),
            r.id@ == self.id@,
            r.wf(),
    {
        let body = vec![value_of_opt_vrp(&version_rolling), match min_diff {
            None => Value::Null,
            Some(b) => Value::Bool(b),
        }];
        Response { id: self.id, result: Some(Value::List(body)), error: None }
    }
}

/// `mining.extranonce.subscribe`: announce support for extranonce updates.
pub struct ExtranonceSubscribe {
    pub id: Id,
}

impl ExtranonceSubscribe {
    /// The canonical wire shape of this request.
    pub open spec fn matches_message(self, m: Message) -> bool {
        &&& m matches Message::StandardRequest(r)
        &&& r.id@ == self.id@
        &&& r.method@ == "mining.extranonce.subscribe"@
        &&& r.params@.len() == 0
    }

    /// Two requests ask the same subscription.
    pub open spec fn eqv(self, o: Self) -> bool {
        self.id@ == o.id@
    }

    /// Serialize into the request shape the wire codec expects.
    pub fn to_message(&self) -> (m: Message)
        ensures
            self.matches_message(m),
    {
        Message::StandardRequest(
            StandardRequest {
                id: self.id.duplicate(),
                method: String::from_str("mining.extranonce.subscribe"),
                params: Vec::new(),
            },
        )
    }

    /// Parse the canonical request shape.
    pub fn from_request(req: &StandardRequest) -> (r: Result<
        ExtranonceSubscribe,
        ParsingMethodError,
    >)
        requires
            req.method@ == "mining.extranonce.subscribe"@,
        ensures
            r matches Ok(a) ==> a.matches_message(Message::StandardRequest(*req)),
            r is Err ==> forall|a: ExtranonceSubscribe| !a.matches_message(
                Message::StandardRequest(*req),
            ),
            r is Err ==> r == Err::<ExtranonceSubscribe, ParsingMethodError>(
                ParsingMethodError::BadParams,
            ),
    {
        if req.params.len() != 0 {
            return Err(ParsingMethodError::BadParams);
        }
        Ok(ExtranonceSubscribe { id: req.id.duplicate() })
    }
}

/// `mining.submit`: a share for the current job.
pub struct Submit {
    pub id: Id,
    pub user_name: String,
    pub job_id: String,
    pub extra_nonce2: HexBytes,
    pub time: i64,
    pub nonce: i64,
    pub version_bits: Option<HexU32Be>,
}

impl Submit {
    /// The canonical wire shape of this request.
    pub open spec fn matches_message(self, m: Message) -> bool {
        &&& m matches Message::StandardRequest(r)
        &&& r.id@ == self.id@
        &&& r.method@ == "mining.submit"@
        &&& r.params@.len() == (if self.version_bits is Some {
            6int
        } else {
            5int
        })
        &&& v_str(r.params@[0], self.user_name@)
        &&& v_str(r.params@[1], self.job_id@)
        &&& v_hex(r.params@[2], self.extra_nonce2.0@)
        &&& v_num(r.params@[3], self.time)
        &&& v_num(r.params@[4], self.nonce)
        &&& (self.version_bits matches Some(vb) ==> v_hex32(r.params@[5], vb.0))
    }

    /// Two requests carry the same share.
    pub open spec fn eqv(self, o: Self) -> bool {
        &&& self.id@ == o.id@
        &&& self.user_name@ == o.user_name@
        &&& self.job_id@ == o.job_id@
        &&& self.extra_nonce2.0@ == o.extra_nonce2.0@
        &&& self.time == o.time
        &&& self.nonce == o.nonce
        &&& self.version_bits == o.version_bits
    }

    /// Serialize into the request shape the wire codec expects.
    pub fn to_message(&self) -> (m: Message)
        ensures
            self.matches_message(m),
    {
        let mut params: Vec<Value> = Vec::new();
        params.push(Value::Str(self.user_name.clone()));
        params.push(Value::Str(self.job_id.clone()));
        params.push(Value::Str(self.extra_nonce2.to_hex()));
        params.push(Value::Num(self.time));
        params.push(Value::Num(self.nonce));
        match &self.version_bits {
            None => (),
            Some(vb) => { params.push(Value::Str(vb.to_hex())) },
        }
        Message::StandardRequest(
            StandardRequest {
                id: self.id.duplicate(),
                method: String::from_str("mining.submit"),
                params,
            },
        )
    }

    /// Parse the canonical request shape; fails exactly when no submit
    /// request serializes to it.
    pub fn from_request(req: &StandardRequest) -> (r: Result<Submit, ParsingMethodError>)
        requires
            req.method@ == "mining.submit"@,
        ensures
            r matches Ok(a) ==> a.matches_message(Message::StandardRequest(*req)),
            r is Err ==> forall|a: Submit| !a.matches_message(Message::StandardRequest(*req)),
            r is Err ==> r == Err::<Submit, ParsingMethodError>(ParsingMethodError::BadParams),
    {
        if req.params.len() != 5 && req.params.len() != 6 {
            return Err(ParsingMethodError::BadParams);
        }
        let user_name = match &req.params[0] {
            Value::Str(s) => s.clone(),
            _ => { return Err(ParsingMethodError::BadParams) },
        };
        let job_id = match &req.params[1] {
            Value::Str(s) => s.clone(),
            _ => { return Err(ParsingMethodError::BadParams) },
        };
        let extra_nonce2 = match parse_hex_param(&req.params[2]) {
            Ok(h) => h,
            Err(e) => { return Err(e) },
        };
        let time = match &req.params[3] {
            Value::Num(n) => *n,
            _ => { return Err(ParsingMethodError::BadParams) },
        };
        let nonce = match &req.params[4] {
            Value::Num(n) => *n,
            _ => { return Err(ParsingMethodError::BadParams) },
        };
        let version_bits = if req.params.len() == 6 {
            match parse_hex32_param(&req.params[5]) {
                Ok(h) => Some(h),
                Err(e) => { return Err(e) },
            }
        } else {
            None
        };
        Ok(
            Submit {
                id: req.id.duplicate(),
                user_name,
                job_id,
                extra_nonce2,
                time,
                nonce,
                version_bits,
            },
        )
    }

    /// The response pairing this request: it carries the very same id.
    pub fn respond(self, accepted: bool) -> (r: Response)
        ensures
            r.id@ == self.id@,
            r.error is None,
            r.result matches Some(v) && v_bool(v, accepted),
            r.wf(),
    {
        Response { id: self.id, result: Some(Value::Bool(accepted)), error: None }
    }
}

/// `mining.subscribe`: open the session for mining jobs.
pub struct Subscribe {
    pub id: Id,
    pub agent_signature: String,
    pub extranonce1: Option<HexBytes>,
}

impl Subscribe {
    /// The canonical wire shape of this request.
    pub open spec fn matches_message(self, m: Message) -> bool {
        &&& m matches Message::StandardRequest(r)
        &&& r.id@ == self.id@
        &&& r.method@ == "mining.subscribe"@
        &&& r.params@.len() == (if self.extranonce1 is Some {
            2int
        } else {
            1int
        })
        &&& v_str(r.params@[0], self.agent_signature@)
        &&& (self.extranonce1 matches Some(e) ==> v_hex(r.params@[1], e.0@))
    }

    /// Two requests ask the same subscription.
    pub open spec fn eqv(self, o: Self) -> bool {
        &&& self.id@ == o.id@
        &&& self.agent_signature@ == o.agent_signature@
        &&& (self.extranonce1 is Some <==> o.extranonce1 is Some)
        &&& (self.extranonce1 matches Some(e) ==> (o.extranonce1 matches Some(f) && e.0@ == f.0@))
    }

    /// Serialize into the request shape the wire codec expects.
    pub fn to_message(&self) -> (m: Message)
        ensures
            self.matches_message(m),
    {
        let mut params: Vec<Value> = Vec::new();
        params.push(Value::Str(self.agent_signature.clone()));
        match &self.extranonce1 {
            None => (),
            Some(e) => { params.push(Value::Str(e.to_hex())) },
        }
        Message::StandardRequest(
            StandardRequest {
                id: self.id.duplicate(),
                method: String::from_str("mining.subscribe"),
                params,
            },
        )
    }

    /// Parse the canonical request shape; fails exactly when no subscribe
    /// request serializes to it.
    pub fn from_request(req: &StandardRequest) -> (r: Result<Subscribe, ParsingMethodError>)
        requires
            req.method@ == "mining.subscribe"@,
        ensures
            r matches Ok(a) ==> a.matches_message(Message::StandardRequest(*req)),
            r is Err ==> forall|a: Subscribe| !a.matches_message(Message::StandardRequest(*req)),
            r is Err ==> r == Err::<Subscribe, ParsingMethodError>(ParsingMethodError::BadParams),
    {
        if req.params.len() != 1 && req.params.len() != 2 {
            return Err(ParsingMethodError::BadParams);
        }
        let agent_signature = match &req.params[0] {
            Value::Str(s) => s.clone(),
            _ => { return Err(ParsingMethodError::BadParams) },
        };
        let extranonce1 = if req.params.len() == 2 {
            match parse_hex_param(&req.params[1]) {
                Ok(h) => Some(h),
                Err(e) => { return Err(e) },
            }
        } else {
            None
        };
        Ok(Subscribe { id: req.id.duplicate(), agent_signature, extranonce1 })
    }

    /// The response pairing this request: it carries the very same id.
    #[verifier::loop_isolation(false)]
    pub fn respond(
        self,
        subscriptions: Vec<(String, String)>,
        extra_n1: HexBytes,
        extra_n2_size: usize,
    ) -> (r: Response)
        requires
            extra_n2_size <= 0xFFFFFFFF,
        ensures
            subscribe_response_shape(self.id@, subscriptions@, extra_n1.0@, extra_n2_size, r),
            r.id@ == self.id@,
            r.wf(),
    {
        let mut subs: Vec<Value> = Vec::new();
        let mut i: usize = 0;
        while i < subscriptions.len()
            invariant
                i <= subscriptions@.len(),
                subs@.len() == i,
                forall|j: int|
                    0 <= j < i ==> ((#[trigger] subs@[j]) matches Value::List(p) && p@.len() == 2
                        && v_str(p@[0], subscriptions@[j].0@) && v_str(
                        p@[1],
                        subscriptions@[j].1@,
                    )),
            decreases subscriptions@.len() - i,
        {
            let pair = vec![
                Value::Str(subscriptions[i].0.clone()),
                Value::Str(subscriptions[i].1.clone()),
            ];
            subs.push(Value::List(pair));
            i += 1;
        }
        let body = vec![
            Value::List(subs),
            Value::Str(extra_n1.to_hex()),
            Value::Num(extra_n2_size as i64),
        ];
        Response { id: self.id, result: Some(Value::List(body)), error: None }
    }
}

} // verus!
