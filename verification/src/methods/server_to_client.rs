//! Server-originated methods of the V1 protocol: job notifications, session
//! parameter updates, and the typed responses to client requests.

use vstd::prelude::*;
use vstd::string::StringExecFns;
use crate::json_rpc::{Id, Message, Notification, Response, Value, v_bool, v_hex, v_hex32, v_num, v_str};
use crate::methods::ParsingMethodError;
use crate::utils::{lemma_spec_hex_is_hex_ok, spec_hex, HexBytes, HexU32Be};

verus! {

/// The value is a list whose entries are the hex renderings of the given
/// byte strings, in order.
pub open spec fn v_hex_list(v: Value, bs: Seq<HexBytes>) -> bool {
    &&& v matches Value::List(l)
    &&& l@.len() == bs.len()
    &&& (forall|i: int| 0 <= i < bs.len() ==> v_hex(#[trigger] l@[i], bs[i].0@))
}

/// Parse a parameter that must be a hex byte string; fails exactly when it
/// is not the hex rendering of any byte string.
pub fn parse_hex_param(v: &Value) -> (r: Result<HexBytes, ParsingMethodError>)
    ensures
        r matches Ok(h) ==> v_hex(*v, h.0@),
        r is Err ==> forall|bs: Seq<u8>| !v_hex(*v, bs),
        r is Err ==> r == Err::<HexBytes, ParsingMethodError>(ParsingMethodError::BadParams),
{
    match v {
        Value::Str(s) => match HexBytes::from_hex(s.as_str()) {
            Ok(h) => Ok(h),
            Err(_) => {
                proof {
                    assert forall|bs: Seq<u8>| !v_hex(*v, bs) by {
                        lemma_spec_hex_is_hex_ok(bs);
                    }
                }
                Err(ParsingMethodError::BadParams)
            },
        },
        _ => Err(ParsingMethodError::BadParams),
    }
}

/// Parse a parameter that must be an eight-character hex word; fails
/// exactly when it is not the rendering of any 32-bit value.
pub fn parse_hex32_param(v: &Value) -> (r: Result<HexU32Be, ParsingMethodError>)
    ensures
        r matches Ok(h) ==> v_hex32(*v, h.0),
        r is Err ==> forall|x: u32| !v_hex32(*v, x),
        r is Err ==> r == Err::<HexU32Be, ParsingMethodError>(ParsingMethodError::BadParams),
{
    match v {
        Value::Str(s) => match HexU32Be::from_hex(s.as_str()) {
            Ok(h) => Ok(h),
            Err(_) => {
                proof {
                    assert forall|x: u32| !v_hex32(*v, x) by {
                        lemma_spec_hex_is_hex_ok(crate::utils::spec_be_bytes(x));
                    }
                }
                Err(ParsingMethodError::BadParams)
            },
        },
        _ => Err(ParsingMethodError::BadParams),
    }
}

/// Parse a parameter that must be a list of hex byte strings; fails exactly
/// when it is not the rendering of any such list.
#[verifier::loop_isolation(false)]
pub fn parse_hex_list_param(v: &Value) -> (r: Result<Vec<HexBytes>, ParsingMethodError>)
    ensures
        r matches Ok(hs) ==> v_hex_list(*v, hs@),
        r is Err ==> forall|bs: Seq<HexBytes>| !v_hex_list(*v, bs),
        r is Err ==> r == Err::<Vec<HexBytes>, ParsingMethodError>(ParsingMethodError::BadParams),
{
    match v {
        Value::List(l) => {
            let mut hs: Vec<HexBytes> = Vec::new();
            let mut j: usize = 0;
            loop
                invariant
                    j <= l@.len(),
                    hs@.len() == j,
                    forall|k: int| 0 <= k < j ==> v_hex(#[trigger] l@[k], hs@[k].0@),
                decreases l@.len() - j,
            {
                if j >= l.len() {
                    break;
                }
                match parse_hex_param(&l[j]) {
                    Ok(h) => { hs.push(h) },
                    Err(_) => {
                        proof {
                            assert forall|bs: Seq<HexBytes>| !v_hex_list(*v, bs) by {
                                if v_hex_list(*v, bs) {
                                    let l2 = (*v)->List_0;
                                    assert(l2 == *l);
                                    assert(v_hex(l2@[j as int], bs[j as int].0@));
                                }
                            }
                        }
                        return Err(ParsingMethodError::BadParams);
                    },
                }
                j += 1;
            }
            proof {
                let l2 = (*v)->List_0;
                assert(l2 == *l);
                assert forall|i: int| 0 <= i < hs@.len() implies v_hex(
                    #[trigger] l2@[i],
                    hs@[i].0@,
                ) by {
                    assert(v_hex(l@[i], hs@[i].0@));
                }
            }
            Ok(hs)
        },
        _ => Err(ParsingMethodError::BadParams),
    }
}

/// `mining.notify`: a job announcement. Its id is always the null sentinel.
pub struct Notify {
    pub job_id: String,
    pub prev_hash: HexBytes,
    pub coin_base1: HexBytes,
    pub coin_base2: HexBytes,
    pub merkle_branch: Vec<HexBytes>,
    pub version: HexU32Be,
    pub bits: HexU32Be,
    pub time: HexU32Be,
    pub clean_jobs: bool,
}

impl Notify {
    /// The canonical wire shape of this job announcement.
    pub open spec fn matches_message(self, m: Message) -> bool {
        &&& m matches Message::Notification(r)
        &&& r.method@ == "mining.notify"@
        &&& r.params@.len() == 9
        &&& v_str(r.params@[0], self.job_id@)
        &&& v_hex(r.params@[1], self.prev_hash.0@)
        &&& v_hex(r.params@[2], self.coin_base1.0@)
        &&& v_hex(r.params@[3], self.coin_base2.0@)
        &&& v_hex_list(r.params@[4], self.merkle_branch@)
        &&& v_hex32(r.params@[5], self.version.0)
        &&& v_hex32(r.params@[6], self.bits.0)
        &&& v_hex32(r.params@[7], self.time.0)
        &&& v_bool(r.params@[8], self.clean_jobs)
    }

    /// Two announcements carry the same job.
    pub open spec fn eqv(self, o: Self) -> bool {
        &&& self.job_id@ == o.job_id@
        &&& self.prev_hash.0@ == o.prev_hash.0@
        &&& self.coin_base1.0@ == o.coin_base1.0@
        &&& self.coin_base2.0@ == o.coin_base2.0@
        &&& self.merkle_branch@.len() == o.merkle_branch@.len()
        &&& (forall|i: int|
            0 <= i < self.merkle_branch@.len() ==> (#[trigger] self.merkle_branch@[i]).0@
                == o.merkle_branch@[i].0@)
        &&& self.version == o.version
        &&& self.bits == o.bits
        &&& self.time == o.time
        &&& self.clean_jobs == o.clean_jobs
    }

    /// A copy that carries the same job.
    pub fn duplicate(&self) -> (r: Notify)
        ensures
            r.eqv(*self),
    {
        let mut branch: Vec<HexBytes> = Vec::new();
        let mut i: usize = 0;
        while i < self.merkle_branch.len()
            invariant
                i <= self.merkle_branch@.len(),
                branch@.len() == i,
                forall|j: int|
                    0 <= j < i ==> (#[trigger] branch@[j]).0@ == self.merkle_branch@[j].0@,
            decreases self.merkle_branch@.len() - i,
        {
            branch.push(self.merkle_branch[i].duplicate());
            i += 1;
        }
        Notify {
            job_id: self.job_id.clone(),
            prev_hash: self.prev_hash.duplicate(),
            coin_base1: self.coin_base1.duplicate(),
            coin_base2: self.coin_base2.duplicate(),
            merkle_branch: branch,
            version: self.version,
            bits: self.bits,
            time: self.time,
            clean_jobs: self.clean_jobs,
        }
    }

    /// Serialize into the notification shape the wire codec expects.
    pub fn to_message(&self) -> (m: Message)
        ensures
            self.matches_message(m),
    {
        let mut brs: Vec<Value> = Vec::new();
        let mut i: usize = 0;
        while i < self.merkle_branch.len()
            invariant
                i <= self.merkle_branch@.len(),
                brs@.len() == i,
                forall|j: int| 0 <= j < i ==> v_hex(#[trigger] brs@[j], self.merkle_branch@[j].0@),
            decreases self.merkle_branch@.len() - i,
        {
            brs.push(Value::Str(self.merkle_branch[i].to_hex()));
            i += 1;
        }
        let mut params: Vec<Value> = Vec::new();
        params.push(Value::Str(self.job_id.clone()));
        params.push(Value::Str(self.prev_hash.to_hex()));
        params.push(Value::Str(self.coin_base1.to_hex()));
        params.push(Value::Str(self.coin_base2.to_hex()));
        params.push(Value::List(brs));
        params.push(Value::Str(self.version.to_hex()));
        params.push(Value::Str(self.bits.to_hex()));
        params.push(Value::Str(self.time.to_hex()));
        params.push(Value::Bool(self.clean_jobs));
        Message::Notification(Notification { method: String::from_str("mining.notify"), params })
    }

    /// Parse the canonical notification shape; fails exactly when no job
    /// announcement serializes to it.
    pub fn from_notification(req: &Notification) -> (r: Result<Notify, ParsingMethodError>)
        requires
            req.method@ == "mining.notify"@,
        ensures
            r matches Ok(n) ==> n.matches_message(Message::Notification(*req)),
            r is Err ==> forall|n: Notify| !n.matches_message(Message::Notification(*req)),
            r is Err ==> r == Err::<Notify, ParsingMethodError>(ParsingMethodError::BadParams),
    {
        if req.params.len() != 9 {
            return Err(ParsingMethodError::BadParams);
        }
        let job_id = match &req.params[0] {
            Value::Str(s) => s.clone(),
            _ => { return Err(ParsingMethodError::BadParams) },
        };
        let prev_hash = match parse_hex_param(&req.params[1]) {
            Ok(h) => h,
            Err(e) => { return Err(e) },
        };
        let coin_base1 = match parse_hex_param(&req.params[2]) {
            Ok(h) => h,
            Err(e) => { return Err(e) },
        };
        let coin_base2 = match parse_hex_param(&req.params[3]) {
            Ok(h) => h,
            Err(e) => { return Err(e) },
        };
        let merkle_branch = match parse_hex_list_param(&req.params[4]) {
            Ok(hs) => hs,
            Err(e) => { return Err(e) },
        };
        let version = match parse_hex32_param(&req.params[5]) {
            Ok(h) => h,
            Err(e) => { return Err(e) },
        };
        let bits = match parse_hex32_param(&req.params[6]) {
            Ok(h) => h,
            Err(e) => { return Err(e) },
        };
        let time = match parse_hex32_param(&req.params[7]) {
            Ok(h) => h,
            Err(e) => { return Err(e) },
        };
        let clean_jobs = match &req.params[8] {
            Value::Bool(b) => *b,
            _ => { return Err(ParsingMethodError::BadParams) },
        };
        Ok(
            Notify {
                job_id,
                prev_hash,
                coin_base1,
                coin_base2,
                merkle_branch,
                version,
                bits,
                time,
                clean_jobs,
            },
        )
    }
}

/// `mining.set_difficulty`: a new share difficulty.
#[derive(Clone, Copy, Debug, PartialEq, Eq, Structural)]
pub struct SetDifficulty {
    pub value: i64,
}

impl SetDifficulty {
    /// The canonical wire shape of this difficulty update.
    pub open spec fn matches_message(self, m: Message) -> bool {
        &&& m matches Message::Notification(r)
        &&& r.method@ == "mining.set_difficulty"@
        &&& r.params@.len() == 1
        &&& v_num(r.params@[0], self.value)
    }

    /// Two updates set the same difficulty.
    pub open spec fn eqv(self, o: Self) -> bool {
        self.value == o.value
    }

    /// Serialize into the notification shape the wire codec expects.
    pub fn to_message(&self) -> (m: Message)
        ensures
            self.matches_message(m),
    {
        Message::Notification(
            Notification {
                method: String::from_str("mining.set_difficulty"),
                params: vec![Value::Num(self.value)],
            },
        )
    }

    /// Parse the canonical notification shape.
    pub fn from_notification(req: &Notification) -> (r: Result<SetDifficulty, ParsingMethodError>)
        requires
            req.method@ == "mining.set_difficulty"@,
        ensures
            r matches Ok(n) ==> n.matches_message(Message::Notification(*req)),
            r is Err ==> forall|n: SetDifficulty| !n.matches_message(Message::Notification(*req)),
            r is Err ==> r == Err::<SetDifficulty, ParsingMethodError>(
                ParsingMethodError::BadParams,
            ),
    {
        if req.params.len() != 1 {
            return Err(ParsingMethodError::BadParams);
        }
        match &req.params[0] {
            Value::Num(n) => Ok(SetDifficulty { value: *n }),
            _ => Err(ParsingMethodError::BadParams),
        }
    }
}

/// `mining.set_extranonce`: new extranonce parameters for the session.
pub struct SetExtranonce {
    pub extra_nonce1: HexBytes,
    pub extra_nonce2_size: usize,
}

impl SetExtranonce {
    /// The canonical wire shape of this extranonce update.
    pub open spec fn matches_message(self, m: Message) -> bool {
        &&& m matches Message::Notification(r)
        &&& r.method@ == "mining.set_extranonce"@
        &&& r.params@.len() == 2
        &&& v_hex(r.params@[0], self.extra_nonce1.0@)
        &&& self.extra_nonce2_size <= 0xFFFFFFFF
        &&& v_num(r.params@[1], self.extra_nonce2_size as i64)
    }

    /// Two updates set the same extranonce parameters.
    pub open spec fn eqv(self, o: Self) -> bool {
        self.extra_nonce1.0@ == o.extra_nonce1.0@ && self.extra_nonce2_size == o.extra_nonce2_size
    }

    /// Serialize into the notification shape the wire codec expects.
    pub fn to_message(&self) -> (m: Message)
        requires
            self.extra_nonce2_size <= 0xFFFFFFFF,
        ensures
            self.matches_message(m),
    {
        Message::Notification(
            Notification {
                method: String::from_str("mining.set_extranonce"),
                params: vec![
                    Value::Str(self.extra_nonce1.to_hex()),
                    Value::Num(self.extra_nonce2_size as i64),
                ],
            },
        )
    }

    /// Parse the canonical notification shape.
    pub fn from_notification(req: &Notification) -> (r: Result<SetExtranonce, ParsingMethodError>)
        requires
            req.method@ == "mining.set_extranonce"@,
        ensures
            r matches Ok(n) ==> n.matches_message(Message::Notification(*req)),
            r is Err ==> forall|n: SetExtranonce| !n.matches_message(Message::Notification(*req)),
            r is Err ==> r == Err::<SetExtranonce, ParsingMethodError>(
                ParsingMethodError::BadParams,
            ),
    {
        if req.params.len() != 2 {
            return Err(ParsingMethodError::BadParams);
        }
        let extra_nonce1 = match parse_hex_param(&req.params[0]) {
            Ok(h) => h,
            Err(e) => { return Err(e) },
        };
        match &req.params[1] {
            Value::Num(n) => {
                if 0 <= *n && *n <= 0xFFFFFFFF {
                    Ok(SetExtranonce { extra_nonce1, extra_nonce2_size: *n as usize })
                } else {
                    Err(ParsingMethodError::BadParams)
                }
            },
            _ => Err(ParsingMethodError::BadParams),
        }
    }
}

/// `mining.set_version_mask`: a new version-rolling mask.
#[derive(Clone, Copy, Debug, PartialEq, Eq, Structural)]
pub struct SetVersionMask {
    pub version_mask: HexU32Be,
}

impl SetVersionMask {
    /// The canonical wire shape of this mask update.
    pub open spec fn matches_message(self, m: Message) -> bool {
        &&& m matches Message::Notification(r)
        &&& r.method@ == "mining.set_version_mask"@
        &&& r.params@.len() == 1
        &&& v_hex32(r.params@[0], self.version_mask.0)
    }

    /// Two updates set the same mask.
    pub open spec fn eqv(self, o: Self) -> bool {
        self.version_mask == o.version_mask
    }

    /// Serialize into the notification shape the wire codec expects.
    pub fn to_message(&self) -> (m: Message)
        ensures
            self.matches_message(m),
    {
        Message::Notification(
            Notification {
                method: String::from_str("mining.set_version_mask"),
                params: vec![Value::Str(self.version_mask.to_hex())],
            },
        )
    }

    /// Parse the canonical notification shape.
    pub fn from_notification(req: &Notification) -> (r: Result<SetVersionMask, ParsingMethodError>)
        requires
            req.method@ == "mining.set_version_mask"@,
        ensures
            r matches Ok(n) ==> n.matches_message(Message::Notification(*req)),
            r is Err ==> forall|n: SetVersionMask| !n.matches_message(Message::Notification(*req)),
            r is Err ==> r == Err::<SetVersionMask, ParsingMethodError>(
                ParsingMethodError::BadParams,
            ),
    {
        if req.params.len() != 1 {
            return Err(ParsingMethodError::BadParams);
        }
        match parse_hex32_param(&req.params[0]) {
            Ok(h) => Ok(SetVersionMask { version_mask: h }),
            Err(e) => Err(e),
        }
    }
}

/// The version-rolling terms a server grants: whether rolling is on, the
/// permitted mask and the minimum bit count.
#[derive(Clone, Copy, Debug, PartialEq, Eq, Structural)]
pub struct VersionRollingParams {
    pub version_rolling: bool,
    pub version_rolling_mask: HexU32Be,
    pub version_rolling_min_bit_count: HexU32Be,
}

/// The value encodes the given version-rolling terms.
pub open spec fn v_vrp(v: Value, p: VersionRollingParams) -> bool {
    &&& v matches Value::List(l)
    &&& l@.len() == 3
    &&& v_bool(l@[0], p.version_rolling)
    &&& v_hex32(l@[1], p.version_rolling_mask.0)
    &&& v_hex32(l@[2], p.version_rolling_min_bit_count.0)
}

/// The value encodes the given optional version-rolling terms; absence is
/// the null sentinel.
pub open spec fn v_opt_vrp(v: Value, o: Option<VersionRollingParams>) -> bool {
    match o {
        None => v is Null,
        Some(p) => v_vrp(v, p),
    }
}

/// The value encodes the given optional boolean; absence is the null
/// sentinel.
pub open spec fn v_opt_bool(v: Value, o: Option<bool>) -> bool {
    match o {
        None => v is Null,
        Some(b) => v_bool(v, b),
    }
}

/// Build the value for optional version-rolling terms.
pub fn value_of_opt_vrp(o: &Option<VersionRollingParams>) -> (v: Value)
    ensures
        v_opt_vrp(v, *o),
{
    match o {
        None => Value::Null,
        Some(p) => Value::List(
            vec![
                Value::Bool(p.version_rolling),
                Value::Str(p.version_rolling_mask.to_hex()),
                Value::Str(p.version_rolling_min_bit_count.to_hex()),
            ],
        ),
    }
}

/// Parse optional version-rolling terms; fails exactly when the value
/// encodes none.
pub fn parse_opt_vrp(v: &Value) -> (r: Result<Option<VersionRollingParams>, ParsingMethodError>)
    ensures
        r matches Ok(o) ==> v_opt_vrp(*v, o),
        r is Err ==> forall|o: Option<VersionRollingParams>| !v_opt_vrp(*v, o),
        r is Err ==> r == Err::<Option<VersionRollingParams>, ParsingMethodError>(
            ParsingMethodError::BadParams,
        ),
{
    match v {
        Value::Null => Ok(None),
        Value::List(l) => {
            if l.len() != 3 {
                return Err(ParsingMethodError::BadParams);
            }
            let version_rolling = match &l[0] {
                Value::Bool(b) => *b,
                _ => { return Err(ParsingMethodError::BadParams) },
            };
            let version_rolling_mask = match parse_hex32_param(&l[1]) {
                Ok(h) => h,
                Err(e) => { return Err(e) },
            };
            let version_rolling_min_bit_count = match parse_hex32_param(&l[2]) {
                Ok(h) => h,
                Err(e) => { return Err(e) },
            };
            Ok(
                Some(
                    VersionRollingParams {
                        version_rolling,
                        version_rolling_mask,
                        version_rolling_min_bit_count,
                    },
                ),
            )
        },
        _ => Err(ParsingMethodError::BadParams),
    }
}

/// Parse an optional boolean; fails exactly when the value encodes none.
pub fn parse_opt_bool(v: &Value) -> (r: Result<Option<bool>, ParsingMethodError>)
    ensures
        r matches Ok(o) ==> v_opt_bool(*v, o),
        r is Err ==> forall|o: Option<bool>| !v_opt_bool(*v, o),
        r is Err ==> r == Err::<Option<bool>, ParsingMethodError>(ParsingMethodError::BadParams),
{
    match v {
        Value::Null => Ok(None),
        Value::Bool(b) => Ok(Some(*b)),
        _ => Err(ParsingMethodError::BadParams),
    }
}

/// The response shape that answers `mining.configure`.
pub open spec fn configure_response_shape(
    idv: crate::json_rpc::IdView,
    vrp: Option<VersionRollingParams>,
    min_diff: Option<bool>,
    resp: Response,
) -> bool {
    &&& resp.id@ == idv
    &&& resp.error is None
    &&& (resp.result matches Some(v) && v matches Value::List(l) && l@.len() == 2 && v_opt_vrp(
        l@[0],
        vrp,
    ) && v_opt_bool(l@[1], min_diff))
}

/// The answer to `mining.configure`: the negotiated version-rolling terms
/// and minimum-difficulty flag.
pub struct Configure {
    pub id: Id,
    pub version_rolling: Option<VersionRollingParams>,
    pub minimum_difficulty: Option<bool>,
}

impl Configure {
    /// The canonical response shape of this answer.
    pub open spec fn matches_response(self, resp: Response) -> bool {
        configure_response_shape(self.id@, self.version_rolling, self.minimum_difficulty, resp)
    }

    /// Two answers grant the same terms.
    pub open spec fn eqv(self, o: Self) -> bool {
        self.id@ == o.id@ && self.version_rolling == o.version_rolling
            && self.minimum_difficulty == o.minimum_difficulty
    }

    /// The granted mask, if rolling terms were granted.
    pub open spec fn spec_version_rolling_mask(self) -> Option<HexU32Be> {
        match self.version_rolling {
            None => None,
            Some(p) => Some(p.version_rolling_mask),
        }
    }

    /// The granted minimum bit count, if rolling terms were granted.
    pub open spec fn spec_version_rolling_min_bit(self) -> Option<HexU32Be> {
        match self.version_rolling {
            None => None,
            Some(p) => Some(p.version_rolling_min_bit_count),
        }
    }

    /// The granted mask, if rolling terms were granted.
    pub fn version_rolling_mask(&self) -> (r: Option<HexU32Be>)
        ensures
            r == self.spec_version_rolling_mask(),
    {
        match &self.version_rolling {
            None => None,
            Some(p) => Some(p.version_rolling_mask),
        }
    }

    /// The granted minimum bit count, if rolling terms were granted.
    pub fn version_rolling_min_bit(&self) -> (r: Option<HexU32Be>)
        ensures
            r == self.spec_version_rolling_min_bit(),
    {
        match &self.version_rolling {
            None => None,
            Some(p) => Some(p.version_rolling_min_bit_count),
        }
    }

    /// Parse the canonical response shape; fails exactly when no configure
    /// answer serializes to it.
    pub fn from_response(resp: &Response) -> (r: Result<Configure, ParsingMethodError>)
        requires
            resp.result matches Some(v) && v matches Value::List(l) && l@.len() == 2,
        ensures
            r matches Ok(c) ==> c.matches_response(*resp),
            r is Err ==> forall|c: Configure| !c.matches_response(*resp),
            r is Err ==> r == Err::<Configure, ParsingMethodError>(ParsingMethodError::BadParams),
    {
        if resp.error.is_some() {
            return Err(ParsingMethodError::BadParams);
        }
        match &resp.result {
            Some(Value::List(l)) => {
                if l.len() != 2 {
                    return Err(ParsingMethodError::BadParams);
                }
                let version_rolling = match parse_opt_vrp(&l[0]) {
                    Ok(o) => o,
                    Err(e) => { return Err(e) },
                };
                let minimum_difficulty = match parse_opt_bool(&l[1]) {
                    Ok(o) => o,
                    Err(e) => { return Err(e) },
                };
                Ok(Configure { id: resp.id.duplicate(), version_rolling, minimum_difficulty })
            },
            _ => Err(ParsingMethodError::BadParams),
        }
    }
}

/// The value is a list of (name, id) subscription pairs.
pub open spec fn v_pair_list(v: Value, ps: Seq<(String, String)>) -> bool {
    &&& v matches Value::List(l)
    &&& l@.len() == ps.len()
    &&& (forall|i: int|
        0 <= i < ps.len() ==> ((#[trigger] l@[i]) matches Value::List(p) && p@.len() == 2 && v_str(
            p@[0],
            ps[i].0@,
        ) && v_str(p@[1], ps[i].1@)))
}

/// The response shape that answers `mining.subscribe`.
pub open spec fn subscribe_response_shape(
    idv: crate::json_rpc::IdView,
    subs: Seq<(String, String)>,
    e1: Seq<u8>,
    n2: usize,
    resp: Response,
) -> bool {
    &&& resp.id@ == idv
    &&& resp.error is None
    &&& (resp.result matches Some(v) && v matches Value::List(l) && l@.len() == 3 && v_pair_list(
        l@[0],
        subs,
    ) && v_hex(l@[1], e1) && v_num(l@[2], n2 as i64))
    &&& n2 <= 0xFFFFFFFF
}

/// The answer to `mining.subscribe`: the subscription handles, the
/// session's extranonce1 and the expected extranonce2 length.
pub struct Subscribe {
    pub id: Id,
    pub extra_nonce1: HexBytes,
    pub extra_nonce2_size: usize,
    pub subscriptions: Vec<(String, String)>,
}

impl Subscribe {
    /// The canonical response shape of this answer.
    pub open spec fn matches_response(self, resp: Response) -> bool {
        subscribe_response_shape(
            self.id@,
            self.subscriptions@,
            self.extra_nonce1.0@,
            self.extra_nonce2_size,
            resp,
        )
    }

    /// Two answers assign the same session parameters.
    pub open spec fn eqv(self, o: Self) -> bool {
        &&& self.id@ == o.id@
        &&& self.extra_nonce1.0@ == o.extra_nonce1.0@
        &&& self.extra_nonce2_size == o.extra_nonce2_size
        &&& self.subscriptions@.len() == o.subscriptions@.len()
        &&& (forall|i: int|
            0 <= i < self.subscriptions@.len() ==> (#[trigger] self.subscriptions@[i]).0@
                == o.subscriptions@[i].0@ && self.subscriptions@[i].1@ == o.subscriptions@[i].1@)
    }

    /// Parse the canonical response shape; fails exactly when no subscribe
    /// answer serializes to it.
    #[verifier::loop_isolation(false)]
    pub fn from_response(resp: &Response) -> (r: Result<Subscribe, ParsingMethodError>)
        requires
            resp.result matches Some(v) && v matches Value::List(l) && l@.len() == 3,
        ensures
            r matches Ok(c) ==> c.matches_response(*resp),
            r is Err ==> forall|c: Subscribe| !c.matches_response(*resp),
            r is Err ==> r == Err::<Subscribe, ParsingMethodError>(ParsingMethodError::BadParams),
    {
        if resp.error.is_some() {
            return Err(ParsingMethodError::BadParams);
        }
        match &resp.result {
            Some(Value::List(l)) => {
                if l.len() != 3 {
                    return Err(ParsingMethodError::BadParams);
                }
                let subscriptions: Vec<(String, String)> = match &l[0] {
                    Value::List(sl) => {
                        let mut subs: Vec<(String, String)> = Vec::new();
                        let mut j: usize = 0;
                        loop
                            invariant
                                j <= sl@.len(),
                                subs@.len() == j,
                                forall|k: int|
                                    0 <= k < j ==> ((#[trigger] sl@[k]) matches Value::List(p)
                                        && p@.len() == 2 && v_str(p@[0], subs@[k].0@) && v_str(
                                        p@[1],
                                        subs@[k].1@,
                                    )),
                            decreases sl@.len() - j,
                        {
                            if j >= sl.len() {
                                break;
                            }
                            match &sl[j] {
                                Value::List(p) => {
                                    if p.len() != 2 {
                                        return Err(ParsingMethodError::BadParams);
                                    }
                                    match (&p[0], &p[1]) {
                                        (Value::Str(a), Value::Str(b)) => {
                                            subs.push((a.clone(), b.clone()));
                                        },
                                        _ => { return Err(ParsingMethodError::BadParams) },
                                    }
                                },
                                _ => { return Err(ParsingMethodError::BadParams) },
                            }
                            j += 1;
                        }
                        subs
                    },
                    _ => { return Err(ParsingMethodError::BadParams) },
                };
                let extra_nonce1 = match parse_hex_param(&l[1]) {
                    Ok(h) => h,
                    Err(e) => { return Err(e) },
                };
                match &l[2] {
                    Value::Num(n) => {
                        if 0 <= *n && *n <= 0xFFFFFFFF {
                            Ok(
                                Subscribe {
                                    id: resp.id.duplicate(),
                                    extra_nonce1,
                                    extra_nonce2_size: *n as usize,
                                    subscriptions,
                                },
                            )
                        } else {
                            Err(ParsingMethodError::BadParams)
                        }
                    },
                    _ => Err(ParsingMethodError::BadParams),
                }
            },
            _ => Err(ParsingMethodError::BadParams),
        }
    }
}

/// The answer to `mining.authorize`, carrying the worker name it was
/// correlated with.
pub struct Authorize {
    pub id: Id,
    pub authorized: bool,
    pub user_name: String,
}

impl Authorize {
    /// The canonical response shape of this answer; the worker name is not
    /// on the wire, it comes from the correlation table.
    pub open spec fn matches_response(self, resp: Response) -> bool {
        &&& resp.id@ == self.id@
        &&& resp.error is None
        &&& (resp.result matches Some(v) && v_bool(v, self.authorized))
    }

    /// Did the server accept the authorization?
    pub fn is_ok(&self) -> (r: bool)
        ensures
            r == self.authorized,
    {
        self.authorized
    }

    /// The worker name this answer was correlated with.
    pub fn user_name(&self) -> (r: String)
        ensures
            r@ == self.user_name@,
    {
        self.user_name.clone()
    }
}

/// The answer to `mining.submit`.
pub struct Submit {
    pub id: Id,
    pub is_ok: bool,
}

impl Submit {
    /// The canonical response shape of this answer.
    pub open spec fn matches_response(self, resp: Response) -> bool {
        &&& resp.id@ == self.id@
        &&& resp.error is None
        &&& (resp.result matches Some(v) && v_bool(v, self.is_ok))
    }
}

/// A response whose variant cannot be told from the wire alone: a bare
/// boolean (or null) result. Resolution consults the outstanding-request
/// table.
pub struct GeneralResponse {
    pub id: Id,
    pub result: bool,
}

impl GeneralResponse {
    /// The response shapes this transient classification covers.
    pub open spec fn matches_response(self, resp: Response) -> bool {
        &&& resp.id@ == self.id@
        &&& resp.error is None
        &&& (resp.result matches Some(v) && ((v matches Value::Bool(b) && b == self.result) || (
        v is Null && !self.result)))
    }

    /// Resolve as the answer to the authorize request this id belonged to.
    pub fn into_authorize(self, prev_name: String) -> (a: Authorize)
        ensures
            a.id@ == self.id@,
            a.authorized == self.result,
            a.user_name@ == prev_name@,
    {
        Authorize { id: self.id, authorized: self.result, user_name: prev_name }
    }

    /// Resolve as the answer to the submit request this id belonged to.
    pub fn into_submit(self) -> (s: Submit)
        ensures
            s.id@ == self.id@,
            s.is_ok == self.result,
    {
        Submit { id: self.id, is_ok: self.result }
    }

    /// Parse a bare-result response.
    pub fn from_response(resp: &Response) -> (r: Result<GeneralResponse, ParsingMethodError>)
        requires
            resp.error is None,
            resp.result matches Some(v) && (v is Bool || v is Null),
        ensures
            r matches Ok(g) && g.matches_response(*resp),
    {
        match &resp.result {
            Some(Value::Bool(b)) => Ok(GeneralResponse { id: resp.id.duplicate(), result: *b }),
            Some(Value::Null) => Ok(GeneralResponse { id: resp.id.duplicate(), result: false }),
            _ => Err(ParsingMethodError::BadParams),
        }
    }
}

} // verus!
