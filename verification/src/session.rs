//! The session protocol: environment creation, space discovery, episodes.
//!
//! Every network-issuing operation of the protocol is split into a pure
//! request builder and a pure response decoder, each with an exact
//! contract; the thin host layer that owns the transport performs each
//! built `Request` and hands the decoded response value back.  The ordered
//! protocol is: create the instance, discover both spaces, and only then
//! reset or step.

use vstd::prelude::*;
use vstd::string::StringExecFns;

use crate::error::GymError;
use crate::json::JsonValue;
use crate::space::{
    all_numbers, bits_items, bits_of, parse_outcome, parses, schema_err, read_bits, Space,
};

verus! {

/// The two request methods the protocol uses.
#[derive(Debug, Clone, Copy, PartialEq, Eq, Structural)]
pub enum Method {
    Get,
    Post,
}

/// One request to perform against the service: method, path relative to the
/// service address, and body (`Null` for a bodiless request).
#[derive(Debug)]
pub struct Request {
    pub method: Method,
    pub path: String,
    pub body: JsonValue,
}

/// One numeric action scalar: an integer, or a binary64 real carried by its
/// raw bit pattern.
#[derive(Debug, Clone, Copy, PartialEq, Eq, Structural)]
pub enum Scalar {
    IntVal { v: u64 },
    RealVal { bits: u64 },
}

/// The wire picture of one action scalar.  An integer scalar is written as
/// an integer number; a written integer's `bits` field is unused and zero.
pub open spec fn scalar_json(sc: Scalar) -> JsonValue {
    match sc {
        Scalar::IntVal { v } => JsonValue::Number { as_uint: Some(v), bits: 0 },
        Scalar::RealVal { bits } => JsonValue::Number { as_uint: None, bits },
    }
}

/// The per-step episode snapshot: observation and reward as binary64 bit
/// patterns, the terminal flag, and the auxiliary info value passed through
/// unmodified.
#[derive(Debug)]
pub struct State {
    pub observation: Vec<u64>,
    pub reward: u64,
    pub done: bool,
    pub info: JsonValue,
}

/// The client half that the library models: the service address.  The
/// transport handle that performs requests lives with the host layer.
#[derive(Debug)]
pub struct Client {
    pub address: String,
}

/// A resolved session: the owning client, the instance identifier the
/// service assigned, and the two discovered spaces, immutable from then on.
#[derive(Debug)]
pub struct Environment {
    pub client: Client,
    pub instance_id: String,
    pub act_space: Space,
    pub obs_space: Space,
}

/// The path of an instance-scoped route.
fn route(instance_id: &String, suffix: &str) -> (r: String)
    ensures
        r@ == "/v1/envs/"@ + instance_id@ + suffix@,
{
    let mut p: String = "/v1/envs/".to_owned();
    p.append(instance_id.as_str());
    p.append(suffix);
    p
}

impl Client {
    /// A client for the service at the given address.
    pub fn new(address: String) -> (c: Client)
        ensures
            c.address == address,
    {
        Client { address }
    }

    /// The creation request for a symbolic environment id:
    /// `POST /v1/envs/` with `{"env_id": <id>}`.
    pub fn create_request(env_id: &String) -> (r: Request)
        ensures
            r.method == Method::Post,
            r.path@ == "/v1/envs/"@,
            ({
                &&& r.body matches JsonValue::Object { entries }
                &&& entries@.len() == 1
                &&& entries@[0].0@ == "env_id"@
                &&& entries@[0].1 matches JsonValue::Text { s }
                &&& s@ == env_id@
            }),
    {
        let mut entries: Vec<(String, JsonValue)> = Vec::new();
        entries.push(("env_id".to_owned(), JsonValue::Text { s: env_id.clone() }));
        Request {
            method: Method::Post,
            path: "/v1/envs/".to_owned(),
            body: JsonValue::Object { entries },
        }
    }

    /// The instance identifier out of a creation response, or the
    /// unknown-environment error naming the requested id when the response
    /// carries no identifier string.
    pub fn instance_id_from(resp: &JsonValue, env_id: &String) -> (r: Result<String, GymError>)
        ensures
            match r {
                Ok(id) => resp.spec_get("instance_id"@) matches Some(JsonValue::Text { s })
                    && id@ == s@,
                Err(e) => ({
                    &&& !(resp.spec_get("instance_id"@) matches Some(v) && v is Text)
                    &&& e matches GymError::UnknownEnvironment { env_id: got } && got@ == env_id@
                }),
            },
    {
        match resp.find("instance_id") {
            Some(JsonValue::Text { s }) => Ok(s.clone()),
            _ => Err(GymError::UnknownEnvironment { env_id: env_id.clone() }),
        }
    }

    /// The observation-space discovery request for an instance.
    pub fn observation_space_request(instance_id: &String) -> (r: Request)
        ensures
            r.method == Method::Get,
            r.path@ == "/v1/envs/"@ + instance_id@ + "/observation_space/"@,
            r.body is Null,
    {
        Request {
            method: Method::Get,
            path: route(instance_id, "/observation_space/"),
            body: JsonValue::Null,
        }
    }

    /// The action-space discovery request for an instance.
    pub fn action_space_request(instance_id: &String) -> (r: Request)
        ensures
            r.method == Method::Get,
            r.path@ == "/v1/envs/"@ + instance_id@ + "/action_space/"@,
            r.body is Null,
    {
        Request {
            method: Method::Get,
            path: route(instance_id, "/action_space/"),
            body: JsonValue::Null,
        }
    }

    /// The space out of a discovery response: the description sits under
    /// the `info` field; a missing field is a schema error naming it, and
    /// the description itself parses as `Space::from_json` says.
    pub fn space_from_discovery(resp: &JsonValue) -> (r: Result<Space, GymError>)
        ensures
            match resp.spec_get("info"@) {
                Some(info) => parse_outcome(info, r) && (r is Ok <==> parses(info)),
                None => r matches Err(GymError::Schema { detail }) && detail@ == "info"@,
            },
            r matches Ok(s) ==> s.wf(),
    {
        match resp.find("info") {
            Some(info) => Space::from_json(info),
            None => Err(schema_err("info")),
        }
    }

    /// Assembles the resolved session from the created instance identifier
    /// and the two discovery responses, observation space first; the first
    /// description that fails to parse decides the error.
    pub fn make(
        self,
        instance_id: String,
        obs_resp: &JsonValue,
        act_resp: &JsonValue,
    ) -> (r: Result<Environment, GymError>)
        ensures
            match r {
                Ok(env) => ({
                    &&& env.client == self
                    &&& env.instance_id == instance_id
                    &&& obs_resp.spec_get("info"@) matches Some(oi) && parse_outcome(
                        oi,
                        Ok(env.obs_space),
                    )
                    &&& act_resp.spec_get("info"@) matches Some(ai) && parse_outcome(
                        ai,
                        Ok(env.act_space),
                    )
                    &&& env.obs_space.wf() && env.act_space.wf()
                }),
                Err(e) => match obs_resp.spec_get("info"@) {
                    None => e matches GymError::Schema { detail } && detail@ == "info"@,
                    Some(oi) => if !parses(oi) {
                        parse_outcome(oi, Err(e))
                    } else {
                        match act_resp.spec_get("info"@) {
                            None => e matches GymError::Schema { detail } && detail@ == "info"@,
                            Some(ai) => !parses(ai) && parse_outcome(ai, Err(e)),
                        }
                    },
                },
            },
    {
        let obs_space = match Self::space_from_discovery(obs_resp) {
            Ok(s) => s,
            Err(e) => {
                return Err(e);
            },
        };
        let act_space = match Self::space_from_discovery(act_resp) {
            Ok(s) => s,
            Err(e) => {
                return Err(e);
            },
        };
        Ok(Environment { client: self, instance_id, act_space, obs_space })
    }
}

impl Environment {
    /// A copy of the resolved action space; no request is issued.
    pub fn action_space(&self) -> (s: Space)
        ensures
            s.eqv(self.act_space),
    {
        self.act_space.duplicate()
    }

    /// A copy of the resolved observation space; no request is issued.
    pub fn observation_space(&self) -> (s: Space)
        ensures
            s.eqv(self.obs_space),
    {
        self.obs_space.duplicate()
    }

    /// The reset request for this instance: a bodiless post.
    pub fn reset_request(&self) -> (r: Request)
        ensures
            r.method == Method::Post,
            r.path@ == "/v1/envs/"@ + self.instance_id@ + "/reset/"@,
            r.body is Null,
    {
        Request {
            method: Method::Post,
            path: route(&self.instance_id, "/reset/"),
            body: JsonValue::Null,
        }
    }

    /// The observation out of a reset response, exactly the numbers of the
    /// `observation` list, each as its binary64 bit pattern, in order; a
    /// missing or ill-typed field is the protocol error naming it.
    pub fn reset_result(resp: &JsonValue) -> (r: Result<Vec<u64>, GymError>)
        ensures
            match r {
                Ok(obs) => resp.spec_get("observation"@) matches Some(JsonValue::List { items })
                    && all_numbers(items@) && obs@ == bits_items(items@),
                Err(e) => ({
                    &&& !(resp.spec_get("observation"@) matches Some(v) && v matches
                        JsonValue::List { items } && all_numbers(items@))
                    &&& e matches GymError::Protocol { field } && field@ == "observation"@
                }),
            },
    {
        match resp.find("observation") {
            Some(JsonValue::List { items }) => match read_bits(items) {
                Some(obs) => Ok(obs),
                None => Err(protocol_err("observation")),
            },
            _ => Err(protocol_err("observation")),
        }
    }
}

/// The action arity the resolved action space demands: one scalar for a
/// discrete space, the first declared shape axis for a box (zero when the
/// shape is empty, a degenerate box).
pub open spec fn expected_arity(s: Space) -> int {
    match s {
        Space::DISCRETE { .. } => 1,
        Space::BOX { shape, .. } => if shape@.len() > 0 {
            shape@[0] as int
        } else {
            0
        },
        Space::TUPLE { .. } => 0,
    }
}

/// Whether an action fits the resolved action space: the arity matches,
/// and a discrete action's single scalar is an integer.  No action fits a
/// tuple space, whose wire encoding is unsupported.
pub open spec fn action_accepted(s: Space, a: Seq<Scalar>) -> bool {
    match s {
        Space::DISCRETE { .. } => a.len() == 1 && a[0] is IntVal,
        Space::BOX { .. } => a.len() == expected_arity(s),
        Space::TUPLE { .. } => false,
    }
}

impl Environment {
    /// The step request for an action: the action is validated against the
    /// resolved action space before any request exists, so an invalid
    /// action can never reach the wire.  A discrete action is encoded as
    /// its one integer; a box action as the list of its scalars; a tuple
    /// action space is refused outright.  The body carries the `action`
    /// and `render` fields.
    pub fn step_request(&self, action: &Vec<Scalar>, render: bool) -> (r: Result<
        Request,
        GymError,
    >)
        ensures
            r is Ok <==> action_accepted(self.act_space, action@),
            match r {
                Ok(req) => ({
                    &&& req.method == Method::Post
                    &&& req.path@ == "/v1/envs/"@ + self.instance_id@ + "/step/"@
                    &&& req.body matches JsonValue::Object { entries }
                    &&& entries@.len() == 2
                    &&& entries@[0].0@ == "action"@
                    &&& entries@[1].0@ == "render"@
                    &&& entries@[1].1 == (JsonValue::Bool { b: render })
                    &&& match self.act_space {
                        Space::DISCRETE { .. } => entries@[0].1 == scalar_json(action@[0]),
                        Space::BOX { .. } => ({
                            &&& entries@[0].1 matches JsonValue::List { items }
                            &&& items@.len() == action@.len()
                            &&& forall|i: int|
                                0 <= i < items@.len() ==> (#[trigger] items@[i]) == scalar_json(
                                    action@[i],
                                )
                        }),
                        Space::TUPLE { .. } => false,
                    }
                }),
                Err(e) => match self.act_space {
                    Space::TUPLE { .. } => e == GymError::UnsupportedSpace,
                    _ => ({
                        &&& e matches GymError::InvalidAction { expected, got }
                        &&& expected as int == expected_arity(self.act_space)
                        &&& got as int == action@.len()
                    }),
                },
            },
    {
        let arity: u64 = match &self.act_space {
            Space::DISCRETE { .. } => 1,
            Space::BOX { shape, .. } => {
                if shape.len() > 0 {
                    shape[0]
                } else {
                    0
                }
            },
            Space::TUPLE { .. } => {
                return Err(GymError::UnsupportedSpace);
            },
        };
        if action.len() as u64 != arity {
            return Err(GymError::InvalidAction { expected: arity, got: action.len() as u64 });
        }
        let wire_action: JsonValue = match &self.act_space {
            Space::DISCRETE { .. } => match action[0] {
                Scalar::IntVal { v } => JsonValue::Number { as_uint: Some(v), bits: 0 },
                Scalar::RealVal { .. } => {
                    return Err(GymError::InvalidAction { expected: 1, got: action.len() as u64 });
                },
            },
            _ => {
                let mut items: Vec<JsonValue> = Vec::new();
                let mut i: usize = 0;
                while i < action.len()
                    invariant
                        0 <= i <= action@.len(),
                        items@.len() == i,
                        forall|j: int|
                            0 <= j < i ==> (#[trigger] items@[j]) == scalar_json(action@[j]),
                    decreases action@.len() - i,
                {
                    match action[i] {
                        Scalar::IntVal { v } => items.push(
                            JsonValue::Number { as_uint: Some(v), bits: 0 },
                        ),
                        Scalar::RealVal { bits } => items.push(
                            JsonValue::Number { as_uint: None, bits },
                        ),
                    }
                    i = i + 1;
                }
                JsonValue::List { items }
            },
        };
        let mut entries: Vec<(String, JsonValue)> = Vec::new();
        entries.push(("action".to_owned(), wire_action));
        entries.push(("render".to_owned(), JsonValue::Bool { b: render }));
        Ok(Request {
            method: Method::Post,
            path: route(&self.instance_id, "/step/"),
            body: JsonValue::Object { entries },
        })
    }

    /// The episode snapshot out of a step response: the four required
    /// fields are read in the order observation, reward, done, info, and
    /// the first missing or ill-typed one is the protocol error naming it;
    /// nothing is defaulted.  The observation and the reward come back as
    /// binary64 bit patterns, exactly as responded; the info value is
    /// passed through structurally unchanged.
    pub fn step_result(resp: &JsonValue) -> (r: Result<State, GymError>)
        ensures
            match r {
                Ok(st) => ({
                    &&& resp.spec_get("observation"@) matches Some(JsonValue::List { items })
                    &&& all_numbers(items@)
                    &&& st.observation@ == bits_items(items@)
                    &&& resp.spec_get("reward"@) matches Some(rv)
                    &&& rv is Number && st.reward == bits_of(rv)
                    &&& resp.spec_get("done"@) == Some(JsonValue::Bool { b: st.done })
                    &&& resp.spec_get("info"@) matches Some(iv)
                    &&& st.info.eqv(iv)
                }),
                Err(e) => ({
                    &&& e matches GymError::Protocol { field }
                    &&& if !(resp.spec_get("observation"@) matches Some(v) && v matches
                        JsonValue::List { items } && all_numbers(items@)) {
                        field@ == "observation"@
                    } else if !(resp.spec_get("reward"@) matches Some(v) && v is Number) {
                        field@ == "reward"@
                    } else if !(resp.spec_get("done"@) matches Some(v) && v is Bool) {
                        field@ == "done"@
                    } else {
                        field@ == "info"@ && resp.spec_get("info"@) is None
                    }
                }),
            },
    {
        let observation = match resp.find("observation") {
            Some(JsonValue::List { items }) => match read_bits(items) {
                Some(obs) => obs,
                None => {
                    return Err(protocol_err("observation"));
                },
            },
            _ => {
                return Err(protocol_err("observation"));
            },
        };
        let reward = match resp.find("reward") {
            Some(JsonValue::Number { bits, .. }) => *bits,
            _ => {
                return Err(protocol_err("reward"));
            },
        };
        let done = match resp.find("done") {
            Some(JsonValue::Bool { b }) => *b,
            _ => {
                return Err(protocol_err("done"));
            },
        };
        let info = match resp.find("info") {
            Some(iv) => iv.duplicate(),
            None => {
                return Err(protocol_err("info"));
            },
        };
        Ok(State { observation, reward, done, info })
    }

    /// The request that starts remote episode recording into `directory`;
    /// no local record of the monitor's state is kept.
    pub fn monitor_start_request(&self, directory: String, force: bool, resume: bool) -> (r:
        Request)
        ensures
            r.method == Method::Post,
            r.path@ == "/v1/envs/"@ + self.instance_id@ + "/monitor/start/"@,
            ({
                &&& r.body matches JsonValue::Object { entries }
                &&& entries@.len() == 3
                &&& entries@[0].0@ == "directory"@
                &&& entries@[0].1 matches JsonValue::Text { s }
                &&& s@ == directory@
                &&& entries@[1].0@ == "force"@
                &&& entries@[1].1 == (JsonValue::Bool { b: force })
                &&& entries@[2].0@ == "resume"@
                &&& entries@[2].1 == (JsonValue::Bool { b: resume })
            }),
    {
        let mut entries: Vec<(String, JsonValue)> = Vec::new();
        entries.push(("directory".to_owned(), JsonValue::Text { s: directory }));
        entries.push(("force".to_owned(), JsonValue::Bool { b: force }));
        entries.push(("resume".to_owned(), JsonValue::Bool { b: resume }));
        Request {
            method: Method::Post,
            path: route(&self.instance_id, "/monitor/start/"),
            body: JsonValue::Object { entries },
        }
    }

    /// The request that stops remote episode recording.
    pub fn monitor_stop_request(&self) -> (r: Request)
        ensures
            r.method == Method::Post,
            r.path@ == "/v1/envs/"@ + self.instance_id@ + "/monitor/close/"@,
            r.body is Null,
    {
        Request {
            method: Method::Post,
            path: route(&self.instance_id, "/monitor/close/"),
            body: JsonValue::Null,
        }
    }
}

/// The protocol error naming the given response field.
fn protocol_err(f: &str) -> (e: GymError)
    ensures
        e matches GymError::Protocol { field } && field@ == f@,
{
    GymError::Protocol { field: f.to_owned() }
}

} // verus!
