use vstd::prelude::*;
use crate::commands::PaneDto;
use crate::json::{bool_of, member_of, str_of, u32_of, JsonValue};

verus! {

/// A request from the controller.
pub struct Request {
    pub id: String,
    pub action: String,
    /// Action parameters; `Null` where the request gave none.
    pub params: JsonValue,
}

/// A validated, not yet executed instruction against one pane.
pub enum ActionDescriptor {
    SendKeys { pane_id: u32, text: String, enter: bool },
    SendInterrupt { pane_id: u32 },
}

/// The payload of a successful response.
pub enum ResponseData {
    /// Every tracked pane, in registry order.
    Panes(Vec<PaneDto>),
    /// One pane.
    Pane(PaneDto),
    /// The action the executor is to carry out.
    Action(ActionDescriptor),
}

/// The answer to one request.
pub struct Response {
    pub id: String,
    pub success: bool,
    pub data: Option<ResponseData>,
    pub error: Option<String>,
}

/// Parameters of the send_keys action.
pub struct SendKeysParams {
    pub pane_id: u32,
    pub text: String,
    /// Whether a newline follows the text; false where not given.
    pub enter: bool,
}

/// Parameters of the actions that target a single pane.
pub struct PaneIdParam {
    pub pane_id: u32,
}

/// The pane id that `params` carry, where they decode as `{pane_id: u32}`.
pub open spec fn pane_id_param_of(params: JsonValue) -> Option<u32> {
    match member_of(params, "pane_id"@) {
        Some(v) => u32_of(v),
        None => None,
    }
}

/// The send_keys parameters that `params` carry, where they decode as
/// `{pane_id: u32, text: string, enter?: bool}`.
pub open spec fn send_keys_params_of(params: JsonValue) -> Option<SendKeysParams> {
    let id = member_of(params, "pane_id"@);
    let text = member_of(params, "text"@);
    let enter = member_of(params, "enter"@);
    if id is Some && u32_of(id->0) is Some && text is Some && str_of(text->0) is Some && (
    enter is None || bool_of(enter->0) is Some) {
        Some(
            SendKeysParams {
                pane_id: u32_of(id->0)->0,
                text: str_of(text->0)->0,
                enter: if enter is None {
                    false
                } else {
                    bool_of(enter->0)->0
                },
            },
        )
    } else {
        None
    }
}

impl ActionDescriptor {
    /// The pane the action targets.
    pub fn pane_id(&self) -> (r: u32)
        ensures
            r == match *self {
                ActionDescriptor::SendKeys { pane_id, .. } => pane_id,
                ActionDescriptor::SendInterrupt { pane_id } => pane_id,
            },
    {
        match self {
            ActionDescriptor::SendKeys { pane_id, .. } => *pane_id,
            ActionDescriptor::SendInterrupt { pane_id } => *pane_id,
        }
    }

    /// The character runs to write into the pane, in order: the text and,
    /// where asked, a newline; or the interrupt character (Ctrl+C).
    pub fn pane_input(&self) -> (r: Vec<String>)
        ensures
            match *self {
                ActionDescriptor::SendKeys { text, enter, .. } => {
                    &&& r@.len() == if enter { 2int } else { 1int }
                    &&& r@[0]@ == text@
                    &&& enter ==> r@[1]@ == "\n"@
                },
                ActionDescriptor::SendInterrupt { .. } => r@.len() == 1 && r@[0]@ == "\u{3}"@,
            },
    {
        let mut r: Vec<String> = Vec::new();
        match self {
            ActionDescriptor::SendKeys { text, enter, .. } => {
                r.push(text.clone());
                if *enter {
                    r.push(String::from_str("\n"));
                }
            },
            ActionDescriptor::SendInterrupt { .. } => {
                r.push(String::from_str("\u{3}"));
            },
        }
        r
    }
}

impl Response {
    /// The action a successful response asks the executor to carry out, if any.
    pub fn action(&self) -> (r: Option<&ActionDescriptor>)
        ensures
            r is Some <==> (self.success && self.data matches Some(ResponseData::Action(_))),
            r matches Some(a) ==> self.data == Some(ResponseData::Action(*a)),
    {
        if !self.success {
            return None;
        }
        match &self.data {
            Some(ResponseData::Action(a)) => Some(a),
            _ => None,
        }
    }
}

/// The response to a request envelope that could not be decoded at all.
pub fn parse_failure_response(detail: &str) -> (r: Response)
    ensures
        r.id@.len() == 0,
        !r.success,
        r.data is None,
        r.error matches Some(e) && e@ == "Failed to parse request: "@ + detail@,
{
    let mut e = String::from_str("Failed to parse request: ");
    e.append(detail);
    Response { id: String::new(), success: false, data: None, error: Some(e) }
}

fn invalid_type(v: &JsonValue, expected: &str) -> String {
    let mut e = String::from_str("invalid type: ");
    e.append(v.kind_name());
    e.append(", expected ");
    e.append(expected);
    e
}

fn missing_field(name: &str) -> String {
    let mut e = String::from_str("missing field `");
    e.append(name);
    e.append("`");
    e
}

fn expect_u32(v: &JsonValue) -> (r: Result<u32, String>)
    ensures
        r is Ok <==> u32_of(*v) is Some,
        r matches Ok(n) ==> u32_of(*v) == Some(n),
{
    match v {
        JsonValue::UInt(n) => {
            if *n <= 0xffff_ffffu64 {
                Ok(*n as u32)
            } else {
                Err(String::from_str("invalid value: integer out of range, expected u32"))
            }
        },
        JsonValue::NegInt(_) => Err(
            String::from_str("invalid value: negative integer, expected u32"),
        ),
        _ => Err(invalid_type(v, "u32")),
    }
}

fn expect_string(v: &JsonValue) -> (r: Result<String, String>)
    ensures
        r is Ok <==> str_of(*v) is Some,
        r matches Ok(s) ==> str_of(*v) == Some(s),
{
    match v {
        JsonValue::Str(s) => Ok(s.clone()),
        _ => Err(invalid_type(v, "a string")),
    }
}

fn expect_bool(v: &JsonValue) -> (r: Result<bool, String>)
    ensures
        r is Ok <==> bool_of(*v) is Some,
        r matches Ok(b) ==> bool_of(*v) == Some(b),
{
    match v {
        JsonValue::Bool(b) => Ok(*b),
        _ => Err(invalid_type(v, "a boolean")),
    }
}

impl PaneIdParam {
    /// Decodes `{pane_id: u32}`; other members are ignored. The error names
    /// what did not fit.
    pub fn from_json(params: &JsonValue) -> (r: Result<PaneIdParam, String>)
        ensures
            r is Ok <==> pane_id_param_of(*params) is Some,
            r matches Ok(p) ==> pane_id_param_of(*params) == Some(p.pane_id),
    {
        if !matches!(params, JsonValue::Object(_)) {
            return Err(invalid_type(params, "struct PaneIdParam"));
        }
        match params.member("pane_id") {
            None => Err(missing_field("pane_id")),
            Some(v) => match expect_u32(v) {
                Ok(pane_id) => Ok(PaneIdParam { pane_id }),
                Err(e) => Err(e),
            },
        }
    }
}

impl SendKeysParams {
    /// Decodes `{pane_id: u32, text: string, enter?: bool}`, with `enter`
    /// false where absent; other members are ignored. The error names what
    /// did not fit.
    pub fn from_json(params: &JsonValue) -> (r: Result<SendKeysParams, String>)
        ensures
            r is Ok <==> send_keys_params_of(*params) is Some,
            r matches Ok(p) ==> send_keys_params_of(*params) == Some(p),
    {
        if !matches!(params, JsonValue::Object(_)) {
            return Err(invalid_type(params, "struct SendKeysParams"));
        }
        let pane_id = match params.member("pane_id") {
            None => {
                return Err(missing_field("pane_id"));
            },
            Some(v) => match expect_u32(v) {
                Ok(n) => n,
                Err(e) => {
                    return Err(e);
                },
            },
        };
        let text = match params.member("text") {
            None => {
                return Err(missing_field("text"));
            },
            Some(v) => match expect_string(v) {
                Ok(s) => s,
                Err(e) => {
                    return Err(e);
                },
            },
        };
        let enter = match params.member("enter") {
            None => false,
            Some(v) => match expect_bool(v) {
                Ok(b) => b,
                Err(e) => {
                    return Err(e);
                },
            },
        };
        Ok(SendKeysParams { pane_id, text, enter })
    }
}

} // verus!
