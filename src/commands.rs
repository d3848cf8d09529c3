use vstd::prelude::*;
use crate::ipc::{
    pane_id_param_of, send_keys_params_of, ActionDescriptor, PaneIdParam, Request, Response,
    ResponseData, SendKeysParams,
};
use crate::state::{has_id, is_last_with_id, PaneInfo, State};

verus! {

/// A pane as reported to the controller.
pub struct PaneDto {
    pub id: u32,
    pub title: String,
    pub is_focused: bool,
    pub is_floating: bool,
}

/// How a tracked pane is reported.
pub open spec fn dto_of(p: PaneInfo) -> PaneDto {
    PaneDto { id: p.id, title: p.title, is_focused: p.is_focused, is_floating: p.is_floating }
}

/// The decimal digits of `n`, most significant first, without leading zeros.
pub open spec fn decimal(n: nat) -> Seq<char>
    decreases n,
{
    let digit = seq!['0', '1', '2', '3', '4', '5', '6', '7', '8', '9'][(n % 10) as int];
    if n < 10 {
        seq![digit]
    } else {
        decimal(n / 10).push(digit)
    }
}

/// The error text for a pane id that the registry does not hold.
pub open spec fn pane_not_found(id: u32) -> Seq<char> {
    "pane not found: "@ + decimal(id as nat)
}

/// `data` lists `panes` in order.
pub open spec fn lists_panes(data: Option<ResponseData>, panes: Seq<PaneInfo>) -> bool {
    &&& data matches Some(ResponseData::Panes(v))
    &&& v@.len() == panes.len()
    &&& forall|i: int| 0 <= i < panes.len() ==> v@[i] == dto_of(#[trigger] panes[i])
}

/// `data` reports the pane that a lookup of `id` in `panes` finds.
pub open spec fn describes_pane(data: Option<ResponseData>, panes: Seq<PaneInfo>, id: u32) -> bool {
    &&& data matches Some(ResponseData::Pane(d))
    &&& exists|k: int| is_last_with_id(panes, id, k) && d == dto_of(panes[k])
}

/// A success: no error, and the payload `data`.
pub open spec fn succeeds_with(r: Response, data: Option<ResponseData>) -> bool {
    r.success && r.error is None && r.data == data
}

/// A failure with exactly the error text `msg`.
pub open spec fn fails_with(r: Response, msg: Seq<char>) -> bool {
    &&& !r.success
    &&& r.data is None
    &&& r.error matches Some(e)
    &&& e@ == msg
}

/// A failure whose error reports parameters that did not decode.
pub open spec fn fails_on_params(r: Response) -> bool {
    &&& !r.success
    &&& r.data is None
    &&& r.error matches Some(e)
    &&& "invalid params: "@.is_prefix_of(e@)
}

/// What `dispatch_command` answers to `req` against a registry holding `panes`.
pub open spec fn responds_to(req: Request, panes: Seq<PaneInfo>, r: Response) -> bool {
    &&& r.id == req.id
    &&& if req.action@ == "list_panes"@ {
        r.success && r.error is None && lists_panes(r.data, panes)
    } else if req.action@ == "get_pane_info"@ {
        match pane_id_param_of(req.params) {
            None => fails_on_params(r),
            Some(id) => if has_id(panes, id) {
                r.success && r.error is None && describes_pane(r.data, panes, id)
            } else {
                fails_with(r, pane_not_found(id))
            },
        }
    } else if req.action@ == "send_keys"@ {
        match send_keys_params_of(req.params) {
            None => fails_on_params(r),
            Some(p) => if has_id(panes, p.pane_id) {
                succeeds_with(
                    r,
                    Some(
                        ResponseData::Action(
                            ActionDescriptor::SendKeys {
                                pane_id: p.pane_id,
                                text: p.text,
                                enter: p.enter,
                            },
                        ),
                    ),
                )
            } else {
                fails_with(r, pane_not_found(p.pane_id))
            },
        }
    } else if req.action@ == "send_interrupt"@ {
        match pane_id_param_of(req.params) {
            None => fails_on_params(r),
            Some(id) => if has_id(panes, id) {
                succeeds_with(
                    r,
                    Some(ResponseData::Action(ActionDescriptor::SendInterrupt { pane_id: id })),
                )
            } else {
                fails_with(r, pane_not_found(id))
            },
        }
    } else {
        fails_with(r, "unknown action: "@ + req.action@)
    }
}

/// A list_panes request always succeeds, and against an empty registry it
/// lists no pane.
pub proof fn lemma_list_panes_succeeds(req: Request, panes: Seq<PaneInfo>, r: Response)
    requires
        req.action@ == "list_panes"@,
        responds_to(req, panes, r),
    ensures
        r.success,
        r.data matches Some(ResponseData::Panes(v)) && (panes.len() == 0 ==> v@.len() == 0),
{
}

/// A get_pane_info request for an id that the registry does not hold fails
/// with an error that starts with "pane not found", whatever the registry holds.
pub proof fn lemma_unknown_pane_not_found(req: Request, panes: Seq<PaneInfo>, r: Response, id: u32)
    requires
        req.action@ == "get_pane_info"@,
        pane_id_param_of(req.params) == Some(id),
        !has_id(panes, id),
        responds_to(req, panes, r),
    ensures
        !r.success,
        r.error matches Some(e) && "pane not found"@.is_prefix_of(e@),
{
    reveal_strlit("pane not found");
    reveal_strlit("pane not found: ");
    reveal_strlit("list_panes");
    reveal_strlit("get_pane_info");
    assert("get_pane_info"@ != "list_panes"@) by {
        assert("get_pane_info"@[0] != "list_panes"@[0]);
    }
    assert(fails_with(r, pane_not_found(id)));
    let e = r.error->0;
    assert(e@.subrange(0, 14) =~= "pane not found"@);
}

/// Every response carries the id of its request, and exactly one of a payload
/// or an error: the payload on success, the error on failure.
pub proof fn lemma_response_shape(req: Request, panes: Seq<PaneInfo>, r: Response)
    requires
        responds_to(req, panes, r),
    ensures
        r.id == req.id,
        r.success <==> r.data is Some,
        r.success <==> r.error is None,
{
}

/// Relies on u32's `Display`, through `to_string`: the decimal digits of `n`.
#[verifier::external_body]
fn decimal_text(n: u32) -> (r: String)
    ensures
        r@ == decimal(n as nat),
{
    n.to_string()
}

fn failure(id: &String, error: String) -> (r: Response)
    ensures
        r.id == *id,
        fails_with(r, error@),
{
    Response { id: id.clone(), success: false, data: None, error: Some(error) }
}

fn invalid_params(id: &String, detail: &str) -> (r: Response)
    ensures
        r.id == *id,
        fails_on_params(r),
{
    let mut e = String::from_str("invalid params: ");
    e.append(detail);
    proof {
        assert(e@.subrange(0, "invalid params: "@.len() as int) == "invalid params: "@);
    }
    Response { id: id.clone(), success: false, data: None, error: Some(e) }
}

fn not_found(id: &String, pane_id: u32) -> (r: Response)
    ensures
        r.id == *id,
        fails_with(r, pane_not_found(pane_id)),
{
    let mut e = String::from_str("pane not found: ");
    let digits = decimal_text(pane_id);
    e.append(digits.as_str());
    failure(id, e)
}

fn success(id: &String, data: ResponseData) -> (r: Response)
    ensures
        r.id == *id,
        succeeds_with(r, Some(data)),
{
    Response { id: id.clone(), success: true, data: Some(data), error: None }
}

fn pane_dto(p: &PaneInfo) -> (r: PaneDto)
    ensures
        r == dto_of(*p),
{
    PaneDto {
        id: p.id,
        title: p.title.clone(),
        is_focused: p.is_focused,
        is_floating: p.is_floating,
    }
}

/// Answers `req` against `state`: lists panes, reports one, or validates one
/// of the two pane actions and returns its descriptor. Performs no action.
pub fn dispatch_command(req: &Request, state: &State) -> (r: Response)
    ensures
        responds_to(*req, state@, r),
{
    if req.action == String::from_str("list_panes") {
        handle_list_panes(req, state)
    } else if req.action == String::from_str("get_pane_info") {
        handle_get_pane_info(req, state)
    } else if req.action == String::from_str("send_keys") {
        handle_send_keys_validate(req, state)
    } else if req.action == String::from_str("send_interrupt") {
        handle_send_interrupt_validate(req, state)
    } else {
        let mut e = String::from_str("unknown action: ");
        e.append(req.action.as_str());
        failure(&req.id, e)
    }
}

fn handle_list_panes(req: &Request, state: &State) -> (r: Response)
    ensures
        r.id == req.id,
        r.success && r.error is None && lists_panes(r.data, state@),
{
    let panes = state.panes();
    let mut dtos: Vec<PaneDto> = Vec::new();
    let n = panes.len();
    let mut i: usize = 0;
    while i < n
        invariant
            n == panes@.len(),
            panes@ == state@,
            i <= n,
            dtos@.len() == i,
            forall|j: int| 0 <= j < i ==> dtos@[j] == dto_of(#[trigger] panes@[j]),
        decreases n - i,
    {
        dtos.push(pane_dto(&panes[i]));
        i = i + 1;
    }
    success(&req.id, ResponseData::Panes(dtos))
}

fn handle_get_pane_info(req: &Request, state: &State) -> (r: Response)
    ensures
        r.id == req.id,
        match pane_id_param_of(req.params) {
            None => fails_on_params(r),
            Some(id) => if has_id(state@, id) {
                r.success && r.error is None && describes_pane(r.data, state@, id)
            } else {
                fails_with(r, pane_not_found(id))
            },
        },
{
    match PaneIdParam::from_json(&req.params) {
        Ok(p) => match state.get_pane(p.pane_id) {
            Some(pane) => success(&req.id, ResponseData::Pane(pane_dto(pane))),
            None => not_found(&req.id, p.pane_id),
        },
        Err(e) => invalid_params(&req.id, e.as_str()),
    }
}

fn handle_send_keys_validate(req: &Request, state: &State) -> (r: Response)
    ensures
        r.id == req.id,
        match send_keys_params_of(req.params) {
            None => fails_on_params(r),
            Some(p) => if has_id(state@, p.pane_id) {
                succeeds_with(
                    r,
                    Some(
                        ResponseData::Action(
                            ActionDescriptor::SendKeys {
                                pane_id: p.pane_id,
                                text: p.text,
                                enter: p.enter,
                            },
                        ),
                    ),
                )
            } else {
                fails_with(r, pane_not_found(p.pane_id))
            },
        },
{
    match SendKeysParams::from_json(&req.params) {
        Ok(p) => {
            if state.get_pane(p.pane_id).is_none() {
                return not_found(&req.id, p.pane_id);
            }
            let SendKeysParams { pane_id, text, enter } = p;
            success(&req.id, ResponseData::Action(ActionDescriptor::SendKeys { pane_id, text, enter }))
        },
        Err(e) => invalid_params(&req.id, e.as_str()),
    }
}

fn handle_send_interrupt_validate(req: &Request, state: &State) -> (r: Response)
    ensures
        r.id == req.id,
        match pane_id_param_of(req.params) {
            None => fails_on_params(r),
            Some(id) => if has_id(state@, id) {
                succeeds_with(
                    r,
                    Some(ResponseData::Action(ActionDescriptor::SendInterrupt { pane_id: id })),
                )
            } else {
                fails_with(r, pane_not_found(id))
            },
        },
{
    match PaneIdParam::from_json(&req.params) {
        Ok(p) => {
            if state.get_pane(p.pane_id).is_none() {
                return not_found(&req.id, p.pane_id);
            }
            success(
                &req.id,
                ResponseData::Action(ActionDescriptor::SendInterrupt { pane_id: p.pane_id }),
            )
        },
        Err(e) => invalid_params(&req.id, e.as_str()),
    }
}

/// Checks send_keys parameters beyond their shape: any pane id is looked up
/// later, and any text, the empty one included, is accepted.
pub fn validate_send_keys_params(_params: &SendKeysParams) -> (r: Result<(), String>)
    ensures
        r is Ok,
{
    Ok(())
}

} // verus!
