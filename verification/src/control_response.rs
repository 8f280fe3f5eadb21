//! Responses of the control socket.

use crate::json::{field, law_first_member_is_found, member, Json, JsonView, Member};
use vstd::prelude::*;

verus! {

/// Why a request was not carried out.
#[derive(Debug, PartialEq, Eq)]
pub struct ControlError {
    pub code: String,
    pub message: String,
}

/// The answer to a request.
#[derive(Debug, PartialEq, Eq)]
pub struct ControlResponse {
    pub request_id: String,
    pub ok: bool,
    pub epoch: String,
    pub result: Option<Json>,
    pub error: Option<ControlError>,
}

/// The content of an error.
#[verifier::ext_equal]
pub struct ErrorView {
    pub code: Seq<char>,
    pub message: Seq<char>,
}

/// The content of an answer.
#[verifier::ext_equal]
pub struct ResponseView {
    pub request_id: Seq<char>,
    pub ok: bool,
    pub epoch: Seq<char>,
    pub result: Option<JsonView>,
    pub error: Option<ErrorView>,
}

impl View for ControlError {
    type V = ErrorView;

    open spec fn view(&self) -> ErrorView {
        ErrorView { code: self.code@, message: self.message@ }
    }
}

impl View for ControlResponse {
    type V = ResponseView;

    open spec fn view(&self) -> ResponseView {
        ResponseView {
            request_id: self.request_id@,
            ok: self.ok,
            epoch: self.epoch@,
            result: match self.result {
                Some(result) => Some(result@),
                None => None,
            },
            error: match self.error {
                Some(error) => Some(error@),
                None => None,
            },
        }
    }
}

impl Clone for ControlResponse {
    fn clone(&self) -> (r: Self)
        ensures
            r@ == self@,
    {
        ControlResponse {
            request_id: self.request_id.clone(),
            ok: self.ok,
            epoch: self.epoch.clone(),
            result: match &self.result {
                Some(result) => Some(result.duplicate()),
                None => None,
            },
            error: match &self.error {
                Some(error) => Some(
                    ControlError { code: error.code.clone(), message: error.message.clone() },
                ),
                None => None,
            },
        }
    }
}

/// The answer to a request that was carried out.
pub open spec fn ok_view(
    request_id: Seq<char>,
    epoch: Seq<char>,
    result: JsonView,
) -> ResponseView {
    ResponseView { request_id, ok: true, epoch, result: Some(result), error: None }
}

/// The answer to a request that was not carried out.
pub open spec fn err_view(
    request_id: Seq<char>,
    epoch: Seq<char>,
    code: Seq<char>,
    message: Seq<char>,
) -> ResponseView {
    ResponseView {
        request_id,
        ok: false,
        epoch,
        result: None,
        error: Some(ErrorView { code, message }),
    }
}

/// The answer to a request that was carried out.
pub fn response_ok(request_id: &str, epoch: &str, result: Json) -> (r: ControlResponse)
    ensures
        r@ == ok_view(request_id@, epoch@, result@),
{
    ControlResponse {
        request_id: request_id.to_string(),
        ok: true,
        epoch: epoch.to_string(),
        result: Some(result),
        error: None,
    }
}

/// The answer to a request that was not carried out.
pub fn response_err(request_id: &str, epoch: &str, code: &str, message: &str) -> (r:
    ControlResponse)
    ensures
        r@ == err_view(request_id@, epoch@, code@, message@),
{
    ControlResponse {
        request_id: request_id.to_string(),
        ok: false,
        epoch: epoch.to_string(),
        result: None,
        error: Some(ControlError { code: code.to_string(), message: message.to_string() }),
    }
}

/// The result of an accepted operation.
pub open spec fn accepted_view(operation: Seq<char>) -> JsonView {
    JsonView::Object(
        seq![
            ("status"@, JsonView::Text("accepted"@)),
            ("operation"@, JsonView::Text(operation)),
        ],
    )
}

/// The result of an accepted operation.
pub fn accepted_result(operation: &str) -> (r: Json)
    ensures
        r@ == accepted_view(operation@),
{
    let mut members: Vec<Member> = Vec::new();
    members.push(member("status", Json::text("accepted")));
    members.push(member("operation", Json::text(operation)));
    let r = Json::object(members);
    assert(r@->Object_0 =~= accepted_view(operation@)->Object_0);
    r
}

/// The result of an accepted shutdown.
pub open spec fn shutdown_view(immediate: bool) -> JsonView {
    JsonView::Object(
        seq![
            ("status"@, JsonView::Text("accepted"@)),
            ("operation"@, JsonView::Text("shutdown"@)),
            ("immediate"@, JsonView::Bool(immediate)),
        ],
    )
}

/// The result of an accepted shutdown.
pub fn shutdown_result(immediate: bool) -> (r: Json)
    ensures
        r@ == shutdown_view(immediate),
{
    let mut members: Vec<Member> = Vec::new();
    members.push(member("status", Json::text("accepted")));
    members.push(member("operation", Json::text("shutdown")));
    members.push(member("immediate", Json::Bool(immediate)));
    let r = Json::object(members);
    assert(r@->Object_0 =~= shutdown_view(immediate)->Object_0);
    r
}

/// The result of a query for the epoch.
pub open spec fn epoch_view(epoch: Seq<char>) -> JsonView {
    JsonView::Object(seq![("epoch"@, JsonView::Text(epoch))])
}

/// The result of a query for the epoch.
pub fn epoch_result(epoch: &str) -> (r: Json)
    ensures
        r@ == epoch_view(epoch@),
{
    let mut members: Vec<Member> = Vec::new();
    members.push(member("epoch", Json::text(epoch)));
    let r = Json::object(members);
    assert(r@->Object_0 =~= epoch_view(epoch@)->Object_0);
    r
}

/// The error object of an answer on the wire.
pub open spec fn error_wire(error: ErrorView) -> JsonView {
    JsonView::Object(
        seq![("code"@, JsonView::Text(error.code)), ("message"@, JsonView::Text(error.message))],
    )
}

/// An answer on the wire. A missing result or error leaves no member behind.
pub open spec fn response_wire(response: ResponseView) -> JsonView {
    let head = seq![
        ("request_id"@, JsonView::Text(response.request_id)),
        ("ok"@, JsonView::Bool(response.ok)),
        ("epoch"@, JsonView::Text(response.epoch)),
    ];
    let with_result = match response.result {
        Some(result) => head.push(("result"@, result)),
        None => head,
    };
    JsonView::Object(
        match response.error {
            Some(error) => with_result.push(("error"@, error_wire(error))),
            None => with_result,
        },
    )
}

impl ControlResponse {
    /// The JSON object that goes over the wire for this answer.
    pub fn to_wire(&self) -> (r: Json)
        ensures
            r@ == response_wire(self@),
    {
        let mut members: Vec<Member> = Vec::new();
        members.push(member("request_id", Json::text(self.request_id.as_str())));
        members.push(member("ok", Json::Bool(self.ok)));
        members.push(member("epoch", Json::text(self.epoch.as_str())));
        if let Some(result) = &self.result {
            members.push(member("result", result.duplicate()));
        }
        if let Some(error) = &self.error {
            let mut parts: Vec<Member> = Vec::new();
            parts.push(member("code", Json::text(error.code.as_str())));
            parts.push(member("message", Json::text(error.message.as_str())));
            let body = Json::object(parts);
            assert(body@->Object_0 =~= error_wire(error@)->Object_0);
            members.push(member("error", body));
        }
        let r = Json::object(members);
        assert(r@->Object_0 =~= response_wire(self@)->Object_0);
        r
    }
}

/// What an answer says is what stands on the wire: its id, whether it was carried out, and its epoch;
/// its result and its error exactly if it has one, the error with its code and its message.
pub proof fn law_wire_says_what_the_answer_says(response: ResponseView)
    ensures
        ({
            let wire = response_wire(response);
            &&& field(wire, "request_id"@) == Some(JsonView::Text(response.request_id))
            &&& field(wire, "ok"@) == Some(JsonView::Bool(response.ok))
            &&& field(wire, "epoch"@) == Some(JsonView::Text(response.epoch))
            &&& field(wire, "result"@) == response.result
            &&& field(wire, "error"@) is Some <==> response.error is Some
            &&& response.error matches Some(error) ==> {
                let body = field(wire, "error"@)->Some_0;
                &&& field(body, "code"@) == Some(JsonView::Text(error.code))
                &&& field(body, "message"@) == Some(JsonView::Text(error.message))
            }
        }),
{
    reveal_strlit("request_id");
    reveal_strlit("ok");
    reveal_strlit("epoch");
    reveal_strlit("result");
    reveal_strlit("error");
    reveal_strlit("code");
    reveal_strlit("message");
    assert("request_id"@.len() == 10 && "ok"@.len() == 2 && "epoch"@.len() == 5
        && "result"@.len() == 6 && "error"@.len() == 5 && "code"@.len() == 4
        && "message"@.len() == 7);
    assert("epoch"@[1] != "error"@[1]);
    let members = response_wire(response)->Object_0;
    law_first_member_is_found(members, "request_id"@, 0);
    law_first_member_is_found(members, "ok"@, 1);
    law_first_member_is_found(members, "epoch"@, 2);
    law_first_member_is_found(members, "result"@, if response.result is Some {
        3
    } else {
        members.len() as int
    });
    law_first_member_is_found(members, "error"@, if response.error is Some {
        members.len() - 1
    } else {
        members.len() as int
    });
    if let Some(error) = response.error {
        let parts = error_wire(error)->Object_0;
        law_first_member_is_found(parts, "code"@, 0);
        law_first_member_is_found(parts, "message"@, 1);
    }
}

/// What an answer is seen as is what it is.
pub proof fn law_answers_are_seen_as_they_are(response: ControlResponse)
    ensures
        response@.request_id == response.request_id@,
        response@.ok == response.ok,
        response@.epoch == response.epoch@,
        response@.result is Some <==> response.result is Some,
        response.result matches Some(result) ==> response@.result == Some(result@),
        response@.error is Some <==> response.error is Some,
        response.error matches Some(error) ==> response@.error == Some(
            ErrorView { code: error.code@, message: error.message@ },
        ),
{
}

} // verus!
