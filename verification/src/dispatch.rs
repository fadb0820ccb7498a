//! Carrying out one request against the editor state.
//!
//! Every request does exactly one read or one change of the state and ends in an
//! [`Outcome`]. Calls end in a reply or a fault, both of which go back to the
//! plugin; notifications and unknown methods never produce a response, whatever
//! happens. No request can fail in a way that stops the host.

use crate::decode::{decode_request, decode_spec};
use crate::editor::{EditorModel, EditorState, SpanModel};
use crate::json::{json_number, json_string, json_text, json_u64, number_value, string_value};
use crate::request::{checked_view, recognize_spec, Malformed, Request, RequestModel};
use serde_json::Value;
use vstd::prelude::*;

verus! {

/// Why a request was not carried out.
#[derive(Debug, Clone, Copy, PartialEq, Eq, Structural)]
pub enum RpcError {
    /// A required parameter was missing or of the wrong type.
    MalformedParameters,
    /// The line index names no line of the buffer.
    OutOfRange,
}

/// The value that answers a call.
#[derive(Debug, Clone, PartialEq, Eq)]
pub enum Reply {
    /// The number of lines.
    LineCount(usize),
    /// The text of the line asked for.
    Line(String),
}

/// What a [`Reply`] stands for.
pub enum ReplyModel {
    LineCount(nat),
    Line(Seq<char>),
}

impl View for Reply {
    type V = ReplyModel;

    open spec fn view(&self) -> ReplyModel {
        match self {
            Reply::LineCount(count) => ReplyModel::LineCount(*count as nat),
            Reply::Line(text) => ReplyModel::Line(text@),
        }
    }
}

/// How one request ended.
#[derive(Debug, Clone, PartialEq, Eq)]
pub enum Outcome {
    /// A call succeeded; the reply goes to the plugin.
    Reply(Reply),
    /// A call failed; the error goes to the plugin.
    Fault(RpcError),
    /// A notification was applied; nothing goes to the plugin.
    Applied,
    /// A notification failed and was dropped; the error is for the host's log only.
    Dropped(RpcError),
    /// The method is not recognized; its raw name is for the host's log only.
    Unknown(String),
}

/// What an [`Outcome`] stands for.
pub enum OutcomeModel {
    Reply(ReplyModel),
    Fault(RpcError),
    Applied,
    Dropped(RpcError),
    Unknown(Seq<char>),
}

impl View for Outcome {
    type V = OutcomeModel;

    open spec fn view(&self) -> OutcomeModel {
        match self {
            Outcome::Reply(reply) => OutcomeModel::Reply(reply@),
            Outcome::Fault(error) => OutcomeModel::Fault(*error),
            Outcome::Applied => OutcomeModel::Applied,
            Outcome::Dropped(error) => OutcomeModel::Dropped(*error),
            Outcome::Unknown(name) => OutcomeModel::Unknown(name@),
        }
    }
}

impl OutcomeModel {
    /// Whether something goes back to the plugin.
    pub open spec fn is_response(self) -> bool {
        self is Reply || self is Fault
    }

    /// What goes back to the plugin: the reply as a JSON value, or the error.
    pub open spec fn response(self) -> Option<Result<Value, RpcError>> {
        match self {
            OutcomeModel::Reply(ReplyModel::LineCount(count)) => Some(
                Ok(json_number(count as u64)),
            ),
            OutcomeModel::Reply(ReplyModel::Line(text)) => Some(Ok(json_string(text))),
            OutcomeModel::Fault(error) => Some(Err(error)),
            _ => None,
        }
    }
}

/// The effect of one request on the editor state, and how the request ends.
///
/// A query leaves the state as it is. Setting the style spans of a line replaces
/// that line's spans as a whole or, where the line does not exist, changes nothing.
pub open spec fn step(state: EditorModel, request: RequestModel) -> (EditorModel, OutcomeModel) {
    match request {
        RequestModel::LineCount => (
            state,
            OutcomeModel::Reply(ReplyModel::LineCount(state.lines.len())),
        ),
        RequestModel::GetLine { line } => if state.has_line(line as int) {
            (state, OutcomeModel::Reply(ReplyModel::Line(state.lines[line as int])))
        } else {
            (state, OutcomeModel::Fault(RpcError::OutOfRange))
        },
        RequestModel::SetLineStyles { line, spans } => if state.has_line(line as int) {
            (state.with_styles(line as int, spans), OutcomeModel::Applied)
        } else {
            (state, OutcomeModel::Dropped(RpcError::OutOfRange))
        },
        RequestModel::Unknown { method } => (state, OutcomeModel::Unknown(method)),
    }
}

/// How a call with malformed parameters ends: as a fault for a method that is owed
/// a response, dropped for a notification.
pub open spec fn refuse_spec(report: Malformed) -> OutcomeModel {
    if report.method.expects_response() {
        OutcomeModel::Fault(RpcError::MalformedParameters)
    } else {
        OutcomeModel::Dropped(RpcError::MalformedParameters)
    }
}

/// The effect of one checked call: that of the request, or none at all where the
/// parameters were malformed.
pub open spec fn handle_spec(state: EditorModel, checked: Result<RequestModel, Malformed>) -> (
    EditorModel,
    OutcomeModel,
) {
    match checked {
        Ok(request) => step(state, request),
        Err(report) => (state, refuse_spec(report)),
    }
}

/// Whether a checked call is owed a response: a request that is a call, or a
/// malformed call of a method that is one.
pub open spec fn owed_response(checked: Result<RequestModel, Malformed>) -> bool {
    match checked {
        Ok(request) => request.expects_response(),
        Err(report) => report.method.expects_response(),
    }
}

/// A response goes back to the plugin if and only if the method is a call: whether
/// it is produced depends on the method name alone, never on the parameters or on
/// the editor state. A request that is answered is answered with a JSON value or
/// with an error.
pub proof fn lemma_response_iff_call(state: EditorModel, name: Seq<char>, params: Value)
    ensures
        handle_spec(state, decode_spec(name, params)).1.is_response() <==> (recognize_spec(name)
            matches Some(method) && method.expects_response()),
        handle_spec(state, decode_spec(name, params)).1.is_response() <==> owed_response(
            decode_spec(name, params),
        ),
        handle_spec(state, decode_spec(name, params)).1.is_response() <==> handle_spec(
            state,
            decode_spec(name, params),
        ).1.response() is Some,
{
}

/// No request breaks the editor state: a well-formed state stays well formed, the
/// text of the buffer never changes, and the only change there can be is that one
/// line got exactly the spans of the request, all of them at once.
pub proof fn lemma_step_is_all_or_nothing(state: EditorModel, request: RequestModel)
    requires
        state.wf(),
    ensures
        step(state, request).0.wf(),
        step(state, request).0.lines == state.lines,
        step(state, request).0.peers == state.peers,
        step(state, request).0 == state || (request matches RequestModel::SetLineStyles {
            line,
            spans,
        } && state.has_line(line as int) && step(state, request).0.styles == state.styles.update(
            line as int,
            spans,
        )),
        !(step(state, request).1 is Applied) ==> step(state, request).0 == state,
{
}

/// A call that names a line beyond the buffer is answered with `OutOfRange`, a
/// notification that does so is dropped with `OutOfRange`, and neither changes the
/// state: whatever request comes next is handled as if the bad one had never come.
pub proof fn lemma_out_of_range_is_harmless(
    state: EditorModel,
    line: u64,
    spans: Seq<SpanModel>,
    next: RequestModel,
)
    requires
        line >= state.lines.len(),
    ensures
        step(state, RequestModel::GetLine { line }) == (
            state,
            OutcomeModel::Fault(RpcError::OutOfRange),
        ),
        step(state, RequestModel::SetLineStyles { line, spans }) == (
            state,
            OutcomeModel::Dropped(RpcError::OutOfRange),
        ),
        step(state, RequestModel::GetLine { line }).1.response() == Some(
            Err::<Value, RpcError>(RpcError::OutOfRange),
        ),
        step(state, RequestModel::SetLineStyles { line, spans }).1.response() is None,
        step(step(state, RequestModel::GetLine { line }).0, next) == step(state, next),
        step(step(state, RequestModel::SetLineStyles { line, spans }).0, next) == step(
            state,
            next,
        ),
{
}

/// A method name that the host does not recognize is answered with nothing and
/// changes nothing, whatever its parameters are: the outcome keeps the raw name for
/// the log, and whatever request comes next is handled as if the unknown one had
/// never come.
pub proof fn lemma_unknown_method_is_inert(
    state: EditorModel,
    name: Seq<char>,
    params: Value,
    next: RequestModel,
)
    requires
        recognize_spec(name) is None,
    ensures
        decode_spec(name, params) == Ok::<RequestModel, Malformed>(
            RequestModel::Unknown { method: name },
        ),
        handle_spec(state, decode_spec(name, params)) == (state, OutcomeModel::Unknown(name)),
        handle_spec(state, decode_spec(name, params)).1.response() is None,
        step(handle_spec(state, decode_spec(name, params)).0, next) == step(state, next),
{
}

/// Malformed parameters are found before anything acts: the state stays as it is,
/// a call is answered with `MalformedParameters` and a notification is dropped.
pub proof fn lemma_malformed_changes_nothing(state: EditorModel, report: Malformed)
    ensures
        handle_spec(state, Err(report)).0 == state,
        report.method.expects_response() ==> handle_spec(state, Err(report)).1.response() == Some(
            Err::<Value, RpcError>(RpcError::MalformedParameters),
        ),
        !report.method.expects_response() ==> handle_spec(state, Err(report)).1
            == OutcomeModel::Dropped(RpcError::MalformedParameters),
{
}

/// Carries out one request.
///
/// The editor is taken by exclusive reference, and the state after the call and the
/// outcome are those of [`step`] on the state before it. A program that shares the
/// editor between threads holds its lock for the length of this call; no other
/// thread can then see a state between the two.
pub fn dispatch(editor: &mut EditorState, request: Request) -> (outcome: Outcome)
    ensures
        (final(editor)@, outcome@) == step(old(editor)@, request@),
{
    match request {
        Request::LineCount => Outcome::Reply(Reply::LineCount(editor.line_count())),
        Request::GetLine { line } => {
            let count = editor.line_count();
            if line < count as u64 {
                match editor.get_line(line as usize) {
                    Ok(text) => Outcome::Reply(Reply::Line(text)),
                    Err(_) => Outcome::Fault(RpcError::OutOfRange),
                }
            } else {
                Outcome::Fault(RpcError::OutOfRange)
            }
        },
        Request::SetLineStyles { line, spans } => {
            let count = editor.line_count();
            if line < count as u64 {
                match editor.set_line_styles(line as usize, spans) {
                    Ok(_) => Outcome::Applied,
                    Err(_) => Outcome::Dropped(RpcError::OutOfRange),
                }
            } else {
                Outcome::Dropped(RpcError::OutOfRange)
            }
        },
        Request::Unknown { method } => Outcome::Unknown(method),
    }
}

/// Ends a call whose parameters were malformed, without touching the editor.
pub fn refuse(report: Malformed) -> (outcome: Outcome)
    ensures
        outcome@ == refuse_spec(report),
{
    if report.method.is_call() {
        Outcome::Fault(RpcError::MalformedParameters)
    } else {
        Outcome::Dropped(RpcError::MalformedParameters)
    }
}

/// Carries out one checked call.
pub fn handle(editor: &mut EditorState, checked: Result<Request, Malformed>) -> (outcome: Outcome)
    ensures
        (final(editor)@, outcome@) == handle_spec(old(editor)@, checked_view(checked)),
{
    match checked {
        Ok(request) => dispatch(editor, request),
        Err(report) => refuse(report),
    }
}

/// Handles one remote call of a plugin: checks the parameters, then carries the
/// request out against the editor.
pub fn rpc_handler(editor: &mut EditorState, method: &str, params: &Value) -> (outcome: Outcome)
    ensures
        (final(editor)@, outcome@) == handle_spec(old(editor)@, decode_spec(method@, *params)),
{
    let checked = decode_request(method, params);
    handle(editor, checked)
}

impl Outcome {
    /// Whether something goes back to the plugin.
    pub fn is_response(&self) -> (responds: bool)
        ensures
            responds == self@.is_response(),
    {
        match self {
            Outcome::Reply(_) => true,
            Outcome::Fault(_) => true,
            _ => false,
        }
    }

    /// What goes back to the plugin: the reply as a JSON value or the error of a
    /// call, and nothing for a notification or an unknown method. A plugin that
    /// reads the value back as a number or as a string gets the count or the line.
    pub fn into_response(self) -> (response: Option<Result<Value, RpcError>>)
        ensures
            response == self@.response(),
            self matches Outcome::Reply(Reply::LineCount(count)) ==> response matches Some(
                Ok(value),
            ) && json_u64(value) == Some(count as u64),
            self matches Outcome::Reply(Reply::Line(text)) ==> response matches Some(Ok(value))
                && json_text(value) == Some(text@),
    {
        match self {
            Outcome::Reply(Reply::LineCount(count)) => Some(Ok(number_value(count as u64))),
            Outcome::Reply(Reply::Line(text)) => Some(Ok(string_value(text))),
            Outcome::Fault(error) => Some(Err(error)),
            _ => None,
        }
    }
}

} // verus!
