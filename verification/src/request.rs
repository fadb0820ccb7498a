//! The closed set of remote calls that a plugin can make.
//!
//! A call arrives as a method name and loosely shaped parameters. It is turned into
//! a [`Request`] before anything acts on it: a name outside the set becomes
//! [`Request::Unknown`], and a known name whose parameters are missing or of the
//! wrong shape becomes a [`Malformed`] report.

use crate::editor::{spans_view, SpanModel, StyleSpan};
use crate::text::str_eq;
use vstd::prelude::*;

verus! {

/// The method name under which a plugin asks for the number of lines.
pub const LINE_COUNT_METHOD: &'static str = "n_lines";

/// The method name under which a plugin asks for the text of one line.
pub const GET_LINE_METHOD: &'static str = "get_line";

/// The method name under which a plugin sets the style spans of one line.
pub const SET_LINE_STYLES_METHOD: &'static str = "set_line_fg_spans";

/// The method name of the liveness probe that the host sends after connecting.
pub const PROBE_METHOD: &'static str = "ping";

/// A method that the host recognizes.
#[derive(Debug, Clone, Copy, PartialEq, Eq, Structural)]
pub enum Method {
    /// Query the number of lines.
    LineCount,
    /// Query the text of one line.
    GetLine,
    /// Replace the style spans of one line.
    SetLineStyles,
}

impl Method {
    /// Whether the method is a call, which is owed exactly one response, and not a
    /// notification, which never gets one.
    pub open spec fn expects_response(self) -> bool {
        self is LineCount || self is GetLine
    }

    /// Whether the method is a call and not a notification.
    pub fn is_call(&self) -> (call: bool)
        ensures
            call == self.expects_response(),
    {
        match self {
            Method::LineCount => true,
            Method::GetLine => true,
            Method::SetLineStyles => false,
        }
    }
}

/// The method that `name` stands for, if the host recognizes it.
pub open spec fn recognize_spec(name: Seq<char>) -> Option<Method> {
    if name == LINE_COUNT_METHOD@ {
        Some(Method::LineCount)
    } else if name == GET_LINE_METHOD@ {
        Some(Method::GetLine)
    } else if name == SET_LINE_STYLES_METHOD@ {
        Some(Method::SetLineStyles)
    } else {
        None
    }
}

/// Each of the three method names stands for its own method, and the name of the
/// host's probe is none of them.
pub proof fn lemma_method_names()
    ensures
        recognize_spec(LINE_COUNT_METHOD@) == Some(Method::LineCount),
        recognize_spec(GET_LINE_METHOD@) == Some(Method::GetLine),
        recognize_spec(SET_LINE_STYLES_METHOD@) == Some(Method::SetLineStyles),
        recognize_spec(PROBE_METHOD@) is None,
{
    reveal_strlit("n_lines");
    reveal_strlit("get_line");
    reveal_strlit("set_line_fg_spans");
    reveal_strlit("ping");
    assert(LINE_COUNT_METHOD@.len() == 7);
    assert(GET_LINE_METHOD@.len() == 8);
    assert(SET_LINE_STYLES_METHOD@.len() == 17);
    assert(PROBE_METHOD@.len() == 4);
}

/// The method that `name` stands for, if the host recognizes it.
pub fn recognize(name: &str) -> (method: Option<Method>)
    ensures
        method == recognize_spec(name@),
{
    if str_eq(name, LINE_COUNT_METHOD) {
        Some(Method::LineCount)
    } else if str_eq(name, GET_LINE_METHOD) {
        Some(Method::GetLine)
    } else if str_eq(name, SET_LINE_STYLES_METHOD) {
        Some(Method::SetLineStyles)
    } else {
        None
    }
}

/// One call of a plugin, with its parameters checked.
#[derive(Debug, Clone, PartialEq, Eq)]
pub enum Request {
    /// Query the number of lines.
    LineCount,
    /// Query the text of line `line`.
    GetLine { line: u64 },
    /// Replace the style spans of line `line` by `spans`.
    SetLineStyles { line: u64, spans: Vec<StyleSpan> },
    /// A method that the host does not recognize, kept by its raw name.
    Unknown { method: String },
}

/// What a [`Request`] stands for.
pub enum RequestModel {
    LineCount,
    GetLine { line: u64 },
    SetLineStyles { line: u64, spans: Seq<SpanModel> },
    Unknown { method: Seq<char> },
}

impl View for Request {
    type V = RequestModel;

    open spec fn view(&self) -> RequestModel {
        match self {
            Request::LineCount => RequestModel::LineCount,
            Request::GetLine { line } => RequestModel::GetLine { line: *line },
            Request::SetLineStyles { line, spans } => RequestModel::SetLineStyles {
                line: *line,
                spans: spans_view(spans@),
            },
            Request::Unknown { method } => RequestModel::Unknown { method: method@ },
        }
    }
}

impl RequestModel {
    /// Whether the request is a call, which is owed exactly one response.
    pub open spec fn expects_response(self) -> bool {
        self is LineCount || self is GetLine
    }
}

/// A recognized method whose parameters lacked a required field or held one of the
/// wrong type.
#[derive(Debug, Clone, Copy, PartialEq, Eq, Structural)]
pub struct Malformed {
    pub method: Method,
}

/// The outcome of checking one call: the request, or the report that its
/// parameters were malformed.
pub open spec fn checked_view(checked: Result<Request, Malformed>) -> Result<
    RequestModel,
    Malformed,
> {
    match checked {
        Ok(request) => Ok(request@),
        Err(report) => Err(report),
    }
}

/// The models of the spans of an optional list.
pub open spec fn optional_spans_view(spans: Option<Vec<StyleSpan>>) -> Option<Seq<SpanModel>> {
    match spans {
        Some(list) => Some(spans_view(list@)),
        None => None,
    }
}

/// The request that a method name makes together with the fields read from its
/// parameters: `line` is the line index if the parameters hold a valid one, `spans`
/// the span list if they hold a valid one. A name that is not recognized makes an
/// unknown request whatever the fields are; a recognized method takes the fields it
/// requires and is malformed if one of them is absent.
pub open spec fn build_spec(
    name: Seq<char>,
    line: Option<u64>,
    spans: Option<Seq<SpanModel>>,
) -> Result<RequestModel, Malformed> {
    match recognize_spec(name) {
        None => Ok(RequestModel::Unknown { method: name }),
        Some(Method::LineCount) => Ok(RequestModel::LineCount),
        Some(Method::GetLine) => match line {
            Some(index) => Ok(RequestModel::GetLine { line: index }),
            None => Err(Malformed { method: Method::GetLine }),
        },
        Some(Method::SetLineStyles) => match (line, spans) {
            (Some(index), Some(list)) => Ok(
                RequestModel::SetLineStyles { line: index, spans: list },
            ),
            _ => Err(Malformed { method: Method::SetLineStyles }),
        },
    }
}

/// Builds the request that `name` makes from the fields read from its parameters.
pub fn build_request(name: &str, line: Option<u64>, spans: Option<Vec<StyleSpan>>) -> (checked:
    Result<Request, Malformed>)
    ensures
        checked_view(checked) == build_spec(name@, line, optional_spans_view(spans)),
{
    match recognize(name) {
        None => Ok(Request::Unknown { method: name.to_owned() }),
        Some(Method::LineCount) => Ok(Request::LineCount),
        Some(Method::GetLine) => match line {
            Some(index) => Ok(Request::GetLine { line: index }),
            None => Err(Malformed { method: Method::GetLine }),
        },
        Some(Method::SetLineStyles) => match line {
            Some(index) => match spans {
                Some(list) => Ok(Request::SetLineStyles { line: index, spans: list }),
                None => Err(Malformed { method: Method::SetLineStyles }),
            },
            None => Err(Malformed { method: Method::SetLineStyles }),
        },
    }
}

} // verus!
