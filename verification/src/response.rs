//! The envelope written back for each command, and the diagnostic record of
//! an authentication attempt.

use vstd::prelude::*;
use vstd::string::*;

use crate::json::escape_text;
use crate::json::escaped_text;
use crate::json::Json;
use crate::json::JsonView;
use crate::text::joined;
use crate::text::opt_view;

verus! {

/// How far an authentication attempt has come.
#[derive(Clone, Copy, Debug, PartialEq, Eq, Structural)]
pub enum AuthStatus {
    Pending,
    Success,
    Failed,
}

/// The word under which a status is reported.
pub open spec fn auth_status_label(status: AuthStatus) -> Seq<char> {
    match status {
        AuthStatus::Pending => "PENDING"@,
        AuthStatus::Success => "SUCCESS"@,
        AuthStatus::Failed => "FAILED"@,
    }
}

/// The word under which a status is reported.
pub fn auth_status_name(status: AuthStatus) -> (name: &'static str)
    ensures
        name@ == auth_status_label(status),
{
    match status {
        AuthStatus::Pending => "PENDING",
        AuthStatus::Success => "SUCCESS",
        AuthStatus::Failed => "FAILED",
    }
}

/// The record of one authentication attempt: who signed, for which funder,
/// under which scheme, and how it ended.
#[derive(Debug, PartialEq, Eq)]
pub struct AuthStory {
    pub run_id: String,
    pub signer_address: String,
    pub funder_address: Option<String>,
    pub signature_type: String,
    pub auth_status: AuthStatus,
    pub balance_usdc: Option<String>,
    pub error_details: Option<String>,
}

pub ghost struct AuthStoryView {
    pub run_id: Seq<char>,
    pub signer_address: Seq<char>,
    pub funder_address: Option<Seq<char>>,
    pub signature_type: Seq<char>,
    pub auth_status: AuthStatus,
    pub balance_usdc: Option<Seq<char>>,
    pub error_details: Option<Seq<char>>,
}

impl View for AuthStory {
    type V = AuthStoryView;

    open spec fn view(&self) -> AuthStoryView {
        AuthStoryView {
            run_id: self.run_id@,
            signer_address: self.signer_address@,
            funder_address: opt_view(self.funder_address),
            signature_type: self.signature_type@,
            auth_status: self.auth_status,
            balance_usdc: opt_view(self.balance_usdc),
            error_details: opt_view(self.error_details),
        }
    }
}

/// The one unit of output: whether the command succeeded, its payload, the
/// error message where it failed, and the record of the authentication
/// attempt where there was one.
#[derive(Debug, PartialEq, Eq)]
pub struct Response {
    pub success: bool,
    pub data: Option<Json>,
    pub error: Option<String>,
    pub auth_story: Option<AuthStory>,
}

pub ghost struct ResponseView {
    pub success: bool,
    pub data: Option<JsonView>,
    pub error: Option<Seq<char>>,
    pub auth_story: Option<AuthStoryView>,
}

impl ResponseView {
    /// A response reports success exactly when it carries no error message.
    pub open spec fn well_formed(self) -> bool {
        self.success <==> self.error is None
    }
}

/// The view of an optional payload.
pub open spec fn opt_json_view(o: Option<Json>) -> Option<JsonView> {
    match o {
        Some(j) => Some(j@),
        None => None,
    }
}

/// The view of an optional record.
pub open spec fn opt_story_view(o: Option<AuthStory>) -> Option<AuthStoryView> {
    match o {
        Some(s) => Some(s@),
        None => None,
    }
}

impl View for Response {
    type V = ResponseView;

    open spec fn view(&self) -> ResponseView {
        ResponseView {
            success: self.success,
            data: opt_json_view(self.data),
            error: opt_view(self.error),
            auth_story: opt_story_view(self.auth_story),
        }
    }
}

/// The response that reports success with the payload `data`.
pub open spec fn success_view(data: JsonView) -> ResponseView {
    ResponseView { success: true, data: Some(data), error: None, auth_story: None }
}

/// The response that reports the failure `error`.
pub open spec fn error_view(error: Seq<char>) -> ResponseView {
    ResponseView { success: false, data: None, error: Some(error), auth_story: None }
}

/// The response that reports an authentication attempt: it succeeds exactly
/// when the attempt did, and otherwise names the attempt's status as its error.
pub open spec fn auth_view(story: AuthStoryView, data: Option<JsonView>) -> ResponseView {
    ResponseView {
        success: story.auth_status == AuthStatus::Success,
        data: data,
        error: if story.auth_status == AuthStatus::Success {
            None
        } else {
            Some(auth_status_label(story.auth_status))
        },
        auth_story: Some(story),
    }
}

/// The response that reports success with the payload `data`.
pub fn success_response(data: Json) -> (r: Response)
    ensures
        r@ == success_view(data@),
        r@.well_formed(),
{
    Response { success: true, data: Some(data), error: None, auth_story: None }
}

/// The response that reports the failure `error`.
pub fn error_response(error: &str) -> (r: Response)
    ensures
        r@ == error_view(error@),
        r@.well_formed(),
{
    Response { success: false, data: None, error: Some(String::from_str(error)), auth_story: None }
}

/// The response that reports an authentication attempt.
pub fn auth_response(story: AuthStory, data: Option<Json>) -> (r: Response)
    ensures
        r@ == auth_view(story@, opt_json_view(data)),
        r@.well_formed(),
{
    let success = match story.auth_status {
        AuthStatus::Success => true,
        _ => false,
    };
    let error = if !success {
        Some(String::from_str(auth_status_name(story.auth_status)))
    } else {
        None
    };
    Response { success, data, error, auth_story: Some(story) }
}

/// The line written in place of a response that could not be serialized:
/// a failure whose message embeds the serializer's complaint, escaped as the
/// body of a JSON string.
pub open spec fn fallback_line(detail: Seq<char>) -> Seq<char> {
    "{\"success\":false,\"error\":\"JSON serialization failed: "@ + escaped_text(detail) + "\"}"@
}

/// The line to write for a response, given what serializing it gave: the
/// serialized text, or the fallback line around the serializer's complaint.
pub open spec fn output_line(serialized: Result<String, String>) -> Seq<char> {
    match serialized {
        Ok(line) => line@,
        Err(detail) => fallback_line(detail@),
    }
}

/// Chooses the line to write for a response from the outcome of serializing
/// it. Writing and flushing the line is the host's part.
pub fn emit_response(serialized: Result<String, String>) -> (line: String)
    ensures
        line@ == output_line(serialized),
{
    match serialized {
        Ok(line) => line,
        Err(detail) => {
            let body = escape_text(detail.as_str());
            let mut line = joined(
                "{\"success\":false,\"error\":\"JSON serialization failed: ",
                body.as_str(),
            );
            line.append("\"}");
            line
        },
    }
}

} // verus!
