//! The addresses of the registry's operations, and what the registry says
//! when it rejects a request.
use crate::mlflow::json::{
    json_document,
    json_member,
    json_model,
    member,
    parse_json,
    text_of,
    JsonView,
};
use crate::mlflow::MlflowSettings;
use vstd::prelude::*;
use vstd::string::*;

verus! {

/// ML Flow API version
pub const MODEL_VERSION: &'static str = "2.0";

/// An operation of the registry.
#[derive(Debug, Clone, Copy, PartialEq, Eq, Structural)]
pub enum MLFlowEndpoint {
    RegisterModel,
    ListModels,
    SearchModels,
}

/// The path of an operation below the API root.
pub open spec fn endpoint_path(endpoint: MLFlowEndpoint) -> Seq<char> {
    match endpoint {
        MLFlowEndpoint::RegisterModel => "registered-models/create"@,
        MLFlowEndpoint::ListModels => "registered-models/search"@,
        MLFlowEndpoint::SearchModels => "registered-models/search"@,
    }
}

/// The address of an operation of the registry at `base`.
pub open spec fn endpoint_url(base: Seq<char>, endpoint: MLFlowEndpoint) -> Seq<char> {
    base + "/api/"@ + MODEL_VERSION@ + "/mlflow/"@ + endpoint_path(endpoint)
}

impl MLFlowEndpoint {
    pub fn url(&self, settings: &MlflowSettings) -> (r: String)
        ensures
            r@ == endpoint_url(settings.url@, *self),
    {
        let uri = match self {
            MLFlowEndpoint::RegisterModel => "registered-models/create",
            MLFlowEndpoint::ListModels => "registered-models/search",
            MLFlowEndpoint::SearchModels => "registered-models/search",
        };
        let mut out = settings.url.clone();
        out.append("/api/");
        out.append(MODEL_VERSION);
        out.append("/mlflow/");
        out.append(uri);
        out
    }
}

/// The diagnostic for a rejected request, given what its answer holds: the
/// text of the member `error_code` of the answer, where the answer is an
/// object with such a member and the member is a string.
pub open spec fn error_code(document: Option<JsonView>) -> Seq<char> {
    match document {
        None => "Failed to decode body"@,
        Some(answer) => match json_member(answer, "error_code"@) {
            Some(JsonView::Text(code)) => code,
            _ => "No error code in message"@,
        },
    }
}

/// The document in the body of an answer; none where the body could not be
/// read or is no JSON.
pub open spec fn body_document(body: Option<&str>) -> Option<JsonView> {
    match body {
        Some(text) => json_document(text@),
        None => None,
    }
}

/// Reads the error code out of the answer to a rejected request.
pub fn error_code_of(answer: &serde_json::Value) -> (r: String)
    ensures
        r@ == error_code(Some(json_model(*answer))),
{
    match member(answer, "error_code") {
        Some(x) => match text_of(x) {
            Some(code) => code.to_owned(),
            None => "No error code in message".to_owned(),
        },
        None => "No error code in message".to_owned(),
    }
}

/// Gives the diagnostic for a rejected request from the body of its answer;
/// `None` stands for a body that could not be read.
pub fn handle_error(body: Option<&str>) -> (r: String)
    ensures
        r@ == error_code(body_document(body)),
{
    match body {
        Some(s) => match parse_json(s) {
            Ok(x) => error_code_of(&x),
            Err(_) => "Failed to decode body".to_owned(),
        },
        None => "Failed to decode body".to_owned(),
    }
}

} // verus!
