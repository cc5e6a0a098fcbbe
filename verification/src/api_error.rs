//! The error body of the gateway.

use vstd::prelude::*;
use crate::error::{YooKassaError, YooKassaErrorView};
use crate::fields::{decoded, get_opt_text, get_text, opt_text_at, opt_view, text_at};
use crate::json::{json_view, JsonView};

verus! {

/// The structured description that the gateway sends with a failure.
#[derive(Debug, Clone)]
pub struct YooKassaApiError {
    pub error_type: String,
    pub id: String,
    pub code: String,
    pub description: String,
    pub parameter: Option<String>,
}

/// What a [`YooKassaApiError`] holds, as mathematical values.
pub struct YooKassaApiErrorView {
    pub error_type: Seq<char>,
    pub id: Seq<char>,
    pub code: Seq<char>,
    pub description: Seq<char>,
    pub parameter: Option<Seq<char>>,
}

impl View for YooKassaApiError {
    type V = YooKassaApiErrorView;

    open spec fn view(&self) -> YooKassaApiErrorView {
        YooKassaApiErrorView {
            error_type: self.error_type@,
            id: self.id@,
            code: self.code@,
            description: self.description@,
            parameter: opt_view(self.parameter),
        }
    }
}

impl YooKassaApiErrorView {
    /// What a JSON document decodes to: the members in the order of the
    /// fields, the first one that fails deciding the error.
    pub open spec fn of_json(j: JsonView) -> Result<YooKassaApiErrorView, YooKassaErrorView> {
        if let Err(e) = text_at(j, "type"@) {
            Err(e)
        } else if let Err(e) = text_at(j, "id"@) {
            Err(e)
        } else if let Err(e) = text_at(j, "code"@) {
            Err(e)
        } else if let Err(e) = text_at(j, "description"@) {
            Err(e)
        } else if let Err(e) = opt_text_at(j, "parameter"@) {
            Err(e)
        } else {
            Ok(
                YooKassaApiErrorView {
                    error_type: text_at(j, "type"@)->Ok_0,
                    id: text_at(j, "id"@)->Ok_0,
                    code: text_at(j, "code"@)->Ok_0,
                    description: text_at(j, "description"@)->Ok_0,
                    parameter: opt_text_at(j, "parameter"@)->Ok_0,
                },
            )
        }
    }
}

impl YooKassaApiError {
    /// Decodes a value from a JSON document. Members that the type does not
    /// know are passed over.
    pub fn from_json(v: &serde_json::Value) -> (r: Result<YooKassaApiError, YooKassaError>)
        ensures
            decoded(r) == YooKassaApiErrorView::of_json(json_view(*v)),
    {
        let error_type = get_text(v, "type")?;
        let id = get_text(v, "id")?;
        let code = get_text(v, "code")?;
        let description = get_text(v, "description")?;
        let parameter = get_opt_text(v, "parameter")?;
        Ok(YooKassaApiError { error_type, id, code, description, parameter })
    }
}

} // verus!
