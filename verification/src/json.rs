//! The parameter text of a passthrough call. The text must be a JSON array;
//! its elements, in order, become the parameters of the call.

use vstd::prelude::*;
use crate::error::{RpcError, RpcErrorView};
use crate::transport::{Params, ParamsView, strings_view};

verus! {

/// What `serde_json::from_str` makes of a text read as a list of JSON values:
/// the elements in order, each written compactly as JSON text, or `None`
/// where the text is not a JSON array.
pub uninterp spec fn json_array_items(text: Seq<char>) -> Option<Seq<Seq<char>>>;

/// The views of an optional list of strings.
pub open spec fn items_view(items: Option<Vec<String>>) -> Option<Seq<Seq<char>>> {
    match items {
        Some(list) => Some(strings_view(list@)),
        None => None,
    }
}

/// Calls `serde_json::from_str` for a `Vec` of `serde_json::Value` and writes
/// each element back as text with `to_string`. The result is a function of
/// the text alone.
#[verifier::external_body]
fn parse_array(text: &str) -> (res: Option<Vec<String>>)
    ensures
        items_view(res) == json_array_items(text@),
{
    match serde_json::from_str::<Vec<serde_json::Value>>(text) {
        Ok(values) => {
            let mut items = Vec::new();
            for value in values.iter() {
                items.push(value.to_string());
            }
            Some(items)
        },
        Err(_) => None,
    }
}

/// The parameters that a parsed text stands for: the elements where the text
/// was an array, `ParamsDecodeError` where it was not.
pub open spec fn spec_params(items: Option<Seq<Seq<char>>>) -> Result<ParamsView, RpcErrorView> {
    match items {
        Some(list) => Ok(ParamsView::Values(list)),
        None => Err(RpcErrorView::ParamsDecodeError),
    }
}

/// The mathematical value of decoded parameters.
pub open spec fn params_result_view(res: Result<Params, RpcError>) -> Result<
    ParamsView,
    RpcErrorView,
> {
    match res {
        Ok(params) => Ok(params@),
        Err(error) => Err(error@),
    }
}

/// Turns the elements of a parsed parameter text into parameters: see
/// [`spec_params`].
pub fn params_from_items(items: Option<Vec<String>>) -> (res: Result<Params, RpcError>)
    ensures
        params_result_view(res) == spec_params(items_view(items)),
{
    match items {
        Some(list) => Ok(Params::Values(list)),
        None => Err(RpcError::ParamsDecodeError),
    }
}

/// Decodes the parameter text of a passthrough call. Succeeds exactly when
/// the text is a JSON array, with its elements in order; any other text is a
/// `ParamsDecodeError`.
pub fn decode_params(text: &str) -> (res: Result<Params, RpcError>)
    ensures
        params_result_view(res) == spec_params(json_array_items(text@)),
{
    params_from_items(parse_array(text))
}

} // verus!
