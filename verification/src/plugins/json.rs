//! Plugin that binds a template variable to the contents of a JSON
//! document.

use vstd::prelude::*;

use crate::context::ContextValue;
use crate::decode::{is_json, json_from_str};
use crate::error::Error;
use crate::plugin::{ArgSpec, CompileVariablePlugin, PluginArgs};
use crate::source::{Interpretation, Source, StreamRead};

verus! {

/// Binds a variable to a full JSON document, read from the file the
/// argument value points at.
pub struct JsonPlugin;

impl CompileVariablePlugin for JsonPlugin {
    type RenderValue = serde_json::Value;

    open spec fn read_ok(&self, content: Seq<char>) -> bool {
        is_json(content)
    }

    open spec fn read_val(&self, content: Seq<char>, v: serde_json::Value) -> bool {
        true
    }

    open spec fn value_spec(v: serde_json::Value) -> ContextValue {
        ContextValue::Json(v)
    }

    open spec fn interp_spec() -> Interpretation {
        Interpretation::Path
    }

    fn plugin_name() -> (r: &'static str)
        ensures
            r@ == "json"@,
    {
        "json"
    }

    fn arg_full_name() -> (r: &'static str)
        ensures
            r@ == "json"@,
    {
        "json"
    }

    fn arg_help() -> (r: &'static str) {
        "Assign variable to contents of JSON file"
    }

    fn arg_interpretation() -> (r: Interpretation) {
        Interpretation::Path
    }

    fn additional_args() -> (r: Vec<ArgSpec>)
        ensures
            r@.len() == 0,
    {
        Vec::new()
    }

    fn from_args(args: &PluginArgs) -> (r: JsonPlugin) {
        JsonPlugin
    }

    fn read<R: StreamRead>(&self, src: Source<R>) -> (r: Result<serde_json::Value, Error>) {
        let text = match src.consume() {
            Ok(text) => text,
            Err(e) => {
                return Err(e);
            },
        };
        match json_from_str(text.as_str()) {
            Ok(v) => Ok(v),
            Err(e) => Err(Error::DecodeError(e)),
        }
    }

    fn into_value(v: serde_json::Value) -> (r: ContextValue) {
        ContextValue::Json(v)
    }
}

} // verus!
