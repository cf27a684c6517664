//! Plugin that binds a template variable to the contents of a YAML
//! document.

use vstd::prelude::*;

use crate::context::ContextValue;
use crate::decode::{is_yaml, yaml_from_slice};
use crate::error::Error;
use crate::plugin::{ArgSpec, CompileVariablePlugin, PluginArgs};
use crate::source::{Interpretation, Source, StreamRead};

verus! {

/// Binds a variable to a full YAML document, read from the file the
/// argument value points at.
pub struct YamlPlugin;

impl CompileVariablePlugin for YamlPlugin {
    type RenderValue = serde_yaml::Value;

    open spec fn read_ok(&self, content: Seq<char>) -> bool {
        is_yaml(vstd::utf8::encode_utf8(content))
    }

    open spec fn read_val(&self, content: Seq<char>, v: serde_yaml::Value) -> bool {
        true
    }

    open spec fn value_spec(v: serde_yaml::Value) -> ContextValue {
        ContextValue::Yaml(v)
    }

    open spec fn interp_spec() -> Interpretation {
        Interpretation::Path
    }

    fn plugin_name() -> (r: &'static str)
        ensures
            r@ == "yaml"@,
    {
        "yaml"
    }

    fn arg_full_name() -> (r: &'static str)
        ensures
            r@ == "yaml"@,
    {
        "yaml"
    }

    fn arg_help() -> (r: &'static str) {
        "Assign variable to contents of YAML file"
    }

    fn arg_interpretation() -> (r: Interpretation) {
        Interpretation::Path
    }

    fn additional_args() -> (r: Vec<ArgSpec>)
        ensures
            r@.len() == 0,
    {
        Vec::new()
    }

    fn from_args(args: &PluginArgs) -> (r: YamlPlugin) {
        YamlPlugin
    }

    fn read<R: StreamRead>(&self, src: Source<R>) -> (r: Result<serde_yaml::Value, Error>) {
        let text = match src.consume() {
            Ok(text) => text,
            Err(e) => {
                return Err(e);
            },
        };
        let bytes: &[u8] = text.as_str().as_bytes();
        match yaml_from_slice(bytes) {
            Ok(v) => Ok(v),
            Err(e) => Err(Error::DecodeError(e)),
        }
    }

    fn into_value(v: serde_yaml::Value) -> (r: ContextValue) {
        ContextValue::Yaml(v)
    }
}

} // verus!
