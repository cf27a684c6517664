//! The capability contract a sourcing strategy must implement, and the
//! model of the command-line flags a plugin is configured from.

use vstd::prelude::*;

use crate::context::ContextValue;
use crate::error::Error;
use crate::source::{Interpretation, Source, StreamRead};

verus! {

/// An additional configuration flag a plugin wants exposed on the
/// command line: the flag's name and its help text.
pub struct ArgSpec {
    pub name: &'static str,
    pub help: &'static str,
}

impl ArgSpec {
    /// A flag registration under `name` with the given help text.
    pub fn new(name: &'static str, help: &'static str) -> (r: ArgSpec)
        ensures
            r.name@ == name@,
            r.help@ == help@,
    {
        ArgSpec { name, help }
    }
}

/// The configuration flags found present on the command line, as handed
/// over by the host's argument parser. A plugin reads only the flags it
/// declared.
pub struct PluginArgs {
    present: Vec<String>,
}

impl PluginArgs {
    /// Whether a flag of this name is present.
    pub closed spec fn has_flag(&self, name: Seq<char>) -> bool {
        exists|i: int| 0 <= i < self.present@.len() && self.present@[i]@ == name
    }

    /// No flags present.
    pub fn new() -> (r: PluginArgs)
        ensures
            forall|n: Seq<char>| !r.has_flag(n),
    {
        PluginArgs { present: Vec::new() }
    }

    /// Records a flag as present.
    pub fn set(&mut self, name: &str)
        ensures
            forall|n: Seq<char>| #[trigger]
                final(self).has_flag(n) <==> (old(self).has_flag(n) || n == name@),
    {
        let ghost pre = self.present@;
        self.present.push(name.to_owned());
        proof {
            assert forall|n: Seq<char>| #[trigger]
                self.has_flag(n) <==> (old(self).has_flag(n) || n == name@) by {
                if old(self).has_flag(n) {
                    let i = choose|i: int| 0 <= i < pre.len() && pre[i]@ == n;
                    assert(self.present@[i]@ == n);
                }
                if n == name@ {
                    assert(self.present@[pre.len() as int]@ == n);
                }
                if self.has_flag(n) {
                    let i = choose|i: int|
                        0 <= i < self.present@.len() && self.present@[i]@ == n;
                    if i < pre.len() {
                        assert(pre[i]@ == n);
                    }
                }
            }
        }
    }

    /// Whether the flag `name` was supplied.
    pub fn is_present(&self, name: &str) -> (r: bool)
        ensures
            r == self.has_flag(name@),
    {
        let key: String = name.to_owned();
        let n = self.present.len();
        let mut i: usize = 0;
        while i < n
            invariant
                n == self.present@.len(),
                key@ == name@,
                forall|k: int| 0 <= k < i ==> self.present@[k]@ != name@,
            decreases n - i,
        {
            if self.present[i] == key {
                return true;
            }
            i = i + 1;
        }
        false
    }
}

/// The capability set a sourcing strategy provides: a stable name, an
/// argument flag, a fixed interpretation of its argument values, extra
/// configuration flags, a constructor from parsed flags, and the read
/// operation that turns a source into one typed value for the render
/// context.
pub trait CompileVariablePlugin: Sized {
    /// The serializable value this plugin adds to the render context.
    type RenderValue;

    /// Whether `read` succeeds on a literal source with this content.
    spec fn read_ok(&self, content: Seq<char>) -> bool;

    /// What a successful `read` of a literal source with this content
    /// may return.
    spec fn read_val(&self, content: Seq<char>, v: Self::RenderValue) -> bool;

    /// The context value a successful result becomes.
    spec fn value_spec(v: Self::RenderValue) -> ContextValue;

    /// The interpretation this plugin type declares, as a specification
    /// value.
    spec fn interp_spec() -> Interpretation;

    /// The name of the plugin.
    fn plugin_name() -> (r: &'static str);

    /// The name of the argument that provides the variable-to-source
    /// mappings.
    fn arg_full_name() -> (r: &'static str);

    /// The help text to display for the mapping argument.
    fn arg_help() -> (r: &'static str);

    /// How a supplied argument value is to be interpreted: as the
    /// literal value, or as the path of a file to open. Fixed per plugin
    /// type; the driver, not the plugin, acts on it.
    fn arg_interpretation() -> (r: Interpretation)
        ensures
            r == Self::interp_spec(),
    ;

    /// Additional configuration flags this plugin wants exposed on the
    /// command line; empty when none are needed.
    fn additional_args() -> (r: Vec<ArgSpec>);

    /// Builds a configured plugin instance from the parsed command-line
    /// flags, reading only the flags this plugin declared.
    fn from_args(args: &PluginArgs) -> (r: Self);

    /// Reads the source, fully consuming it, and parses it into one
    /// value for the render context. On a literal source, success and
    /// the result are pinned by the plugin's `read_ok` and `read_val`;
    /// on a file-backed source they additionally depend on what the
    /// stream yields.
    fn read<R: StreamRead>(&self, src: Source<R>) -> (r: Result<Self::RenderValue, Error>)
        ensures
            src is Raw ==> (r is Ok <==> self.read_ok(src.raw_text())),
            src is Raw ==> (r matches Ok(v) ==> self.read_val(src.raw_text(), v)),
    ;

    /// Embeds a successful result into the context's value model.
    fn into_value(v: Self::RenderValue) -> (r: ContextValue)
        ensures
            r == Self::value_spec(v),
    ;
}

} // verus!
