//! The driver: turns a plugin's mapping tokens into render-context
//! entries. For each token it parses the `name:value` binding, builds
//! the source the plugin's declared interpretation calls for, lets the
//! plugin read it, and binds the result to the variable name. Any
//! failure is fatal to the whole render: the driver surfaces it rather
//! than skipping the mapping.

use vstd::prelude::*;

use crate::context::{Context, ContextValue};
use crate::error::Error;
use crate::mapping::{has_sep, mapping_name, mapping_value, VarMapping};
use crate::plugin::CompileVariablePlugin;
use crate::source::{Interpretation, Source, StreamRead};

verus! {

/// True when every token in the list parses as a mapping and the
/// plugin's read succeeds on its literal value.
pub open spec fn tokens_ok<T: CompileVariablePlugin>(p: T, tokens: Seq<Seq<char>>) -> bool {
    forall|k: int|
        0 <= k < tokens.len() ==> has_sep(tokens[k]) && p.read_ok(mapping_value(tokens[k]))
}

/// True when `vals` is a plausible list of values for the tokens: one
/// value per token, each admitted by the plugin's read relation.
pub open spec fn vals_match<T: CompileVariablePlugin>(
    p: T,
    tokens: Seq<Seq<char>>,
    vals: Seq<T::RenderValue>,
) -> bool {
    &&& vals.len() == tokens.len()
    &&& forall|k: int|
        0 <= k < tokens.len() ==> p.read_val(mapping_value(tokens[k]), vals[k])
}

/// The context mapping after binding every token's name to its value,
/// in order, over the initial mapping `m0`.
pub open spec fn ctx_fold<T: CompileVariablePlugin>(
    p: T,
    tokens: Seq<Seq<char>>,
    vals: Seq<T::RenderValue>,
    m0: Map<Seq<char>, ContextValue>,
) -> Map<Seq<char>, ContextValue>
    decreases tokens.len(),
{
    if tokens.len() == 0 {
        m0
    } else {
        ctx_fold(p, tokens.drop_last(), vals.drop_last(), m0).insert(
            mapping_name(tokens.last()),
            T::value_spec(vals.last()),
        )
    }
}

/// Reads one prepared source for the variable `var_name` and binds what
/// the plugin produces. The host opens the file behind a path-interpreted
/// mapping and hands the stream in; a failed read leaves the context
/// untouched and is surfaced.
pub fn insert_read_value<T: CompileVariablePlugin, R: StreamRead>(
    plugin: &T,
    var_name: &str,
    src: Source<R>,
    ctx: &mut Context,
) -> (r: Result<(), Error>)
    requires
        old(ctx).wf(),
    ensures
        final(ctx).wf(),
        r is Err ==> final(ctx)@ == old(ctx)@,
        r is Ok ==> exists|v: T::RenderValue|
            final(ctx)@ == old(ctx)@.insert(var_name@, T::value_spec(v)),
        src is Raw ==> (r is Ok <==> plugin.read_ok(src.raw_text())),
        src is Raw ==> (r is Ok ==> exists|v: T::RenderValue|
            {
                &&& plugin.read_val(src.raw_text(), v)
                &&& final(ctx)@ == old(ctx)@.insert(var_name@, T::value_spec(v))
            }),
{
    match plugin.read(src) {
        Ok(v) => {
            let ghost vv = v;
            let cv = T::into_value(v);
            ctx.insert(var_name, cv);
            proof {
                assert(ctx@ == old(ctx)@.insert(var_name@, T::value_spec(vv)));
            }
            Ok(())
        },
        Err(e) => Err(e),
    }
}

/// Executes one raw-interpretation plugin over its mapping tokens: each
/// token is split at its first `:`, its value is wrapped as a literal
/// source, the plugin reads it, and the result is bound to the token's
/// name, in order, later bindings of a name overwriting earlier ones.
/// The first malformed token or failed read aborts the run.
pub fn exec_plugin<T: CompileVariablePlugin, R: StreamRead>(
    plugin: &T,
    tokens: &Vec<String>,
    ctx: &mut Context,
) -> (r: Result<(), Error>)
    requires
        old(ctx).wf(),
        T::interp_spec() == Interpretation::Raw,
    ensures
        final(ctx).wf(),
        r is Ok <==> tokens_ok(*plugin, tokens.deep_view()),
        r is Ok ==> exists|vals: Seq<T::RenderValue>|
            {
                &&& vals_match(*plugin, tokens.deep_view(), vals)
                &&& final(ctx)@ == ctx_fold(*plugin, tokens.deep_view(), vals, old(ctx)@)
            },
{
    let ghost toks = tokens.deep_view();
    let n = tokens.len();
    let mut idx: usize = 0;
    let ghost mut vals: Seq<T::RenderValue> = Seq::empty();
    proof {
        assert(toks.take(0) =~= Seq::<Seq<char>>::empty());
    }
    while idx < n
        invariant
            ctx.wf(),
            idx <= n,
            n == tokens@.len(),
            toks == tokens.deep_view(),
            toks.len() == n,
            vals.len() == idx,
            forall|k: int| 0 <= k < idx ==> has_sep(toks[k]) && plugin.read_ok(mapping_value(toks[k])),
            forall|k: int| 0 <= k < idx ==> plugin.read_val(mapping_value(toks[k]), vals[k]),
            ctx@ == ctx_fold(*plugin, toks.take(idx as int), vals, old(ctx)@),
        decreases n - idx,
    {
        let token: &String = &tokens[idx];
        proof {
            assert(toks[idx as int] == token@);
        }
        let mapping = match VarMapping::from_str(token.as_str()) {
            Ok(m) => m,
            Err(e) => {
                proof {
                    assert(!has_sep(toks[idx as int]));
                }
                return Err(e);
            },
        };
        let src: Source<R> = Source::Raw(mapping.arg_value(), 0);
        match plugin.read(src) {
            Ok(v) => {
                let ghost vv = v;
                let cv = T::into_value(v);
                ctx.insert(mapping.var_name(), cv);
                proof {
                    let ghost pre_vals = vals;
                    vals = vals.push(vv);
                    assert(toks.take(idx + 1).drop_last() =~= toks.take(idx as int));
                    assert(vals.drop_last() =~= pre_vals);
                    assert(toks.take(idx + 1).last() == toks[idx as int]);
                    assert(ctx@ == ctx_fold(*plugin, toks.take(idx + 1), vals, old(ctx)@));
                }
            },
            Err(e) => {
                proof {
                    assert(!plugin.read_ok(mapping_value(toks[idx as int])));
                }
                return Err(e);
            },
        }
        idx = idx + 1;
    }
    proof {
        assert(toks.take(n as int) =~= toks);
        assert(vals_match(*plugin, toks, vals));
        assert(ctx@ == ctx_fold(*plugin, toks, vals, old(ctx)@));
    }
    Ok(())
}

/// The command that renders a single output file from a template. Its
/// host-facing half (argument registration, template loading, the final
/// render and output) belongs to the host program; the mapping-to-context
/// work it runs per plugin is `exec_plugin` and `insert_read_value`.
pub struct Command;

impl Command {
    /// The name the command is invoked under.
    pub fn command_name() -> (r: &'static str)
        ensures
            r@ == "single"@,
    {
        "single"
    }
}

} // verus!
