//! Plugins that bind a template variable to a primitive value written
//! literally on the command line: a string, a signed integer, or a
//! boolean. All three interpret their argument as the raw value itself.

use vstd::prelude::*;

use crate::context::ContextValue;
use crate::error::Error;
use crate::plugin::{ArgSpec, CompileVariablePlugin, PluginArgs};
use crate::source::{Interpretation, Source, StreamRead};

verus! {

/// True when `c` is a decimal digit.
pub open spec fn is_digit(c: char) -> bool {
    48 <= c as u32 <= 57
}

/// The numeric value of a decimal digit.
pub open spec fn digit_val(c: char) -> int {
    c as u32 - 48
}

/// The length of the sign prefix of an integer token: 1 for a leading
/// `-` or `+`, otherwise 0.
pub open spec fn sign_len(s: Seq<char>) -> int {
    if s.len() > 0 && (s[0] == '-' || s[0] == '+') {
        1
    } else {
        0
    }
}

/// True when `s` is a well-formed decimal integer token: an optional
/// sign followed by at least one digit and nothing else.
pub open spec fn int_token_wf(s: Seq<char>) -> bool {
    s.len() > sign_len(s) && (forall|k: int| sign_len(s) <= k < s.len() ==> is_digit(s[k]))
}

/// The value of the digits of `s` between `from` and `to`, read as a
/// decimal numeral.
pub open spec fn digits_val_range(s: Seq<char>, from: int, to: int) -> int
    decreases to - from,
{
    if to <= from {
        0
    } else {
        digits_val_range(s, from, to - 1) * 10 + digit_val(s[to - 1])
    }
}

/// The mathematical value of a well-formed integer token.
pub open spec fn int_token_val(s: Seq<char>) -> int {
    if s.len() > 0 && s[0] == '-' {
        -digits_val_range(s, 1, s.len() as int)
    } else {
        digits_val_range(s, sign_len(s), s.len() as int)
    }
}

/// True when `s` is a well-formed integer token whose value fits in an
/// `isize`: exactly the tokens the integer plugin accepts.
pub open spec fn parses_to_int(s: Seq<char>) -> bool {
    int_token_wf(s) && isize::MIN <= int_token_val(s) <= isize::MAX
}

/// A run of digits has a non-negative value.
proof fn lemma_digits_nonneg(s: Seq<char>, from: int, to: int)
    requires
        forall|k: int| from <= k < to ==> is_digit(s[k]),
    ensures
        digits_val_range(s, from, to) >= 0,
    decreases to - from,
{
    if to > from {
        lemma_digits_nonneg(s, from, to - 1);
    }
}

/// Reading more digits never shrinks the value of a numeral.
proof fn lemma_digits_mono(s: Seq<char>, from: int, i: int, j: int)
    requires
        from <= i <= j,
        forall|k: int| from <= k < j ==> is_digit(s[k]),
    ensures
        digits_val_range(s, from, i) <= digits_val_range(s, from, j),
    decreases j - i,
{
    if i < j {
        lemma_digits_mono(s, from, i, j - 1);
        lemma_digits_nonneg(s, from, j - 1);
    }
}

/// Parses a decimal integer token: an optional `-` or `+` sign followed
/// by one or more digits. Succeeds exactly on well-formed tokens whose
/// value fits in an `isize`; anything else (empty token, stray
/// character, overflow) is a decode error carrying the token.
pub fn parse_int(s: &str) -> (r: Result<isize, Error>)
    ensures
        r is Ok <==> parses_to_int(s@),
        r matches Ok(v) ==> v as int == int_token_val(s@),
        r matches Err(e) ==> e is DecodeError,
{
    let n = s.unicode_len();
    if n == 0 {
        return Err(Error::DecodeError(s.to_owned()));
    }
    let first = s.get_char(0);
    let neg: bool = first == '-';
    let ds: usize = if first == '-' || first == '+' {
        1
    } else {
        0
    };
    if n == ds {
        return Err(Error::DecodeError(s.to_owned()));
    }
    let mut i: usize = ds;
    let mut acc: isize = 0;
    while i < n
        invariant
            ds <= i <= n,
            n == s@.len(),
            n > ds,
            ds == sign_len(s@),
            neg == (s@[0] == '-' && s@.len() > 0),
            forall|k: int| ds <= k < i ==> is_digit(s@[k]),
            acc <= 0,
            acc as int == -digits_val_range(s@, ds as int, i as int),
        decreases n - i,
    {
        let c = s.get_char(i);
        let d32 = c as u32;
        if !(48 <= d32 && d32 <= 57) {
            proof {
                assert(!is_digit(s@[i as int]));
                assert(!int_token_wf(s@));
            }
            return Err(Error::DecodeError(s.to_owned()));
        }
        let d: isize = (d32 - 48) as isize;
        let acc10: isize = match acc.checked_mul(10) {
            Some(v) => v,
            None => {
                proof {
                    lemma_int_out_of_range(s@, ds as int, i as int + 1, d as int);
                }
                return Err(Error::DecodeError(s.to_owned()));
            },
        };
        acc = match acc10.checked_sub(d) {
            Some(v) => v,
            None => {
                proof {
                    lemma_int_out_of_range(s@, ds as int, i as int + 1, d as int);
                }
                return Err(Error::DecodeError(s.to_owned()));
            },
        };
        i = i + 1;
    }
    proof {
        assert(int_token_wf(s@));
    }
    if neg {
        Ok(acc)
    } else {
        if acc == isize::MIN {
            proof {
                assert(int_token_val(s@) == -(acc as int));
            }
            return Err(Error::DecodeError(s.to_owned()));
        }
        Ok(-acc)
    }
}

/// A numeral whose prefix up to `i` already exceeds the `isize` range in
/// magnitude puts the whole token out of range, whichever sign it
/// carries.
proof fn lemma_int_out_of_range(s: Seq<char>, ds: int, i: int, d: int)
    requires
        0 <= ds <= i <= s.len(),
        i >= 1,
        digits_val_range(s, ds, i - 1) * 10 + d > isize::MAX as int + 1,
        d == digit_val(s[i - 1]),
        ds == sign_len(s),
    ensures
        !parses_to_int(s),
{
    if int_token_wf(s) {
        assert(digits_val_range(s, ds, i) == digits_val_range(s, ds, i - 1) * 10 + digit_val(
            s[i - 1],
        ));
        lemma_digits_mono(s, ds, i, s.len() as int);
        assert(digits_val_range(s, ds, s.len() as int) > isize::MAX as int + 1);
        if s.len() > 0 && s[0] == '-' {
            assert(int_token_val(s) < isize::MIN);
        } else {
            assert(int_token_val(s) > isize::MAX);
        }
    }
}

/// True when `s` is a boolean token: exactly `true` or `false`.
pub open spec fn bool_token_wf(s: Seq<char>) -> bool {
    s == "true"@ || s == "false"@
}

/// The value of a boolean token.
pub open spec fn bool_token_val(s: Seq<char>) -> bool {
    s == "true"@
}

/// Parses a boolean token: exactly `true` or `false`, anything else is
/// a decode error carrying the token.
pub fn parse_bool(s: &str) -> (r: Result<bool, Error>)
    ensures
        r is Ok <==> bool_token_wf(s@),
        r matches Ok(v) ==> v == bool_token_val(s@),
        r matches Err(e) ==> e is DecodeError,
{
    proof {
        reveal_strlit("true");
        reveal_strlit("false");
    }
    let key: String = s.to_owned();
    let t: String = "true".to_owned();
    if key == t {
        return Ok(true);
    }
    let f: String = "false".to_owned();
    if key == f {
        return Ok(false);
    }
    Err(Error::DecodeError(s.to_owned()))
}

/// Binds a variable to a string value taken literally from the command
/// line.
pub struct StringPlugin;

impl CompileVariablePlugin for StringPlugin {
    type RenderValue = String;

    open spec fn read_ok(&self, content: Seq<char>) -> bool {
        true
    }

    open spec fn read_val(&self, content: Seq<char>, v: String) -> bool {
        v@ == content
    }

    open spec fn value_spec(v: String) -> ContextValue {
        ContextValue::Text(v)
    }

    open spec fn interp_spec() -> Interpretation {
        Interpretation::Raw
    }

    fn plugin_name() -> (r: &'static str)
        ensures
            r@ == "string"@,
    {
        "string"
    }

    fn arg_full_name() -> (r: &'static str)
        ensures
            r@ == "string"@,
    {
        "string"
    }

    fn arg_help() -> (r: &'static str) {
        "Assign variable to string value"
    }

    fn arg_interpretation() -> (r: Interpretation) {
        Interpretation::Raw
    }

    fn additional_args() -> (r: Vec<ArgSpec>)
        ensures
            r@.len() == 0,
    {
        Vec::new()
    }

    fn from_args(args: &PluginArgs) -> (r: StringPlugin) {
        StringPlugin
    }

    fn read<R: StreamRead>(&self, src: Source<R>) -> (r: Result<String, Error>) {
        src.consume()
    }

    fn into_value(v: String) -> (r: ContextValue) {
        ContextValue::Text(v)
    }
}

/// Binds a variable to a signed integer parsed from a literal decimal
/// token.
pub struct IntPlugin;

impl CompileVariablePlugin for IntPlugin {
    type RenderValue = isize;

    open spec fn read_ok(&self, content: Seq<char>) -> bool {
        parses_to_int(content)
    }

    open spec fn read_val(&self, content: Seq<char>, v: isize) -> bool {
        v as int == int_token_val(content)
    }

    open spec fn value_spec(v: isize) -> ContextValue {
        ContextValue::Int(v)
    }

    open spec fn interp_spec() -> Interpretation {
        Interpretation::Raw
    }

    fn plugin_name() -> (r: &'static str)
        ensures
            r@ == "int"@,
    {
        "int"
    }

    fn arg_full_name() -> (r: &'static str)
        ensures
            r@ == "int"@,
    {
        "int"
    }

    fn arg_help() -> (r: &'static str) {
        "Assign variable to integer value"
    }

    fn arg_interpretation() -> (r: Interpretation) {
        Interpretation::Raw
    }

    fn additional_args() -> (r: Vec<ArgSpec>)
        ensures
            r@.len() == 0,
    {
        Vec::new()
    }

    fn from_args(args: &PluginArgs) -> (r: IntPlugin) {
        IntPlugin
    }

    fn read<R: StreamRead>(&self, src: Source<R>) -> (r: Result<isize, Error>) {
        let text = match src.consume() {
            Ok(text) => text,
            Err(e) => {
                return Err(e);
            },
        };
        parse_int(text.as_str())
    }

    fn into_value(v: isize) -> (r: ContextValue) {
        ContextValue::Int(v)
    }
}

/// Binds a variable to a boolean parsed from a literal `true` or
/// `false` token.
pub struct BooleanPlugin;

impl CompileVariablePlugin for BooleanPlugin {
    type RenderValue = bool;

    open spec fn read_ok(&self, content: Seq<char>) -> bool {
        bool_token_wf(content)
    }

    open spec fn read_val(&self, content: Seq<char>, v: bool) -> bool {
        v == bool_token_val(content)
    }

    open spec fn value_spec(v: bool) -> ContextValue {
        ContextValue::Bool(v)
    }

    open spec fn interp_spec() -> Interpretation {
        Interpretation::Raw
    }

    fn plugin_name() -> (r: &'static str)
        ensures
            r@ == "bool"@,
    {
        "bool"
    }

    fn arg_full_name() -> (r: &'static str)
        ensures
            r@ == "bool"@,
    {
        "bool"
    }

    fn arg_help() -> (r: &'static str) {
        "Assign variable to boolean value"
    }

    fn arg_interpretation() -> (r: Interpretation) {
        Interpretation::Raw
    }

    fn additional_args() -> (r: Vec<ArgSpec>)
        ensures
            r@.len() == 0,
    {
        Vec::new()
    }

    fn from_args(args: &PluginArgs) -> (r: BooleanPlugin) {
        BooleanPlugin
    }

    fn read<R: StreamRead>(&self, src: Source<R>) -> (r: Result<bool, Error>) {
        let text = match src.consume() {
            Ok(text) => text,
            Err(e) => {
                return Err(e);
            },
        };
        parse_bool(text.as_str())
    }

    fn into_value(v: bool) -> (r: ContextValue) {
        ContextValue::Bool(v)
    }
}

} // verus!
