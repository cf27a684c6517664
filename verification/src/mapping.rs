//! Parsing of `name:value` command-line mapping tokens.

use vstd::prelude::*;

use crate::error::Error;

verus! {

/// True when `s` holds at least one `:` separator.
pub open spec fn has_sep(s: Seq<char>) -> bool {
    exists|i: int| 0 <= i < s.len() && s[i] == ':'
}

/// True when `i` is the index of the first `:` in `s`.
pub open spec fn is_first_sep(s: Seq<char>, i: int) -> bool {
    &&& 0 <= i < s.len()
    &&& s[i] == ':'
    &&& forall|j: int| 0 <= j < i ==> s[j] != ':'
}

/// The index of the first `:` in `s`. Meaningful only when `has_sep(s)`.
pub open spec fn sep_pos(s: Seq<char>) -> int {
    choose|i: int| is_first_sep(s, i)
}

/// The variable name bound by token `s`: everything before the first `:`.
pub open spec fn mapping_name(s: Seq<char>) -> Seq<char> {
    s.subrange(0, sep_pos(s))
}

/// The argument value bound by token `s`: everything after the first `:`.
/// Later separators are part of the value, so values may themselves hold
/// colons (file paths, URLs).
pub open spec fn mapping_value(s: Seq<char>) -> Seq<char> {
    s.subrange(sep_pos(s) + 1, s.len() as int)
}

/// At most one index is the first separator.
pub proof fn lemma_first_sep_unique(s: Seq<char>, i: int, j: int)
    requires
        is_first_sep(s, i),
        is_first_sep(s, j),
    ensures
        i == j,
{
    if i < j {
        assert(s[i] != ':');
    } else if j < i {
        assert(s[j] != ':');
    }
}

proof fn lemma_first_sep_from(s: Seq<char>, k: int)
    requires
        0 <= k < s.len(),
        exists|i: int| k <= i < s.len() && s[i] == ':',
        forall|j: int| 0 <= j < k ==> s[j] != ':',
    ensures
        is_first_sep(s, sep_pos(s)),
    decreases s.len() - k,
{
    if s[k] == ':' {
        assert(is_first_sep(s, k));
    } else {
        let w = choose|i: int| k <= i < s.len() && s[i] == ':';
        assert(k + 1 <= w < s.len() && s[w] == ':');
        lemma_first_sep_from(s, k + 1);
    }
}

/// A token with a separator has a well-defined first separator, and
/// `sep_pos` names it.
pub proof fn lemma_first_sep(s: Seq<char>)
    requires
        has_sep(s),
    ensures
        is_first_sep(s, sep_pos(s)),
{
    let w = choose|i: int| 0 <= i < s.len() && s[i] == ':';
    assert(0 <= w < s.len() && s[w] == ':');
    lemma_first_sep_from(s, 0);
}

/// Law: splitting a token at its first separator loses nothing. For every
/// token with a separator, `name + ":" + value` rebuilds the token.
pub proof fn lemma_mapping_round_trip(s: Seq<char>)
    requires
        has_sep(s),
    ensures
        mapping_name(s) + seq![':'] + mapping_value(s) == s,
{
    lemma_first_sep(s);
    assert(mapping_name(s) + seq![':'] + mapping_value(s) =~= s);
}

/// A binding between a template variable and the raw argument that will
/// populate it. Both halves are borrowed views into the original CLI
/// token, split at the token's first `:`.
#[derive(Debug)]
pub struct VarMapping<'a> {
    var_name: &'a str,
    arg_value: &'a str,
}

impl<'a> VarMapping<'a> {
    /// The name the mapping binds.
    pub closed spec fn name_view(&self) -> Seq<char> {
        self.var_name@
    }

    /// The argument value the mapping carries.
    pub closed spec fn value_view(&self) -> Seq<char> {
        self.arg_value@
    }

    /// Unpacks a mapped variable token `<var_name>:<arg_value>`. The token
    /// is split at its first `:` only; a token without a separator is
    /// rejected as a malformed mapping naming the offending token.
    pub fn from_str(s: &'a str) -> (r: Result<VarMapping<'a>, Error>)
        ensures
            r is Ok <==> has_sep(s@),
            r matches Ok(m) ==> m.name_view() == mapping_name(s@) && m.value_view() == mapping_value(
                s@,
            ),
            r matches Err(e) ==> (e matches Error::MalformedMapping(t) && t@ == s@),
    {
        let n = s.unicode_len();
        let mut i: usize = 0;
        while i < n
            invariant
                i <= n,
                n == s@.len(),
                forall|j: int| 0 <= j < i ==> s@[j] != ':',
            decreases n - i,
    {
            if s.get_char(i) == ':' {
                proof {
                    assert(is_first_sep(s@, i as int));
                    lemma_first_sep(s@);
                    lemma_first_sep_unique(s@, i as int, sep_pos(s@));
                }
                let var_name = s.substring_char(0, i);
                let arg_value = s.substring_char(i + 1, n);
                return Ok(VarMapping { var_name, arg_value });
            }
            i = i + 1;
        }
        Err(Error::MalformedMapping(s.to_owned()))
    }

    /// Unpacks a mapped variable token, for callers that already know it
    /// holds a separator and treat a malformed token as a programming
    /// error; tokens without a separator are excluded up front.
    pub fn from_str_panic(s: &'a str) -> (m: VarMapping<'a>)
        requires
            has_sep(s@),
        ensures
            m.name_view() == mapping_name(s@),
            m.value_view() == mapping_value(s@),
    {
        match VarMapping::from_str(s) {
            Ok(m) => m,
            Err(_) => vstd::pervasive::unreached(),
        }
    }

    /// The template variable name bound by this mapping.
    #[inline]
    pub fn var_name(&self) -> (r: &'a str)
        ensures
            r@ == self.name_view(),
    {
        self.var_name
    }

    /// The raw argument value bound to the variable.
    #[inline]
    pub fn arg_value(&self) -> (r: &'a str)
        ensures
            r@ == self.value_view(),
    {
        self.arg_value
    }

    /// The argument value read as a file path: the historical name under
    /// which path-interpreted plugins fetched the value.
    #[inline]
    pub fn file_path(&self) -> (r: &'a str)
        ensures
            r@ == self.value_view(),
    {
        self.arg_value
    }
}

} // verus!
