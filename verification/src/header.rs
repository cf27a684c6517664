//! Scanner for a leading delimited metadata block (front matter) at the
//! start of a text buffer.
//!
//! A block opens with a `---` divider line and closes at the next `---`
//! that is followed by a newline or by the end of the buffer. The bytes
//! between the dividers are decoded as YAML. A buffer without a complete,
//! properly delimited block carries no metadata and is consumed from
//! offset 0; malformed YAML inside a complete block is an error.

use vstd::prelude::*;
use vstd::slice::{slice_index_get, slice_subrange};

use crate::decode::{is_yaml, yaml_from_slice};
use crate::error::Error;

verus! {

/// True when the three divider bytes `---` sit at index `i` of `s`.
pub open spec fn divider_at(s: Seq<u8>, i: int) -> bool {
    &&& 0 <= i
    &&& i + 3 <= s.len()
    &&& s[i] == 45u8
    &&& s[i + 1] == 45u8
    &&& s[i + 2] == 45u8
}

/// The number of newline bytes directly after the opening divider: 2 for
/// `\r\n`, 1 for `\n`, nothing when neither follows (in which case the
/// buffer opens no block).
pub open spec fn opening_nl(s: Seq<u8>) -> Option<int> {
    if s.len() >= 5 && s[3] == 13u8 && s[4] == 10u8 {
        Some(2)
    } else if s.len() >= 4 && s[3] == 10u8 {
        Some(1)
    } else {
        None
    }
}

/// True when a divider at index `i` of `rest` (the bytes after the
/// opening line) validly terminates the block: it must be followed by a
/// newline or sit at the very end of the buffer.
pub open spec fn is_terminator(rest: Seq<u8>, i: int) -> bool {
    &&& divider_at(rest, i)
    &&& (i + 3 == rest.len() || (i + 3 < rest.len() && rest[i + 3] == 10u8) || (i + 5 <= rest.len()
        && rest[i + 3] == 13u8 && rest[i + 4] == 10u8))
}

/// The number of newline bytes consumed by the terminator at `i`.
/// Meaningful only when `is_terminator(rest, i)`.
pub open spec fn term_nl_len(rest: Seq<u8>, i: int) -> int {
    if i + 3 == rest.len() {
        0
    } else if rest[i + 3] == 10u8 {
        1
    } else {
        2
    }
}

/// True when some index of `rest` validly terminates the block.
pub open spec fn has_terminator(rest: Seq<u8>) -> bool {
    exists|i: int| is_terminator(rest, i)
}

/// True when `i` is the earliest valid terminator in `rest`.
pub open spec fn is_first_terminator(rest: Seq<u8>, i: int) -> bool {
    &&& is_terminator(rest, i)
    &&& forall|j: int| 0 <= j < i ==> !is_terminator(rest, j)
}

/// The index of the earliest valid terminator in `rest`. Meaningful only
/// when some terminator exists.
pub open spec fn term_pos(rest: Seq<u8>) -> int {
    choose|i: int| is_first_terminator(rest, i)
}

/// At most one index is the first terminator.
pub proof fn lemma_first_term_unique(rest: Seq<u8>, i: int, j: int)
    requires
        is_first_terminator(rest, i),
        is_first_terminator(rest, j),
    ensures
        i == j,
{
    if i < j {
        assert(!is_terminator(rest, i));
    } else if j < i {
        assert(!is_terminator(rest, j));
    }
}

proof fn lemma_first_term_from(rest: Seq<u8>, k: int)
    requires
        0 <= k,
        exists|i: int| k <= i && is_terminator(rest, i),
        forall|j: int| 0 <= j < k ==> !is_terminator(rest, j),
    ensures
        is_first_terminator(rest, term_pos(rest)),
    decreases rest.len() - k,
{
    let w = choose|i: int| k <= i && is_terminator(rest, i);
    if is_terminator(rest, k) {
        assert(is_first_terminator(rest, k));
    } else {
        assert(k + 1 <= w && is_terminator(rest, w));
        assert(k < w && w + 3 <= rest.len());
        lemma_first_term_from(rest, k + 1);
    }
}

/// When any terminator exists, `term_pos` names the earliest one.
pub proof fn lemma_first_term(rest: Seq<u8>)
    requires
        has_terminator(rest),
    ensures
        is_first_terminator(rest, term_pos(rest)),
{
    let w = choose|i: int| is_terminator(rest, i);
    assert(0 <= w && is_terminator(rest, w));
    lemma_first_term_from(rest, 0);
}

/// What the scanner finds at the start of a buffer.
pub enum HeaderScan {
    /// No delimited block: the buffer does not open with a divider line,
    /// or no valid terminator follows. Nothing is consumed.
    Absent,
    /// An opening and a closing divider with nothing between them. The
    /// delimiter bytes are consumed but there is no metadata.
    Empty { offset: int },
    /// A complete block of metadata bytes, with the offset of the first
    /// byte of the document body.
    Present { block: Seq<u8>, offset: int },
}

/// The scanner's outcome on buffer `s`, as a function of the bytes alone.
pub open spec fn scan_header(s: Seq<u8>) -> HeaderScan {
    if !divider_at(s, 0) {
        HeaderScan::Absent
    } else {
        match opening_nl(s) {
            Option::None => HeaderScan::Absent,
            Option::Some(nl) => {
                let rest = s.skip(3 + nl);
                if has_terminator(rest) {
                    let i = term_pos(rest);
                    let offset = 3 + nl + i + 3 + term_nl_len(rest, i);
                    if i == 0 {
                        HeaderScan::Empty { offset }
                    } else {
                        HeaderScan::Present { block: rest.subrange(0, i), offset }
                    }
                } else {
                    HeaderScan::Absent
                }
            },
        }
    }
}

/// The scanner's offsets never run past the end of the buffer.
pub proof fn lemma_scan_offset_in_bounds(s: Seq<u8>)
    ensures
        scan_header(s) matches HeaderScan::Empty { offset } ==> 0 <= offset <= s.len(),
        scan_header(s) matches HeaderScan::Present { block, offset } ==> 0 <= offset <= s.len(),
{
    if divider_at(s, 0) {
        match opening_nl(s) {
            Option::Some(nl) => {
                let rest = s.skip(3 + nl);
                if has_terminator(rest) {
                    lemma_first_term(rest);
                    let i = term_pos(rest);
                    assert(rest.len() == s.len() - 3 - nl);
                    assert(i + 3 + term_nl_len(rest, i) <= rest.len());
                }
            },
            Option::None => {},
        }
    }
}

/// The constraint `read_header`'s successful results obey: whether
/// metadata was found and where the body starts, as determined by
/// `scan_header`.
pub open spec fn header_post(s: Seq<u8>, found: bool, offset: int) -> bool {
    match scan_header(s) {
        HeaderScan::Absent => !found && offset == 0,
        HeaderScan::Empty { offset: o } => !found && offset == o,
        HeaderScan::Present { block, offset: o } => is_yaml(block) && found && offset == o,
    }
}

/// Law: scanning is idempotent. The scanner's outcome is a function of
/// the buffer alone, so any two results its contract admits for the same
/// buffer agree on whether metadata was found and on the body offset.
pub proof fn lemma_read_header_idempotent(
    s: Seq<u8>,
    found1: bool,
    offset1: int,
    found2: bool,
    offset2: int,
)
    requires
        header_post(s, found1, offset1),
        header_post(s, found2, offset2),
    ensures
        found1 == found2,
        offset1 == offset2,
{
}

/// Tries to read a YAML metadata block from the beginning of an input
/// buffer. Returns the decoded metadata (`None` when the buffer opens no
/// block, or the block is empty) and the byte offset where the document
/// body begins (0 when nothing was consumed). An unterminated block is
/// treated as no metadata; a complete block of malformed YAML is a
/// decode error.
pub fn read_header(buf: &[u8]) -> (r: Result<(Option<serde_yaml::Value>, usize), Error>)
    ensures
        scan_header(buf@) is Absent ==> (r matches Ok((m, off)) && m is None && off == 0),
        scan_header(buf@) matches HeaderScan::Empty { offset } ==> (r matches Ok((m, off))
            && m is None && off == offset),
        scan_header(buf@) matches HeaderScan::Present { block, offset } ==> {
            &&& is_yaml(block) ==> (r matches Ok((m, off)) && m is Some && off == offset)
            &&& !is_yaml(block) ==> (r matches Err(e) && e is DecodeError)
        },
        r matches Ok((m, off)) ==> header_post(buf@, m is Some, off as int),
{
    let len = buf.len();
    if !(len >= 3 && *slice_index_get(buf, 0) == 45u8 && *slice_index_get(buf, 1) == 45u8
        && *slice_index_get(buf, 2) == 45u8) {
        return Ok((None, 0));
    }
    let nl: usize = if len >= 5 && *slice_index_get(buf, 3) == 13u8 && *slice_index_get(buf, 4)
        == 10u8 {
        2
    } else if len >= 4 && *slice_index_get(buf, 3) == 10u8 {
        1
    } else {
        return Ok((None, 0));
    };
    let start = 3 + nl;
    let ghost rest = buf@.skip(start as int);
    let mut i: usize = 0;
    let mut found: bool = false;
    loop
        invariant_except_break
            !found,
        invariant
            3 + nl == start <= len,
            len == buf@.len(),
            rest == buf@.skip(start as int),
            i + start <= len,
            forall|j: int| 0 <= j < i ==> !is_terminator(rest, j),
        ensures
            forall|j: int| 0 <= j < i ==> !is_terminator(rest, j),
            found ==> is_terminator(rest, i as int) && i + 3 + start <= len,
            !found ==> forall|j: int| !is_terminator(rest, j),
        decreases len - start - i,
    {
        if i + 3 > len - start {
            proof {
                assert forall|j: int| i <= j implies !is_terminator(rest, j) by {
                    assert(rest.len() == len - start);
                }
            }
            break ;
        }
        if *slice_index_get(buf, start + i) == 45u8 && *slice_index_get(buf, start + i + 1) == 45u8
            && *slice_index_get(buf, start + i + 2) == 45u8 {
            proof {
                assert(divider_at(rest, i as int));
            }
            if len - (start + i) == 3 {
                proof {
                    assert(rest.len() == len - start);
                    assert(is_terminator(rest, i as int));
                }
                found = true;
                break ;
            }
            if *slice_index_get(buf, start + i + 3) == 10u8 {
                proof {
                    assert(rest.len() == len - start);
                    assert(rest[i + 3] == buf@[start + i + 3]);
                    assert(is_terminator(rest, i as int));
                }
                found = true;
                break ;
            }
            if len - (start + i) >= 5 && *slice_index_get(buf, start + i + 3) == 13u8
                && *slice_index_get(buf, start + i + 4) == 10u8 {
                proof {
                    assert(rest.len() == len - start);
                    assert(rest[i + 3] == buf@[start + i + 3]);
                    assert(rest[i + 4] == buf@[start + i + 4]);
                    assert(is_terminator(rest, i as int));
                }
                found = true;
                break ;
            }
        }
        proof {
            assert(!is_terminator(rest, i as int));
        }
        i = i + 1;
    }
    if !found {
        proof {
            assert(scan_header(buf@) is Absent);
        }
        return Ok((None, 0));
    }
    proof {
        assert(is_terminator(rest, i as int));
        assert(has_terminator(rest));
        lemma_first_term(rest);
    }
    proof {
        assert(rest.len() == len - start);
        if i + 3 < len - start {
            assert(rest[i + 3] == buf@[start + i + 3]);
        }
        if i + 5 <= len - start {
            assert(rest[i + 4] == buf@[start + i + 4]);
        }
    }
    let nl2: usize = if len - (start + i) == 3 {
        0
    } else if *slice_index_get(buf, start + i + 3) == 10u8 {
        1
    } else {
        2
    };
    proof {
        assert(term_nl_len(rest, i as int) == nl2);
    }
    let ghost first = term_pos(rest);
    if i == 0 {
        proof {
            if first != 0 {
                assert(!is_terminator(rest, 0));
            }
            assert(term_pos(rest) == 0);
            assert(scan_header(buf@) == (HeaderScan::Empty { offset: start + 3 + nl2 }));
        }
        return Ok((None, start + 3 + nl2));
    }
    proof {
        if first < i {
            assert(!is_terminator(rest, first));
        }
        if first > i {
            assert(!is_terminator(rest, i as int));
        }
        assert(first == i as int);
        assert(rest.subrange(0, i as int) =~= buf@.subrange(start as int, (start + i) as int));
    }
    let block = slice_subrange(buf, start, start + i);
    match yaml_from_slice(block) {
        Ok(v) => Ok((Some(v), start + i + 3 + nl2)),
        Err(e) => Err(Error::DecodeError(e)),
    }
}

} // verus!
