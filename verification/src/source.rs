//! The dual-mode input abstraction: a literal string and an open readable
//! stream behind one incremental-read contract.

use vstd::math::min;
use vstd::prelude::*;
use vstd::slice::slice_index_get;
use vstd::string::StringSliceAdditionalSpecFns;

use crate::error::Error;

verus! {

/// How the driver turns a plugin's argument values into sources: a `Raw`
/// plugin receives the literal value itself, a `Path` plugin receives the
/// opened file the value points at. Fixed per plugin type, never decided
/// per invocation.
#[derive(Clone, Copy, Debug, PartialEq, Eq, Structural)]
pub enum Interpretation {
    Raw,
    Path,
}

/// An incremental byte stream, implemented by the host program for open
/// files. Nothing is assumed of an implementation: a source backed by one
/// yields whatever the stream yields.
pub trait StreamRead {
    /// Copies the next available bytes over the front of `buf` without
    /// changing its length and reports how many were written; 0 signals
    /// exhaustion.
    fn read_bytes(&mut self, buf: &mut Vec<u8>) -> Result<usize, String>;

    /// Drains the whole remaining stream into one text value.
    fn read_all(&mut self) -> Result<String, String>;
}

/// A source either holds a literal string value or wraps a readable
/// stream. Both variants can be drained to a string in one step or read
/// incrementally, with identical observable content.
pub enum Source<'a, R> {
    /// A literal taken from the command line, with the byte cursor used
    /// when the literal is drained incrementally.
    Raw(&'a str, usize),
    /// An open readable stream.
    File(R),
}

impl<'a, R> Source<'a, R> {
    /// The literal of a raw source, as characters.
    pub open spec fn raw_text(&self) -> Seq<char> {
        self->Raw_0@
    }

    /// The literal of a raw source, as UTF-8 bytes.
    pub open spec fn raw_bytes(&self) -> Seq<u8> {
        self->Raw_0.spec_bytes()
    }

    /// The byte cursor of a raw source.
    pub open spec fn cursor(&self) -> int {
        self->Raw_1 as int
    }

    /// A raw source's cursor never points past the literal's end. Sources
    /// built by the driver start at cursor 0, and reads keep the bound.
    pub open spec fn wf(&self) -> bool {
        self is Raw ==> self.cursor() <= self.raw_bytes().len()
    }
}

impl<'a, R: StreamRead> Source<'a, R> {
    /// Consumes the source and drains the entire value into one string.
    /// A raw source yields exactly its literal, whatever the cursor says;
    /// a file-backed source drains its underlying stream and fails with
    /// an I/O error when the stream does.
    pub fn consume(self) -> (r: Result<String, Error>)
        ensures
            self is Raw ==> (r matches Ok(s) && s@ == self.raw_text()),
            r matches Err(e) ==> e is IoError,
    {
        match self {
            Source::Raw(raw, _) => Ok(raw.to_owned()),
            Source::File(mut reader) => match reader.read_all() {
                Ok(s) => Ok(s),
                Err(e) => Err(Error::IoError(e)),
            },
        }
    }

    /// Copies the next available bytes over the front of `buf`, without
    /// changing its length, and returns how many were written. For a raw
    /// source successive calls serve successive byte ranges of the
    /// literal starting at the cursor, never re-copying returned bytes
    /// and never running past the literal's end; 0 signals exhaustion.
    /// For a file-backed source the call is forwarded to the stream,
    /// errors and end-of-stream signal included.
    pub fn read(&mut self, buf: &mut Vec<u8>) -> (r: Result<usize, Error>)
        requires
            old(self).wf(),
        ensures
            final(self).wf(),
            *old(self) is Raw ==> (r matches Ok(n) && {
                let total = old(self).raw_bytes();
                let cur = old(self).cursor();
                &&& n as int == min(old(buf)@.len() as int, total.len() - cur)
                &&& *final(self) is Raw
                &&& final(self).raw_text() == old(self).raw_text()
                &&& final(self).cursor() == cur + n
                &&& final(buf)@ == total.subrange(cur, cur + n) + old(buf)@.skip(n as int)
            }),
            *old(self) is File ==> {
                &&& *final(self) is File
                &&& (r matches Err(e) ==> e is IoError)
            },
    {
        match self {
            Source::Raw(raw, index) => {
                let bytes: &[u8] = raw.as_bytes();
                let blen: usize = bytes.len();
                let cur: usize = *index;
                let remaining: usize = blen - cur;
                let n: usize = if buf.len() < remaining {
                    buf.len()
                } else {
                    remaining
                };
                let ghost buf0 = buf@;
                let mut i: usize = 0;
                while i < n
                    invariant
                        i <= n,
                        blen == bytes@.len(),
                        cur + n <= blen,
                        n <= buf0.len(),
                        buf@.len() == buf0.len(),
                        forall|j: int| 0 <= j < i ==> buf@[j] == bytes@[cur + j],
                        forall|j: int| i <= j < buf0.len() ==> buf@[j] == buf0[j],
                    decreases n - i,
                {
                    let b = *slice_index_get(bytes, cur + i);
                    buf.set(i, b);
                    i = i + 1;
                }
                *index = cur + n;
                proof {
                    assert(buf@ =~= bytes@.subrange(cur as int, cur + n as int) + buf0.skip(
                        n as int,
                    ));
                }
                Ok(n)
            },
            Source::File(reader) => match reader.read_bytes(buf) {
                Ok(n) => Ok(n),
                Err(e) => Err(Error::IoError(e)),
            },
        }
    }

    /// Drains what is left of a raw source by repeated incremental reads
    /// through a scratch buffer of `chunk_size` bytes, concatenating
    /// everything that comes back. The result is exactly the literal's
    /// bytes from the cursor on, however `chunk_size` is chosen: the
    /// incremental interface loses and duplicates nothing.
    pub fn read_to_end(&mut self, chunk_size: usize) -> (r: Result<Vec<u8>, Error>)
        requires
            old(self).wf(),
            *old(self) is Raw,
            chunk_size >= 1,
        ensures
            final(self).wf(),
            r matches Ok(v) && {
                let total = old(self).raw_bytes();
                &&& v@ == total.skip(old(self).cursor())
                &&& *final(self) is Raw
                &&& final(self).raw_text() == old(self).raw_text()
                &&& final(self).cursor() == total.len()
            },
    {
        let ghost total = old(self).raw_bytes();
        let mut out: Vec<u8> = Vec::new();
        let mut buf: Vec<u8> = Vec::new();
        buf.resize(chunk_size, 0u8);
        let ghost start = self.cursor();
        loop
            invariant
                self.wf(),
                *self is Raw,
                buf@.len() == chunk_size,
                chunk_size >= 1,
                self.raw_text() == old(self).raw_text(),
                self.raw_bytes() == total,
                0 <= start <= self.cursor() <= total.len(),
                out@ == total.subrange(start, self.cursor()),
            ensures
                *self is Raw,
                self.raw_text() == old(self).raw_text(),
                self.raw_bytes() == total,
                self.cursor() == total.len(),
                out@ == total.subrange(start, total.len() as int),
            decreases total.len() - self.cursor(),
        {
            let ghost cur_b = self.cursor();
            let n = match self.read(&mut buf) {
                Ok(n) => n,
                Err(e) => {
                    return Err(e);
                },
            };
            if n == 0 {
                break ;
            }
            proof {
                assert forall|k: int| 0 <= k < n implies buf@[k] == total[cur_b + k] by {
                    assert(buf@[k] == total.subrange(cur_b, cur_b + n)[k]);
                }
            }
            let mut j: usize = 0;
            while j < n
                invariant
                    j <= n,
                    n <= buf@.len(),
                    0 <= start <= cur_b,
                    cur_b + n <= total.len(),
                    forall|k: int| 0 <= k < n ==> buf@[k] == total[cur_b + k],
                    out@ == total.subrange(start, cur_b + j),
                decreases n - j,
            {
                let b = buf[j];
                out.push(b);
                proof {
                    assert(out@ =~= total.subrange(start, cur_b + j + 1));
                }
                j = j + 1;
            }
        }
        proof {
            assert(out@ =~= total.skip(start));
        }
        Ok(out)
    }

}

} // verus!
