//! Concrete byte sources: an in-memory source with a fully determined read
//! model, and a zlib-inflating source backed by `flate2`, whose first read
//! is pinned to the named outcome [`inflate_outcome`].

use std::io::Read;
use vstd::prelude::*;

use crate::readable::{min_nat, ReadFault, Readable};

verus! {

/// A byte source over an owned buffer, consumed from the front. Every read
/// is fully determined by the bytes still unread, which is what makes the
/// limiting readers' exact contracts provable end to end.
pub struct MemSource {
    pub data: Vec<u8>,
    pub pos: usize,
}

impl MemSource {
    /// The bytes not yet consumed.
    pub open spec fn remaining(&self) -> Seq<u8> {
        if self.pos <= self.data@.len() {
            self.data@.skip(self.pos as int)
        } else {
            Seq::empty()
        }
    }

    /// A source holding all of `data`, none of it consumed yet.
    pub fn new(data: Vec<u8>) -> (s: Self)
        ensures
            s.remaining() == data@,
    {
        MemSource { data, pos: 0 }
    }
}

impl Readable for MemSource {
    open spec fn outcome(&self, len: nat) -> Option<Result<Seq<u8>, Seq<char>>> {
        Some(Ok(self.remaining().take(min_nat(len, self.remaining().len()) as int)))
    }

    open spec fn read_bound(&self, len: nat) -> nat {
        min_nat(len, self.remaining().len())
    }

    open spec fn write_bound(&self, len: nat) -> nat {
        min_nat(len, self.remaining().len())
    }

    open spec fn may_fault_on_limit(&self) -> bool {
        false
    }

    fn perform_read(&mut self, buf: &mut Vec<u8>, len: usize) -> (r: Result<usize, ReadFault>) {
        let avail: usize = if self.pos >= self.data.len() {
            0
        } else {
            self.data.len() - self.pos
        };
        let n: usize = if len <= avail {
            len
        } else {
            avail
        };
        let mut i: usize = 0;
        while i < n
            invariant
                i <= n,
                n <= len,
                n as nat == min_nat(len as nat, self.remaining().len()),
                n == 0 || self.pos + n <= self.data@.len(),
                self.data@.len() <= usize::MAX,
                n <= buf@.len(),
                buf@.len() == old(buf)@.len(),
                forall|j: int| 0 <= j < i ==> buf@[j] == self.data@[self.pos + j],
                forall|j: int| i <= j < buf@.len() ==> buf@[j] == old(buf)@[j],
            decreases n - i,
        {
            let b = self.data[self.pos + i];
            buf.set(i, b);
            i = i + 1;
        }
        proof {
            assert(buf@.subrange(0, n as int) =~= self.remaining().take(
                min_nat(len as nat, self.remaining().len()) as int,
            ));
        }
        self.pos = self.pos + n;
        Ok(n)
    }
}

#[verifier::external_type_specification]
#[verifier::external_body]
#[verifier::reject_recursive_types(T)]
pub struct ExCursor<T>(std::io::Cursor<T>);

#[verifier::external_type_specification]
#[verifier::external_body]
#[verifier::reject_recursive_types(R)]
pub struct ExZlibDecoder<R>(flate2::read::ZlibDecoder<R>);

/// What one bounded read of a fresh zlib inflater yields, as a function of
/// the compressed bytes and the requested length alone: either the
/// decompressed bytes it produces, or the message of the failure (for a
/// malformed stream, flate2's fixed "corrupt deflate stream"). This build
/// inflates with flate2's pure-Rust backend, so the result depends on
/// nothing but these two arguments.
pub uninterp spec fn inflate_outcome(data: Seq<u8>, len: nat) -> Result<Seq<u8>, Seq<char>>;

/// Relies on flate2's `Read` impl for `ZlibDecoder`, and on
/// `ZlibDecoder::new` and `std::io::Cursor::new`, which only construct and
/// cannot fail: one bounded read of a decoder freshly built over `data` is
/// a function of `data` and `len` alone, named [`inflate_outcome`]; it
/// writes only the bytes it produces, into `buf[0..len]`, reports their
/// count, and reports a malformed stream as an error whose message is
/// handed back as a `String`. The decoder is returned for later reads of
/// the rest of the stream.
#[verifier::external_body]
fn zlib_read_fresh(data: Vec<u8>, buf: &mut Vec<u8>, len: usize) -> (r: (
    Result<usize, String>,
    flate2::read::ZlibDecoder<std::io::Cursor<Vec<u8>>>,
))
    requires
        len <= old(buf)@.len(),
    ensures
        final(buf)@.len() == old(buf)@.len(),
        forall|i: int| len <= i < final(buf)@.len() ==> final(buf)@[i] == old(buf)@[i],
        (r.0 matches Ok(n) ==> n <= len),
        (match inflate_outcome(data@, len as nat) {
            Ok(bytes) => r.0 matches Ok(n) && n == bytes.len()
                && final(buf)@.subrange(0, n as int) == bytes
                && (forall|i: int| n <= i < final(buf)@.len() ==> final(buf)@[i] == old(buf)@[i]),
            Err(msg) => r.0 matches Err(m) && m@ == msg,
        }),
{
    let mut dec = flate2::read::ZlibDecoder::new(std::io::Cursor::new(data));
    let res = match dec.read(&mut buf[..len]) {
        Ok(n) => Ok(n),
        Err(e) => Err(format!("{}", e)),
    };
    (res, dec)
}

/// Relies on flate2's `Read` impl for `ZlibDecoder`: a read into a slice of
/// `len` bytes writes only that slice and reports at most `len` bytes; a
/// malformed stream is reported as an error, whose message is handed back
/// as a `String`.
#[verifier::external_body]
fn zlib_read(
    dec: &mut flate2::read::ZlibDecoder<std::io::Cursor<Vec<u8>>>,
    buf: &mut Vec<u8>,
    len: usize,
) -> (r: Result<usize, String>)
    requires
        len <= old(buf)@.len(),
    ensures
        final(buf)@.len() == old(buf)@.len(),
        forall|i: int| len <= i < final(buf)@.len() ==> final(buf)@[i] == old(buf)@[i],
        (r matches Ok(n) ==> n <= len),
{
    match dec.read(&mut buf[..len]) {
        Ok(n) => Ok(n),
        Err(e) => Err(format!("{}", e)),
    }
}

/// A byte source that inflates a zlib-compressed buffer as it is read. Its
/// first read is fully determined: it yields [`inflate_outcome`] of the
/// compressed bytes and the request — either decompressed bytes or the
/// inflater's failure message, handed on unchanged. Later reads continue
/// the stream through the retained decoder, with no determined model.
pub struct ZlibSource {
    /// The compressed bytes, held until the first read consumes them.
    pub data: Option<Vec<u8>>,
    /// The streaming decoder, present from the first read on.
    pub dec: Option<flate2::read::ZlibDecoder<std::io::Cursor<Vec<u8>>>>,
}

impl ZlibSource {
    /// A source inflating the zlib stream held in `data`.
    pub fn new(data: Vec<u8>) -> (s: Self)
        ensures
            s.data == Some(data),
            s.dec is None,
    {
        ZlibSource { data: Some(data), dec: None }
    }
}

impl Readable for ZlibSource {
    open spec fn outcome(&self, len: nat) -> Option<Result<Seq<u8>, Seq<char>>> {
        match self.data {
            Some(d) => Some(inflate_outcome(d@, len)),
            None => None,
        }
    }

    open spec fn read_bound(&self, len: nat) -> nat {
        len
    }

    open spec fn write_bound(&self, len: nat) -> nat {
        len
    }

    open spec fn may_fault_on_limit(&self) -> bool {
        false
    }

    fn perform_read(&mut self, buf: &mut Vec<u8>, len: usize) -> (r: Result<usize, ReadFault>) {
        match self.data.take() {
            Some(d) => {
                let (first, dec) = zlib_read_fresh(d, buf, len);
                self.dec = Some(dec);
                match first {
                    Ok(n) => Ok(n),
                    Err(m) => Err(ReadFault::Source(m)),
                }
            },
            None => match &mut self.dec {
                Some(dec) => match zlib_read(dec, buf, len) {
                    Ok(n) => Ok(n),
                    Err(m) => Err(ReadFault::Source(m)),
                },
                None => Ok(0),
            },
        }
    }
}

} // verus!
