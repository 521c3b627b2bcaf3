//! The uniform read capability and the two limiting readers built on it.
//!
//! [`Readable`] is the capability every byte source of this crate offers: a
//! single bounded read into a caller-owned buffer. Its contract carries, as
//! ghost state, everything the limiting readers need: the fully determined
//! outcome of a read where the source has one (the bytes produced, or the
//! message of the failure), an upper bound on what a successful read may
//! report, how far into the buffer a read may write, and whether the limit
//! fault can occur at all.
//!
//! [`LimitReaderFallible`] enforces a hard ceiling: a read that produces more
//! bytes than the remaining limit fails. [`LimitReaderInfallible`] instead
//! caps every request at the limit and never fails on its account.

use vstd::prelude::*;

verus! {

/// What a bounded read can report instead of a byte count.
#[derive(Debug)]
pub enum ReadFault {
    /// A strict limiting reader saw more bytes than its limit allows.
    TooManyBytes,
    /// The underlying source failed; the message is the source's own.
    Source(String),
}

/// The message a fault carries to the caller: the fixed one for a limit
/// overrun, the source's own otherwise. The error translation of the
/// orchestrator turns exactly this into the error's detail.
pub open spec fn fault_detail(f: ReadFault) -> Seq<char> {
    match f {
        ReadFault::TooManyBytes => "too many bytes"@,
        ReadFault::Source(m) => m@,
    }
}

/// The smaller of two naturals.
pub open spec fn min_nat(a: nat, b: nat) -> nat {
    if a <= b {
        a
    } else {
        b
    }
}

/// A diagnostic counter's step: up by one until it sticks at the top.
pub open spec fn saturating_inc(c: usize) -> usize {
    if c < usize::MAX {
        (c + 1) as usize
    } else {
        c
    }
}

/// The length a strict limiting reader hands to its source: the requested
/// length, constrained to one byte more than the limit so that a source
/// which would overrun the limit in this call cannot slip through unnoticed.
pub open spec fn strict_request(len: nat, limit: nat) -> nat {
    if len <= limit {
        len
    } else {
        limit + 1
    }
}

/// A uniform read capability over some byte source.
///
/// `perform_read(buf, len)` reads at most `len` bytes into `buf[0..len]` and
/// reports how many arrived; bytes of `buf` at or beyond `len` are never
/// touched. Four spec functions describe each implementation. `outcome(len)`
/// is the fully determined result of a read, where the source has one:
/// `Some(Ok(bytes))` — the read succeeds and produces exactly `bytes`;
/// `Some(Err(msg))` — the read fails with a fault whose [`fault_detail`] is
/// `msg`; `None` — the outcome is not determined by the receiver's state.
/// `read_bound(len)` bounds what a successful read may report and
/// `write_bound(len)` bounds how far into the buffer any read may write,
/// both even when the outcome is not determined; and `may_fault_on_limit`
/// says whether [`ReadFault::TooManyBytes`] can arise at all.
pub trait Readable: Sized {
    /// The determined outcome of `perform_read(_, len)`, if there is one.
    spec fn outcome(&self, len: nat) -> Option<Result<Seq<u8>, Seq<char>>>;

    /// An upper bound on the count a successful read of `len` may report.
    spec fn read_bound(&self, len: nat) -> nat;

    /// An upper bound on how far into the buffer a read of `len` may write.
    spec fn write_bound(&self, len: nat) -> nat;

    /// Whether a read can ever fail with [`ReadFault::TooManyBytes`].
    spec fn may_fault_on_limit(&self) -> bool;

    /// Read at most `len` bytes into `buf[0..len]`.
    fn perform_read(&mut self, buf: &mut Vec<u8>, len: usize) -> (r: Result<usize, ReadFault>)
        requires
            len <= old(buf)@.len(),
        ensures
            final(buf)@.len() == old(buf)@.len(),
            forall|i: int| len <= i < final(buf)@.len() ==> final(buf)@[i] == old(buf)@[i],
            forall|i: int|
                old(self).write_bound(len as nat) <= i < final(buf)@.len() ==> final(buf)@[i]
                    == old(buf)@[i],
            (r matches Ok(n) ==> n <= len && n <= old(self).read_bound(len as nat)),
            !old(self).may_fault_on_limit() ==> !(r matches Err(ReadFault::TooManyBytes)),
            (match old(self).outcome(len as nat) {
                Some(Ok(bytes)) => r matches Ok(n) && n == bytes.len()
                    && final(buf)@.subrange(0, n as int) == bytes
                    && (forall|i: int| n <= i < final(buf)@.len() ==> final(buf)@[i] == old(buf)@[i]),
                Some(Err(msg)) => r matches Err(f) && fault_detail(f) == msg,
                None => true,
            }),
    ;
}

/// A trivial passthrough adapter: whatever readable it wraps, it offers the
/// same uniform capability, unchanged.
pub struct MyBufReader<Z: Readable>(pub Z);

impl<Z: Readable> Readable for MyBufReader<Z> {
    open spec fn outcome(&self, len: nat) -> Option<Result<Seq<u8>, Seq<char>>> {
        self.0.outcome(len)
    }

    open spec fn read_bound(&self, len: nat) -> nat {
        self.0.read_bound(len)
    }

    open spec fn write_bound(&self, len: nat) -> nat {
        self.0.write_bound(len)
    }

    open spec fn may_fault_on_limit(&self) -> bool {
        self.0.may_fault_on_limit()
    }

    fn perform_read(&mut self, buf: &mut Vec<u8>, len: usize) -> (r: Result<usize, ReadFault>) {
        self.0.perform_read(buf, len)
    }
}

/// The strict limiting reader: reads succeed only while the bytes produced
/// stay within the configured limit; an overrun fails the read.
pub struct LimitReaderFallible<R: Readable> {
    pub reader: R,
    pub limit: u64,
    pub reader_count: usize,
}

impl<R: Readable> LimitReaderFallible<R> {
    /// Wrap `r`, allowing at most `limit` bytes to be read.
    pub fn new(r: R, limit: u64) -> (s: Self)
        ensures
            s.reader == r,
            s.limit == limit,
            s.reader_count == 0,
    {
        Self { reader: r, limit, reader_count: 0 }
    }

    /// One bounded read of at most `len` bytes into `buf[0..len]`.
    ///
    /// The source is asked for at most one byte more than the limit, so a
    /// source that would produce `limit + 1` or more bytes in this call is
    /// caught: the read fails with [`ReadFault::TooManyBytes`] and the
    /// reader's state is left unchanged. A fault of the source is handed on
    /// as it came, with no accounting. On success the limit shrinks by the
    /// bytes produced — it never grows — and the diagnostic read counter
    /// steps up by one.
    pub fn read(&mut self, buf: &mut Vec<u8>, len: usize) -> (r: Result<usize, ReadFault>)
        requires
            len <= old(buf)@.len(),
        ensures
            final(buf)@.len() == old(buf)@.len(),
            forall|i: int| len <= i < final(buf)@.len() ==> final(buf)@[i] == old(buf)@[i],
            forall|i: int|
                old(self).write_bound(len as nat) <= i < final(buf)@.len() ==> final(buf)@[i]
                    == old(buf)@[i],
            final(self).limit <= old(self).limit,
            (r matches Ok(n) ==> n <= len && n as u64 <= old(self).limit
                && final(self).limit == old(self).limit - n as u64
                && final(self).reader_count == saturating_inc(old(self).reader_count)),
            (r matches Err(f) ==> final(self).limit == old(self).limit
                && final(self).reader_count == old(self).reader_count),
            (match old(self).outcome(len as nat) {
                Some(Ok(bytes)) => r matches Ok(n) && n == bytes.len()
                    && final(buf)@.subrange(0, n as int) == bytes
                    && (forall|i: int| n <= i < final(buf)@.len() ==> final(buf)@[i] == old(buf)@[i]),
                Some(Err(msg)) => r matches Err(f) && fault_detail(f) == msg,
                None => true,
            }),
    {
        let cap: usize = if (len as u64) <= self.limit {
            len
        } else {
            (self.limit + 1) as usize
        };
        match self.reader.perform_read(buf, cap) {
            Ok(n) => {
                if (n as u64) > self.limit {
                    Err(ReadFault::TooManyBytes)
                } else {
                    self.limit = self.limit - (n as u64);
                    if self.reader_count < usize::MAX {
                        self.reader_count = self.reader_count + 1;
                    }
                    Ok(n)
                }
            },
            Err(f) => Err(f),
        }
    }
}

impl<R: Readable> Readable for LimitReaderFallible<R> {
    open spec fn outcome(&self, len: nat) -> Option<Result<Seq<u8>, Seq<char>>> {
        match self.reader.outcome(strict_request(len, self.limit as nat)) {
            Some(Ok(bytes)) => if bytes.len() <= self.limit {
                Some(Ok(bytes))
            } else {
                Some(Err("too many bytes"@))
            },
            Some(Err(msg)) => Some(Err(msg)),
            None => None,
        }
    }

    open spec fn read_bound(&self, len: nat) -> nat {
        min_nat(len, self.limit as nat)
    }

    open spec fn write_bound(&self, len: nat) -> nat {
        self.reader.write_bound(strict_request(len, self.limit as nat))
    }

    open spec fn may_fault_on_limit(&self) -> bool {
        true
    }

    fn perform_read(&mut self, buf: &mut Vec<u8>, len: usize) -> (r: Result<usize, ReadFault>) {
        self.read(buf, len)
    }
}

/// The truncating limiting reader: every request is capped at the limit, so
/// the limit itself never fails a read; the limit is only compared against,
/// never consumed.
pub struct LimitReaderInfallible<R: Readable> {
    pub reader: R,
    pub limit: u64,
    pub reader_count: usize,
}

impl<R: Readable> LimitReaderInfallible<R> {
    /// Wrap `r`, capping every read at `limit` bytes.
    pub fn new(r: R, limit: u64) -> (s: Self)
        ensures
            s.reader == r,
            s.limit == limit,
            s.reader_count == 0,
    {
        Self { reader: r, limit, reader_count: 0 }
    }

    /// One bounded read of at most `min(limit, len)` bytes into the prefix
    /// of `buf`. The cap is applied silently: an oversized request is
    /// truncated, never failed, and a fault of the source is handed on as
    /// it came. On success the diagnostic read counter steps up by one.
    pub fn read(&mut self, buf: &mut Vec<u8>, len: usize) -> (r: Result<usize, ReadFault>)
        requires
            len <= old(buf)@.len(),
        ensures
            final(buf)@.len() == old(buf)@.len(),
            forall|i: int| len <= i < final(buf)@.len() ==> final(buf)@[i] == old(buf)@[i],
            forall|i: int|
                old(self).write_bound(len as nat) <= i < final(buf)@.len() ==> final(buf)@[i]
                    == old(buf)@[i],
            final(self).limit == old(self).limit,
            (r matches Ok(n) ==> n <= len && n as u64 <= old(self).limit
                && final(self).reader_count == saturating_inc(old(self).reader_count)),
            (r matches Err(f) ==> final(self).reader_count == old(self).reader_count),
            !old(self).reader.may_fault_on_limit() ==> !(r matches Err(ReadFault::TooManyBytes)),
            (match old(self).outcome(len as nat) {
                Some(Ok(bytes)) => r matches Ok(n) && n == bytes.len()
                    && final(buf)@.subrange(0, n as int) == bytes
                    && (forall|i: int| n <= i < final(buf)@.len() ==> final(buf)@[i] == old(buf)@[i]),
                Some(Err(msg)) => r matches Err(f) && fault_detail(f) == msg,
                None => true,
            }),
    {
        let eff: usize = if self.limit < (len as u64) {
            self.limit as usize
        } else {
            len
        };
        match self.reader.perform_read(buf, eff) {
            Ok(n) => {
                if self.reader_count < usize::MAX {
                    self.reader_count = self.reader_count + 1;
                }
                Ok(n)
            },
            Err(f) => Err(f),
        }
    }
}

impl<R: Readable> Readable for LimitReaderInfallible<R> {
    open spec fn outcome(&self, len: nat) -> Option<Result<Seq<u8>, Seq<char>>> {
        self.reader.outcome(min_nat(len, self.limit as nat))
    }

    open spec fn read_bound(&self, len: nat) -> nat {
        min_nat(len, self.limit as nat)
    }

    open spec fn write_bound(&self, len: nat) -> nat {
        self.reader.write_bound(min_nat(len, self.limit as nat))
    }

    open spec fn may_fault_on_limit(&self) -> bool {
        self.reader.may_fault_on_limit()
    }

    fn perform_read(&mut self, buf: &mut Vec<u8>, len: usize) -> (r: Result<usize, ReadFault>) {
        self.read(buf, len)
    }
}

/// The strict policy, for every source and every limit: wrapping a source
/// in [`LimitReaderFallible`] turns its outcome at the constrained request
/// into — produced bytes within the limit, passed through unchanged; more
/// bytes than the limit, the limit failure; a fault of the source, that
/// fault's own message, unchanged. (That the read call realizes the
/// outcome, and what a successful read may report even where no outcome is
/// determined, is [`Readable`]'s contract.)
pub proof fn lemma_strict_policy<R: Readable>(source: R, limit: u64, len: nat)
    ensures
        ({
            let reader = LimitReaderFallible { reader: source, limit, reader_count: 0 };
            &&& reader.outcome(len) == (match source.outcome(strict_request(len, limit as nat)) {
                Some(Ok(bytes)) => if bytes.len() <= limit {
                    Some(Ok(bytes))
                } else {
                    Some(Err("too many bytes"@))
                },
                Some(Err(msg)) => Some(Err(msg)),
                None => None,
            })
            &&& reader.read_bound(len) <= limit
            &&& reader.read_bound(len) <= len
        }),
{
}

/// The truncating policy, for every source and every limit: a successful
/// read of `len` bytes through [`LimitReaderInfallible`] can never report
/// more than the smaller of the limit and `len`; the reader's outcome is
/// its source's at the capped request, faults and all, unchanged; and the
/// reader introduces no limit fault of its own — it fails only as its
/// source does. (That the read call obeys all of this is [`Readable`]'s
/// contract.)
pub proof fn lemma_truncating_policy<R: Readable>(source: R, limit: u64, len: nat)
    ensures
        ({
            let reader = LimitReaderInfallible { reader: source, limit, reader_count: 0 };
            &&& reader.outcome(len) == source.outcome(min_nat(len, limit as nat))
            &&& reader.read_bound(len) <= limit
            &&& reader.read_bound(len) <= len
            &&& reader.may_fault_on_limit() == source.may_fault_on_limit()
        }),
{
}

} // verus!
