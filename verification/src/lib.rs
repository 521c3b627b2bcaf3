//! A bounded-read decorator over byte sources.
//!
//! [`LimitReader`] wraps a byte source (optionally a zlib-compressed stream)
//! and enforces a ceiling on the number of bytes a single read may consume,
//! guarding against zip-bombs and other resource-exhaustion tricks. Two
//! limiting policies are available: a strict one that fails a read which
//! would exceed the configured limit, and a truncating one that silently
//! caps consumption at the limit.

use vstd::prelude::*;

pub mod decimal;
pub mod error;
pub mod readable;
pub mod source;

verus! {

use crate::decimal::decimal;
use crate::decimal::u64_to_dec;
use crate::error::Error;
use crate::error::ErrorKind;
use crate::readable::min_nat;
use crate::readable::strict_request;
use crate::readable::LimitReaderFallible;
use crate::readable::LimitReaderInfallible;
use crate::readable::MyBufReader;
use crate::readable::ReadFault;
use crate::readable::Readable;
use crate::source::inflate_outcome;
use crate::source::MemSource;
use crate::source::ZlibSource;
use vstd::string::StringExecFns;

/// Default result type for [`LimitReader`].
pub type LimitReaderResult<T> = Result<T, Error>;

/// Capacity of the destination buffer owned by a [`LimitReader`].
pub const DEFAULT_BUF_SIZE: usize = 1024;

/// Summary of one bounded read: how large the source was and how much of it
/// one read call actually consumed.
#[derive(Clone, Copy, Debug, PartialEq, Eq, Structural)]
pub struct LimitReaderOutput {
    pub source_size: u64,
    pub bytes_read: u64,
}

impl LimitReaderOutput {
    /// Build a summary directly from its two fields.
    pub fn new(source_size: u64, bytes_read: u64) -> (r: Self)
        ensures
            r.source_size == source_size,
            r.bytes_read == bytes_read,
    {
        LimitReaderOutput { source_size, bytes_read }
    }

    /// Bytes read by the underlying reader.
    pub fn bytes_read(&self) -> (r: u64)
        ensures
            r == self.bytes_read,
    {
        self.bytes_read
    }

    /// Size in bytes of the underlying source available to the reader.
    pub fn source_size(&self) -> (r: u64)
        ensures
            r == self.source_size,
    {
        self.source_size
    }

    /// Rendering of the summary, with both counts in decimal.
    pub fn to_string(&self) -> (s: String)
        ensures
            s@ == "{ source_size: "@ + decimal(self.source_size as nat) + ", bytes_read:"@
                + decimal(self.bytes_read as nat) + " }"@,
    {
        let mut s = String::from_str("{ source_size: ");
        s.append(u64_to_dec(self.source_size).as_str());
        s.append(", bytes_read:");
        s.append(u64_to_dec(self.bytes_read).as_str());
        s.append(" }");
        s
    }

    /// Unread bytes of the source: exactly `source_size - bytes_read`
    /// whenever no more was read than the source holds, and zero otherwise
    /// (a decompressed read can outgrow the compressed source's size).
    pub fn bytes_remaining(&self) -> (r: u64)
        ensures
            self.bytes_read <= self.source_size ==> r == self.source_size - self.bytes_read,
            self.bytes_read > self.source_size ==> r == 0,
    {
        if self.bytes_read <= self.source_size {
            self.source_size - self.bytes_read
        } else {
            0
        }
    }
}

/// The bounded-read orchestrator: it owns a fixed-capacity destination
/// buffer and the limit configuration, selects the source (raw bytes or a
/// zlib stream to inflate), drives exactly one bounded read into the buffer,
/// and translates low-level faults into [`Error`].
pub struct LimitReader {
    pub buf: Vec<u8>,
    pub expected_size: u64,
    pub decode_zlib: bool,
    pub decode_gzip: bool,
}

impl LimitReader {
    /// The destination buffer keeps its fixed capacity for the whole life
    /// of the reader.
    pub open spec fn wf(&self) -> bool {
        self.buf@.len() == DEFAULT_BUF_SIZE
    }

    /// A reader with a zeroed buffer of [`DEFAULT_BUF_SIZE`] bytes, a limit
    /// of one byte less than the capacity, and no decoding enabled.
    pub fn new() -> (r: Self)
        ensures
            r.wf(),
            r.expected_size == DEFAULT_BUF_SIZE - 1,
            !r.decode_zlib,
            !r.decode_gzip,
            forall|i: int| 0 <= i < r.buf@.len() ==> r.buf@[i] == 0u8,
    {
        let mut buf: Vec<u8> = Vec::new();
        let mut i: usize = 0;
        while i < DEFAULT_BUF_SIZE
            invariant
                i <= DEFAULT_BUF_SIZE,
                buf@.len() == i,
                forall|j: int| 0 <= j < i ==> buf@[j] == 0u8,
            decreases DEFAULT_BUF_SIZE - i,
        {
            buf.push(0u8);
            i = i + 1;
        }
        LimitReader {
            buf,
            expected_size: (DEFAULT_BUF_SIZE - 1) as u64,
            decode_zlib: false,
            decode_gzip: false,
        }
    }

    /// A read-only view of the destination buffer. Only the prefix up to
    /// the last reported byte count is meaningful; the rest is stale.
    pub fn buffer(&self) -> (r: &Vec<u8>)
        ensures
            r@ == self.buf@,
    {
        &self.buf
    }

    /// Set the limit the next read will enforce.
    pub fn limit(&mut self, limit: u64) -> (ret: &mut Self)
        ensures
            (*ret).expected_size == limit,
            (*ret).buf@ == old(self).buf@,
            (*ret).decode_zlib == old(self).decode_zlib,
            (*ret).decode_gzip == old(self).decode_gzip,
            *final(self) == *final(ret),
    {
        self.expected_size = limit;
        self
    }

    /// Enable inflating the source from compressed zlib.
    pub fn enable_decode_zlib(&mut self) -> (ret: &mut Self)
        ensures
            (*ret).decode_zlib,
            (*ret).buf@ == old(self).buf@,
            (*ret).expected_size == old(self).expected_size,
            (*ret).decode_gzip == old(self).decode_gzip,
            *final(self) == *final(ret),
    {
        self.decode_zlib = true;
        self
    }

    /// Enable inflating the source from compressed gzip. No read path is
    /// wired to this flag yet, so the read operations refuse to run with it
    /// set; it stays private until that changes.
    #[allow(dead_code)]
    fn enable_decode_gzip(&mut self) -> (ret: &mut Self)
        ensures
            (*ret).decode_gzip,
            (*ret).buf@ == old(self).buf@,
            (*ret).expected_size == old(self).expected_size,
            (*ret).decode_zlib == old(self).decode_zlib,
            *final(self) == *final(ret),
    {
        self.decode_gzip = true;
        self
    }

    /// Read from the provided source bytes under the strict policy: the
    /// whole buffer is offered, and a source that would produce more than
    /// the configured limit in this one call fails with "too many bytes".
    /// With zlib decoding enabled the bytes are inflated as they are read:
    /// within the limit, the inflated bytes land in the buffer's prefix and
    /// their count is returned; past it, the read fails with "too many
    /// bytes"; and a malformed stream fails with the inflater's own
    /// message, carried into the error unchanged. Writes stay within the
    /// first `limit + 1` bytes of the buffer in every case.
    pub fn read(&mut self, source: Vec<u8>) -> (r: LimitReaderResult<usize>)
        requires
            old(self).wf(),
            !old(self).decode_gzip,
        ensures
            final(self).wf(),
            final(self).expected_size == old(self).expected_size,
            final(self).decode_zlib == old(self).decode_zlib,
            final(self).decode_gzip == old(self).decode_gzip,
            forall|i: int|
                strict_request(DEFAULT_BUF_SIZE as nat, old(self).expected_size as nat) <= i
                    < final(self).buf@.len() ==> final(self).buf@[i] == old(self).buf@[i],
            (r matches Ok(n) ==> n <= min_nat(
                DEFAULT_BUF_SIZE as nat,
                old(self).expected_size as nat,
            )),
            (r matches Err(e) ==> e.kind == ErrorKind::IoError),
            !old(self).decode_zlib ==> ({
                let lim = old(self).expected_size as nat;
                let n = min_nat(strict_request(DEFAULT_BUF_SIZE as nat, lim), source@.len());
                if n > lim {
                    r matches Err(e) && e.detail@ == "too many bytes"@
                } else {
                    r matches Ok(k) && k == n && final(self).buf@ == source@.take(n as int)
                        + old(self).buf@.skip(n as int)
                }
            }),
            old(self).decode_zlib ==> (match inflate_outcome(
                source@,
                strict_request(DEFAULT_BUF_SIZE as nat, old(self).expected_size as nat),
            ) {
                Ok(bytes) => if bytes.len() > old(self).expected_size {
                    r matches Err(e) && e.detail@ == "too many bytes"@
                } else {
                    r matches Ok(k) && k == bytes.len()
                        && final(self).buf@ == bytes + old(self).buf@.skip(bytes.len() as int)
                },
                Err(msg) => r matches Err(e) && e.kind == ErrorKind::IoError && e.detail@ == msg,
            }),
    {
        if self.decode_zlib {
            let reader = LimitReaderFallible::new(
                MyBufReader(ZlibSource::new(source)),
                self.expected_size,
            );
            let r = self.try_read(reader);
            proof {
                let req = strict_request(DEFAULT_BUF_SIZE as nat, old(self).expected_size as nat);
                if let Ok(bytes) = inflate_outcome(source@, req) {
                    if bytes.len() <= old(self).expected_size {
                        assert(self.buf@ =~= bytes + old(self).buf@.skip(bytes.len() as int));
                    }
                }
            }
            r
        } else {
            let reader = LimitReaderFallible::new(
                MyBufReader(MemSource::new(source)),
                self.expected_size,
            );
            let r = self.try_read(reader);
            proof {
                let lim = old(self).expected_size as nat;
                let n = min_nat(strict_request(DEFAULT_BUF_SIZE as nat, lim), source@.len());
                if n <= lim {
                    assert(self.buf@ =~= source@.take(n as int) + old(self).buf@.skip(n as int));
                }
            }
            r
        }
    }

    /// Read from the provided source bytes under the truncating policy:
    /// consumption is silently capped at the configured limit and the
    /// buffer capacity, and the limit itself never fails the read — with
    /// decoding off a read always succeeds, and with it on a read fails
    /// exactly when the inflater does, carrying its message unchanged. The
    /// outcome pairs the source's size with the bytes actually read; no
    /// outcome is produced on failure. Writes stay within the first
    /// `min(limit, capacity)` bytes of the buffer in every case.
    pub fn read_limited(&mut self, source: Vec<u8>) -> (r: LimitReaderResult<LimitReaderOutput>)
        requires
            old(self).wf(),
            !old(self).decode_gzip,
        ensures
            final(self).wf(),
            final(self).expected_size == old(self).expected_size,
            final(self).decode_zlib == old(self).decode_zlib,
            final(self).decode_gzip == old(self).decode_gzip,
            forall|i: int|
                min_nat(DEFAULT_BUF_SIZE as nat, old(self).expected_size as nat) <= i
                    < final(self).buf@.len() ==> final(self).buf@[i] == old(self).buf@[i],
            (r matches Ok(out) ==> out.bytes_read <= min_nat(
                DEFAULT_BUF_SIZE as nat,
                old(self).expected_size as nat,
            ) && out.source_size == source@.len()),
            (r matches Err(e) ==> e.kind == ErrorKind::IoError),
            !old(self).decode_zlib ==> ({
                let n = min_nat(
                    min_nat(DEFAULT_BUF_SIZE as nat, old(self).expected_size as nat),
                    source@.len(),
                );
                r matches Ok(out) && out.bytes_read == n && out.source_size == source@.len()
                    && final(self).buf@ == source@.take(n as int) + old(self).buf@.skip(n as int)
            }),
            old(self).decode_zlib ==> (match inflate_outcome(
                source@,
                min_nat(DEFAULT_BUF_SIZE as nat, old(self).expected_size as nat),
            ) {
                Ok(bytes) => r matches Ok(out) && out.bytes_read == bytes.len()
                    && out.source_size == source@.len()
                    && final(self).buf@ == bytes + old(self).buf@.skip(bytes.len() as int),
                Err(msg) => r matches Err(e) && e.kind == ErrorKind::IoError && e.detail@ == msg,
            }),
    {
        let source_bytes = source.len() as u64;
        let bytes_read: usize = if self.decode_zlib {
            let reader = LimitReaderInfallible::new(
                MyBufReader(ZlibSource::new(source)),
                self.expected_size,
            );
            let v = match self.try_read(reader) {
                Ok(v) => v,
                Err(e) => {
                    return Err(e);
                },
            };
            proof {
                let req = min_nat(DEFAULT_BUF_SIZE as nat, old(self).expected_size as nat);
                if let Ok(bytes) = inflate_outcome(source@, req) {
                    assert(self.buf@ =~= bytes + old(self).buf@.skip(bytes.len() as int));
                }
            }
            v
        } else {
            let reader = LimitReaderInfallible::new(
                MyBufReader(MemSource::new(source)),
                self.expected_size,
            );
            let v = match self.try_read(reader) {
                Ok(v) => v,
                Err(e) => {
                    return Err(e);
                },
            };
            proof {
                let n = min_nat(
                    min_nat(DEFAULT_BUF_SIZE as nat, old(self).expected_size as nat),
                    source@.len(),
                );
                assert(self.buf@ =~= source@.take(n as int) + old(self).buf@.skip(n as int));
            }
            v
        };
        Ok(LimitReaderOutput::new(source_bytes, bytes_read as u64))
    }

    /// Drive one bounded read of the given limiting reader into the whole
    /// destination buffer, wrapping any fault as an I/O error whose detail
    /// is the fault's own message — the limit overrun's fixed words, or the
    /// source's error text, unchanged.
    fn try_read<T: Readable>(&mut self, reader: T) -> (r: LimitReaderResult<usize>)
        ensures
            final(self).buf@.len() == old(self).buf@.len(),
            final(self).expected_size == old(self).expected_size,
            final(self).decode_zlib == old(self).decode_zlib,
            final(self).decode_gzip == old(self).decode_gzip,
            forall|i: int|
                reader.write_bound(old(self).buf@.len() as nat) <= i < final(self).buf@.len()
                    ==> final(self).buf@[i] == old(self).buf@[i],
            (r matches Ok(n) ==> n <= old(self).buf@.len() && n <= reader.read_bound(
                old(self).buf@.len() as nat,
            )),
            (r matches Err(e) ==> e.kind == ErrorKind::IoError),
            (match reader.outcome(old(self).buf@.len() as nat) {
                Some(Ok(bytes)) => r matches Ok(n) && n == bytes.len()
                    && final(self).buf@.subrange(0, n as int) == bytes
                    && (forall|i: int|
                        n <= i < final(self).buf@.len() ==> final(self).buf@[i] == old(
                            self,
                        ).buf@[i]),
                Some(Err(msg)) => r matches Err(e) && e.kind == ErrorKind::IoError && e.detail@
                    == msg,
                None => true,
            }),
    {
        let mut reader = reader;
        let len = self.buf.len();
        match reader.perform_read(&mut self.buf, len) {
            Ok(value) => Ok(value),
            Err(ReadFault::TooManyBytes) => Err(
                Error::new(ErrorKind::IoError, String::from_str("too many bytes")),
            ),
            Err(ReadFault::Source(m)) => Err(Error::new(ErrorKind::IoError, m)),
        }
    }
}

impl Default for LimitReader {
    /// Same as [`LimitReader::new`]: a zeroed full-capacity buffer, the
    /// default limit, and no decoding enabled.
    fn default() -> (r: Self)
        ensures
            r.wf(),
            r.expected_size == DEFAULT_BUF_SIZE - 1,
            !r.decode_zlib,
            !r.decode_gzip,
            forall|i: int| 0 <= i < r.buf@.len() ==> r.buf@[i] == 0u8,
    {
        Self::new()
    }
}

} // verus!
