//! A read/seek adapter that hides a fixed-size leading header of an
//! underlying stream, so that a decoder downstream addresses the remainder
//! from logical position zero.

use vstd::prelude::*;

verus! {

/// A seek request in the adapter's logical addressing scheme.
#[derive(Clone, Copy, Debug, PartialEq, Eq, Structural)]
pub enum SeekSpec {
    /// Absolute position, zero-based in the logical stream.
    Start(u64),
    /// Signed displacement from the current position.
    Current(i64),
    /// Signed displacement from the end of the stream.
    End(i64),
}

/// The logical position reported for an underlying absolute position:
/// positions at or before the hidden header report zero.
pub open spec fn spec_logical(newpos: u64, offset: u64) -> u64 {
    if newpos > offset {
        (newpos - offset) as u64
    } else {
        0
    }
}

/// Map an absolute position of the underlying stream back into the logical
/// addressing scheme; never underflows.
pub fn logical_position(newpos: u64, offset: u64) -> (r: u64)
    ensures
        r == spec_logical(newpos, offset),
        newpos <= offset ==> r == 0,
        newpos > offset ==> r as int == newpos - offset,
{
    if newpos > offset {
        newpos - offset
    } else {
        0
    }
}

/// Declares `std::io::Error` so that faults of the underlying stream can
/// pass through the adapter unchanged.
#[verifier::external_type_specification]
#[verifier::external_body]
pub struct ExIoError(std::io::Error);

/// An I/O fault of the underlying stream, passed through unchanged; the
/// adapter never retries or recovers.
#[derive(Debug)]
pub struct StreamError {
    /// The fault exactly as the underlying stream reported it.
    pub inner: std::io::Error,
}

/// Relies on `std::io::Seek::seek`: on success the returned value is the
/// new position measured from the start of the stream, so a seek to
/// `Start(p)` lands at and returns `p`.
#[verifier::external_body]
fn seek_stream<T: std::io::Seek>(stream: &mut T, pos: SeekSpec) -> (r: Result<
    u64,
    std::io::Error,
>)
    ensures
        (pos matches SeekSpec::Start(p) ==> (r matches Ok(n) ==> n == p)),
{
    let target = match pos {
        SeekSpec::Start(n) => std::io::SeekFrom::Start(n),
        SeekSpec::Current(n) => std::io::SeekFrom::Current(n),
        SeekSpec::End(n) => std::io::SeekFrom::End(n),
    };
    stream.seek(target)
}

/// Relies on `std::io::Read::read`: on success the count of bytes read is
/// at most the buffer's length, and the buffer keeps its length.
#[verifier::external_body]
fn read_stream<T: std::io::Read>(stream: &mut T, buf: &mut Vec<u8>) -> (r: Result<
    usize,
    std::io::Error,
>)
    ensures
        final(buf)@.len() == old(buf)@.len(),
        (r matches Ok(n) ==> n <= old(buf)@.len()),
{
    stream.read(buf.as_mut_slice())
}

/// The underlying target for a logical seek request: absolute requests are
/// shifted past the hidden header, relative requests pass through
/// unchanged.
pub open spec fn spec_translate(pos: SeekSpec, offset: u64) -> SeekSpec
    recommends
        pos matches SeekSpec::Start(p) ==> p + offset <= u64::MAX,
{
    match pos {
        SeekSpec::Start(p) => SeekSpec::Start((p + offset) as u64),
        other => other,
    }
}

/// Translate a logical seek request into the underlying stream's own
/// addressing.
pub fn translate_seek(pos: SeekSpec, offset: u64) -> (r: SeekSpec)
    requires
        pos matches SeekSpec::Start(p) ==> p + offset <= u64::MAX,
    ensures
        r == spec_translate(pos, offset),
{
    match pos {
        SeekSpec::Start(p) => SeekSpec::Start(p + offset),
        other => other,
    }
}

/// An adapter owning one underlying stream and hiding its first `offset`
/// bytes from logical addressing. Callers never observe a negative logical
/// position, and absolute requests are the only ones translated.
pub struct Subfile<T> {
    stream: T,
    offset: u64,
}

impl<T> Subfile<T> {
    /// The size of the hidden leading header, fixed at construction.
    pub closed spec fn offset(&self) -> u64 {
        self.offset
    }

    /// The size of the hidden leading header, for callers that must check a
    /// seek target against it.
    pub fn header_offset(&self) -> (r: u64)
        ensures
            r == self.offset(),
    {
        self.offset
    }
}

impl<T: std::io::Read + std::io::Seek> Subfile<T> {
    /// Take ownership of `stream` and hide its first `offset` bytes: the
    /// stream is seeked to `offset` at once, so reads immediately after
    /// construction need no special-casing. Fails if that first seek
    /// fails; the partly consumed stream is then discarded.
    pub fn new(stream: T, offset: u64) -> (r: Result<Subfile<T>, StreamError>)
        ensures
            (r matches Ok(s) ==> s.offset() == offset),
    {
        let mut stream = stream;
        match seek_stream(&mut stream, SeekSpec::Start(offset)) {
            Ok(_) => Ok(Subfile { stream, offset }),
            Err(e) => Err(StreamError { inner: e }),
        }
    }

    /// Read from the underlying stream at its current position into `buf`.
    /// No translation happens here: the position lives in the underlying
    /// stream. A short read is not an error, and zero bytes read means the
    /// end of the stream.
    pub fn read(&mut self, buf: &mut Vec<u8>) -> (r: Result<usize, StreamError>)
        ensures
            final(self).offset() == old(self).offset(),
            final(buf)@.len() == old(buf)@.len(),
            (r matches Ok(n) ==> n <= old(buf)@.len()),
    {
        match read_stream(&mut self.stream, buf) {
            Ok(n) => Ok(n),
            Err(e) => Err(StreamError { inner: e }),
        }
    }

    /// Seek. An absolute logical request `Start(p)` targets `p + offset`
    /// underneath and, on success, reports `p` back; relative requests pass
    /// through untranslated and their reported position is the underlying
    /// position mapped by `spec_logical`, so a stream landing at or before
    /// the header reports zero rather than underflowing. Underlying faults
    /// pass through unchanged.
    pub fn seek(&mut self, pos: SeekSpec) -> (r: Result<u64, StreamError>)
        requires
            pos matches SeekSpec::Start(p) ==> p + old(self).offset() <= u64::MAX,
        ensures
            final(self).offset() == old(self).offset(),
            (pos matches SeekSpec::Start(p) ==> (r matches Ok(l) ==> l == p)),
            (r matches Ok(l) ==> exists|n: u64| l == spec_logical(n, old(self).offset())),
    {
        let target = translate_seek(pos, self.offset);
        match seek_stream(&mut self.stream, target) {
            Ok(n) => {
                let l = logical_position(n, self.offset);
                proof {
                    assert(l == spec_logical(n, old(self).offset()));
                }
                Ok(l)
            },
            Err(e) => Err(StreamError { inner: e }),
        }
    }
}

/// Law: an absolute logical seek, translated past the header and mapped
/// back, reports exactly the logical position that was requested.
pub proof fn lemma_absolute_seek_round_trip(p: u64, offset: u64)
    requires
        p + offset <= u64::MAX,
    ensures
        spec_translate(SeekSpec::Start(p), offset) == SeekSpec::Start((p + offset) as u64),
        spec_logical((p + offset) as u64, offset) == p,
{
}

/// Law: an absolute seek to logical position zero targets exactly the
/// position the constructor established, and reports zero: issued right
/// after construction it moves nothing.
pub proof fn lemma_seek_zero_is_noop(offset: u64)
    ensures
        spec_translate(SeekSpec::Start(0), offset) == SeekSpec::Start(offset),
        spec_logical(offset, offset) == 0,
{
}

/// Law: relative seek requests are never translated, whatever the offset:
/// the displacement handed to the underlying stream is exactly the one the
/// caller issued.
pub proof fn lemma_relative_seek_untranslated(delta: i64, offset: u64)
    ensures
        spec_translate(SeekSpec::Current(delta), offset) == SeekSpec::Current(delta),
        spec_translate(SeekSpec::End(delta), offset) == SeekSpec::End(delta),
{
}

/// Law: an underlying position at or before the hidden header reports
/// logical zero rather than underflowing.
pub proof fn lemma_header_positions_report_zero(newpos: u64, offset: u64)
    requires
        newpos <= offset,
    ensures
        spec_logical(newpos, offset) == 0,
{
}

} // verus!
