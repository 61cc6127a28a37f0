//! Reading a body that arrives in chunks, up to a limit on its size.

use vstd::prelude::*;
use bytes::BytesMut;
use crate::error::{Error, ErrorKind, ErrorView};
use crate::headers::copy_bytes;

verus! {

/// The most bytes that a body may have: 256 KiB.
pub const MAX_SIZ: usize = 262144;

/// `bytes::BytesMut`, a growable buffer of bytes. Nothing is known of what
/// is inside one but what [`buffer_bytes`] names.
#[verifier::external_type_specification]
#[verifier::external_body]
pub struct ExBytesMut(BytesMut);

/// The bytes that a `BytesMut` holds, in order.
pub uninterp spec fn buffer_bytes(buffer: &BytesMut) -> Seq<u8>;

/// `BytesMut::new`: the buffer that it returns holds no bytes.
#[verifier::external_body]
fn buffer_new() -> (buffer: BytesMut)
    ensures
        buffer_bytes(&buffer) == Seq::<u8>::empty(),
{
    BytesMut::new()
}

/// `BytesMut::len`: the number of bytes that the buffer holds.
#[verifier::external_body]
fn buffer_len(buffer: &BytesMut) -> (len: usize)
    ensures
        len == buffer_bytes(buffer).len(),
{
    buffer.len()
}

/// `BytesMut::extend_from_slice`: the buffer then holds the bytes that it
/// held, followed by those of `extend`. It reserves room for them first and
/// panics where the new capacity overflows, so the sum of the lengths is
/// required to stay within what a buffer can hold.
#[verifier::external_body]
fn buffer_extend(buffer: &mut BytesMut, extend: &[u8])
    requires
        buffer_bytes(old(buffer)).len() + extend@.len() <= isize::MAX,
    ensures
        buffer_bytes(final(buffer)) == buffer_bytes(old(buffer)) + extend@,
{
    buffer.extend_from_slice(extend)
}

/// `AsRef<[u8]>` of `BytesMut`: the bytes that the buffer holds, as a slice.
#[verifier::external_body]
fn buffer_as_slice(buffer: &BytesMut) -> (bytes: &[u8])
    ensures
        bytes@ == buffer_bytes(buffer),
{
    buffer.as_ref()
}

/// The error for a body that is too large.
pub open spec fn overflow() -> ErrorView {
    ErrorView { kind: ErrorKind::BadRequest, message: "overflow"@ }
}

/// The part of a body that has arrived. It never holds more than
/// [`MAX_SIZ`] bytes.
pub struct Payload {
    buffer: BytesMut,
}

impl View for Payload {
    type V = Seq<u8>;

    /// The bytes that have arrived, in order.
    closed spec fn view(&self) -> Seq<u8> {
        buffer_bytes(&self.buffer)
    }
}

impl Payload {
    #[verifier::type_invariant]
    spec fn within_limit(self) -> bool {
        buffer_bytes(&self.buffer).len() <= MAX_SIZ
    }

    /// A body of which nothing has arrived.
    pub fn new() -> (payload: Payload)
        ensures
            payload@ == Seq::<u8>::empty(),
    {
        Payload { buffer: buffer_new() }
    }

    /// The number of bytes that have arrived.
    pub fn len(&self) -> (len: usize)
        ensures
            len == self@.len(),
            len <= MAX_SIZ,
    {
        proof {
            use_type_invariant(self);
        }
        buffer_len(&self.buffer)
    }

    /// Takes the next chunk of the body. A chunk that would bring the body
    /// over [`MAX_SIZ`] bytes is refused with a [`ErrorKind::BadRequest`]
    /// error, and the body stays as it was.
    pub fn push_chunk(&mut self, chunk: &[u8]) -> (result: Result<(), Error>)
        ensures
            match result {
                Ok(()) => old(self)@.len() + chunk@.len() <= MAX_SIZ && final(self)@ == old(self)@
                    + chunk@,
                Err(error) => old(self)@.len() + chunk@.len() > MAX_SIZ && final(self)@ == old(
                    self,
                )@ && error@ == overflow(),
            },
    {
        let len = self.len();
        if chunk.len() > MAX_SIZ - len {
            return Err(Error::new(ErrorKind::BadRequest, "overflow"));
        }
        let mut buffer = buffer_new();
        core::mem::swap(&mut self.buffer, &mut buffer);
        buffer_extend(&mut buffer, chunk);
        core::mem::swap(&mut self.buffer, &mut buffer);
        Ok(())
    }

    /// The bytes that have arrived.
    pub fn as_slice(&self) -> (bytes: &[u8])
        ensures
            bytes@ == self@,
            bytes@.len() <= MAX_SIZ,
    {
        proof {
            use_type_invariant(self);
        }
        buffer_as_slice(&self.buffer)
    }
}

/// The chunks before place `n`, one after the other.
pub open spec fn joined(chunks: Seq<Vec<u8>>, n: int) -> Seq<u8>
    decreases n,
{
    if n <= 0 {
        Seq::empty()
    } else {
        joined(chunks, n - 1) + chunks[n - 1]@
    }
}

/// The whole body that arrives as `chunks`.
pub open spec fn whole(chunks: Seq<Vec<u8>>) -> Seq<u8> {
    joined(chunks, chunks.len() as int)
}

/// More chunks make a body that is no shorter.
pub proof fn lemma_joined_grows(chunks: Seq<Vec<u8>>, m: int, n: int)
    requires
        m <= n,
    ensures
        joined(chunks, m).len() <= joined(chunks, n).len(),
    decreases n - m,
{
    if m < n {
        lemma_joined_grows(chunks, m, n - 1);
    }
}

/// Reads the body that arrives as `chunks`: the chunks one after the other,
/// where that is no more than [`MAX_SIZ`] bytes; else the
/// [`ErrorKind::BadRequest`] error for a body that is too large.
pub fn read_body(chunks: &Vec<Vec<u8>>) -> (result: Result<Vec<u8>, Error>)
    ensures
        match result {
            Ok(body) => body@ == whole(chunks@) && body@.len() <= MAX_SIZ,
            Err(error) => whole(chunks@).len() > MAX_SIZ && error@ == overflow(),
        },
{
    let mut body = Payload::new();
    let mut i: usize = 0;
    while i < chunks.len()
        invariant
            i <= chunks.len(),
            body@ == joined(chunks@, i as int),
        decreases chunks.len() - i,
    {
        match body.push_chunk(chunks[i].as_slice()) {
            Ok(()) => {},
            Err(error) => {
                proof {
                    lemma_joined_grows(chunks@, i + 1, chunks@.len() as int);
                }
                return Err(error);
            },
        }
        i += 1;
    }
    Ok(copy_bytes(body.as_slice()))
}

} // verus!
