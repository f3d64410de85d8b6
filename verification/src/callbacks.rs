//! The callback bridge: what the engine's four callbacks hand back for a
//! stream object of the caller.
//!
//! The engine calls back with raw buffers, which only unverified code can
//! touch. That code makes the call on the stream object and passes the
//! result here; what comes back is the value to return to the engine and,
//! on a failure, the OS error number to store in the thread's error register
//! before returning.

use vstd::prelude::*;
use crate::data::{moved, reached, SeekFrom, WrappedError};
use crate::error::Error;

verus! {

/// The value that tells the engine that a callback failed.
pub const FAILED: i8 = -1;

/// Which slots of the engine's callback table are filled. The engine never
/// calls through an empty slot.
#[derive(Clone, Copy, Debug, PartialEq, Eq, Structural)]
pub struct Callbacks {
    /// The stream object can be read from.
    pub read: bool,
    /// The stream object can be written to.
    pub write: bool,
    /// The stream object can be repositioned.
    pub seek: bool,
    /// The context is handed back when the engine lets go of the handle.
    pub release: bool,
}

impl Callbacks {
    /// The table for a stream object with the given abilities. Release is
    /// always filled: the context has to be reclaimed whatever the object
    /// can do.
    pub fn new(read: bool, write: bool, seek: bool) -> (cbs: Callbacks)
        ensures
            cbs == (Callbacks { read, write, seek, release: true }),
    {
        Callbacks { read, write, seek, release: true }
    }
}

/// The context of a callback-backed data object: the callback table and the
/// stream object of the caller, kept together so that one address stands for
/// both.
pub struct CallbackWrapper<S> {
    cbs: Callbacks,
    inner: S,
}

impl<S> CallbackWrapper<S> {
    /// The callback table of this context.
    pub closed spec fn table(&self) -> Callbacks {
        self.cbs
    }

    /// The stream object of this context.
    pub closed spec fn stream(&self) -> S {
        self.inner
    }

    /// Pairs a callback table with a stream object.
    pub fn new(cbs: Callbacks, inner: S) -> (w: CallbackWrapper<S>)
        ensures
            w.table() == cbs,
            w.stream() == inner,
    {
        CallbackWrapper { cbs, inner }
    }

    /// The callback table.
    pub fn cbs(&self) -> (cbs: Callbacks)
        ensures
            cbs == self.table(),
    {
        self.cbs
    }

    /// The stream object, for the call that a callback makes on it.
    pub fn inner_mut(&mut self) -> (inner: &mut S)
        ensures
            *inner == old(self).stream(),
            final(self).stream() == *final(inner),
            final(self).table() == old(self).table(),
    {
        &mut self.inner
    }

    /// Takes the context apart after the engine refused to register it: the
    /// stream object goes back to the caller, unchanged, beside the error.
    pub fn into_error(self, error: Error) -> (w: WrappedError<S>)
        ensures
            w.failure() == error,
            w.resource() == self.stream(),
    {
        WrappedError::new(error, self.inner)
    }

    /// Takes the context apart when the engine releases the handle, and
    /// yields the stream object for the caller of this function to drop.
    pub fn release(self) -> (inner: S)
        ensures
            inner == self.stream(),
    {
        self.inner
    }
}

/// What a callback hands back: the value to return to the engine and, on a
/// failure, the OS error number to store before returning.
#[derive(Debug, PartialEq, Eq, Structural)]
pub struct Reply<T> {
    /// The value to return.
    pub value: T,
    /// The OS error number to store in the thread's error register first.
    pub errno: Option<libc::c_int>,
}

/// The reply to a read or write whose call on the stream object gave
/// `result`, with a failure already turned into an OS error number.
pub open spec fn reply_to_transfer(result: Result<usize, libc::c_int>) -> Reply<libc::ssize_t> {
    match result {
        Ok(n) => Reply { value: n as libc::ssize_t, errno: None },
        Err(errno) => Reply { value: FAILED as libc::ssize_t, errno: Some(errno) },
    }
}

/// The reply to a seek whose call on the stream object gave `result`, with
/// a failure already turned into an OS error number.
pub open spec fn reply_to_seek(result: Result<u64, libc::c_int>) -> Reply<libc::off_t> {
    match result {
        Ok(n) => Reply { value: n as libc::off_t, errno: None },
        Err(errno) => Reply { value: FAILED as libc::off_t, errno: Some(errno) },
    }
}

/// Builds the reply to a read or write: the count of bytes on success, and
/// on failure the failure value with the OS error number to store.
pub fn transfer_reply(result: Result<usize, libc::c_int>) -> (reply: Reply<libc::ssize_t>)
    ensures
        reply == reply_to_transfer(result),
{
    match result {
        Ok(n) => Reply { value: n as libc::ssize_t, errno: None },
        Err(errno) => Reply { value: -1, errno: Some(errno) },
    }
}

/// Builds the reply to a seek: the new position on success, and on failure
/// the failure value with the OS error number to store.
pub fn seek_reply(result: Result<u64, libc::c_int>) -> (reply: Reply<libc::off_t>)
    ensures
        reply == reply_to_seek(result),
{
    match result {
        Ok(n) => Reply { value: n as libc::off_t, errno: None },
        Err(errno) => Reply { value: -1, errno: Some(errno) },
    }
}

/// A reply that reports success stores no error number, and one that
/// reports a failure names one: the engine reads the error register right
/// after a failure value. A count or position is taken to fit the signed
/// native type.
pub proof fn lemma_failure_names_errno(
    transfer: Result<usize, libc::c_int>,
    seek: Result<u64, libc::c_int>,
)
    requires
        transfer matches Ok(n) ==> n <= libc::ssize_t::MAX,
        seek matches Ok(n) ==> n <= libc::off_t::MAX,
    ensures
        reply_to_transfer(transfer).value < 0 <==> reply_to_transfer(transfer).errno is Some,
        reply_to_transfer(transfer).value < 0 <==> transfer is Err,
        reply_to_seek(seek).value < 0 <==> reply_to_seek(seek).errno is Some,
        reply_to_seek(seek).value < 0 <==> seek is Err,
{
}

/// What the stream object returned is what the stream facade reports, when
/// the engine hands a callback's value on to the caller of the native
/// transfer: a count or a position arrives unchanged, and a failure arrives
/// as a failure. A count or position is taken to fit the signed native type.
pub proof fn lemma_reply_reaches_facade(
    transfer: Result<usize, libc::c_int>,
    seek: Result<u64, libc::c_int>,
)
    requires
        transfer matches Ok(n) ==> n <= libc::ssize_t::MAX,
        seek matches Ok(n) ==> n <= libc::off_t::MAX,
    ensures
        transfer matches Ok(n) ==> moved(reply_to_transfer(transfer).value) == Some(n),
        transfer is Err ==> moved(reply_to_transfer(transfer).value) is None,
        seek matches Ok(n) ==> reached(reply_to_seek(seek).value) == Some(n),
        seek is Err ==> reached(reply_to_seek(seek).value) is None,
{
}

/// The OS error number that stands for a host I/O error.
fn errno_of(err: std::io::Error) -> libc::c_int {
    Error::from_io_error(err).to_errno()
}

/// The reply of the read callback and of the write callback, from what the
/// call on the stream object returned. The count of bytes goes back as it
/// is; a failure goes back as the failure value, with the OS error number
/// that the error library gives for the I/O error.
pub fn transfer_callback(result: Result<usize, std::io::Error>) -> (reply: Reply<libc::ssize_t>)
    ensures
        result matches Ok(n) ==> reply == reply_to_transfer(Ok(n)),
        result is Err ==> reply.value == FAILED && reply.errno is Some,
{
    match result {
        Ok(n) => transfer_reply(Ok(n)),
        Err(err) => transfer_reply(Err(errno_of(err))),
    }
}

/// The first half of the seek callback: the request to make on the stream
/// object, or, for an origin code that is none of start, end and current, the
/// reply to give at once, without a call on the stream object.
pub fn seek_request(offset: libc::off_t, whence: libc::c_int) -> (r: Result<
    SeekFrom,
    Reply<libc::off_t>,
>)
    ensures
        SeekFrom::of_native(offset, whence) matches Some(pos) ==> r == Ok::<
            SeekFrom,
            Reply<libc::off_t>,
        >(pos),
        SeekFrom::of_native(offset, whence) is None ==> (r matches Err(reply) && reply.value
            == FAILED && reply.errno is Some),
{
    match SeekFrom::from_native(offset, whence) {
        Some(pos) => Ok(pos),
        None => Err(seek_reply(Err(Error::invalid_argument().to_errno()))),
    }
}

/// The second half of the seek callback, from what the call on the stream
/// object returned. The new position goes back as it is; a failure goes back
/// as the failure value, with the OS error number that the error library
/// gives for the I/O error.
pub fn seek_callback(result: Result<u64, std::io::Error>) -> (reply: Reply<libc::off_t>)
    ensures
        result matches Ok(n) ==> reply == reply_to_seek(Ok(n)),
        result is Err ==> reply.value == FAILED && reply.errno is Some,
{
    match result {
        Ok(n) => seek_reply(Ok(n)),
        Err(err) => seek_reply(Err(errno_of(err))),
    }
}

} // verus!
