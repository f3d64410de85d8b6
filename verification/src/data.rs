//! The data object: the owner of one native handle, and the stream results
//! that the engine's transfers are turned into.

use vstd::prelude::*;
use crate::callbacks::{CallbackWrapper, Callbacks};
use crate::error::{check, code_note, code_of, Error, NO_ERROR};

verus! {

/// The origin code for an offset from the start.
pub const WHENCE_START: libc::c_int = 0;

/// The origin code for an offset from the current position.
pub const WHENCE_CURRENT: libc::c_int = 1;

/// The origin code for an offset from the end.
pub const WHENCE_END: libc::c_int = 2;

/// Where a seek starts from, and how far it goes.
#[derive(Clone, Copy, Debug, PartialEq, Eq, Structural)]
pub enum SeekFrom {
    /// An offset from the start of the data.
    Start(u64),
    /// An offset from the end of the data.
    End(i64),
    /// An offset from the current position.
    Current(i64),
}

/// Trusted: reads `libc::SEEK_SET`, which is 0 on every target of that crate.
#[verifier::external_body]
pub(crate) fn seek_set() -> (whence: libc::c_int)
    ensures
        whence == WHENCE_START,
{
    libc::SEEK_SET
}

/// Trusted: reads `libc::SEEK_CUR`, which is 1 on every target of that crate.
#[verifier::external_body]
pub(crate) fn seek_cur() -> (whence: libc::c_int)
    ensures
        whence == WHENCE_CURRENT,
{
    libc::SEEK_CUR
}

/// Trusted: reads `libc::SEEK_END`, which is 2 on every target of that crate.
#[verifier::external_body]
pub(crate) fn seek_end() -> (whence: libc::c_int)
    ensures
        whence == WHENCE_END,
{
    libc::SEEK_END
}

impl SeekFrom {
    /// The offset and origin code that stand for this request in a native
    /// seek. An offset from the start is reinterpreted as a signed number.
    pub open spec fn native(self) -> (libc::off_t, libc::c_int) {
        match self {
            SeekFrom::Start(off) => (off as libc::off_t, WHENCE_START),
            SeekFrom::End(off) => (off, WHENCE_END),
            SeekFrom::Current(off) => (off, WHENCE_CURRENT),
        }
    }

    /// The request that an offset and an origin code stand for, if the code
    /// is one of the three origins. An offset from the start is
    /// reinterpreted as an unsigned number.
    pub open spec fn of_native(offset: libc::off_t, whence: libc::c_int) -> Option<SeekFrom> {
        if whence == WHENCE_START {
            Some(SeekFrom::Start(offset as u64))
        } else if whence == WHENCE_END {
            Some(SeekFrom::End(offset))
        } else if whence == WHENCE_CURRENT {
            Some(SeekFrom::Current(offset))
        } else {
            None
        }
    }

    /// Encodes the request for a native seek.
    pub fn to_native(self) -> (r: (libc::off_t, libc::c_int))
        ensures
            r == self.native(),
    {
        match self {
            SeekFrom::Start(off) => (off as libc::off_t, seek_set()),
            SeekFrom::End(off) => (off, seek_end()),
            SeekFrom::Current(off) => (off, seek_cur()),
        }
    }

    /// Decodes the arguments of a native seek; `None` for an origin code
    /// that is none of start, end and current.
    pub fn from_native(offset: libc::off_t, whence: libc::c_int) -> (r: Option<SeekFrom>)
        ensures
            r == SeekFrom::of_native(offset, whence),
    {
        if whence == seek_set() {
            Some(SeekFrom::Start(offset as u64))
        } else if whence == seek_end() {
            Some(SeekFrom::End(offset))
        } else if whence == seek_cur() {
            Some(SeekFrom::Current(offset))
        } else {
            None
        }
    }
}

/// Decoding undoes encoding, and encoding undoes decoding: a request that
/// goes through its native form comes back unchanged, and so do an offset
/// and an origin code that stand for a request.
pub proof fn lemma_native_round_trip(pos: SeekFrom, offset: libc::off_t, whence: libc::c_int)
    ensures
        SeekFrom::of_native(pos.native().0, pos.native().1) == Some(pos),
        SeekFrom::of_native(offset, whence) matches Some(decoded) ==> decoded.native() == (
            offset,
            whence,
        ),
{
    match pos {
        SeekFrom::Start(off) => {
            assert(((off as i64) as u64) == off) by (bit_vector);
        },
        _ => {},
    }
    assert(((offset as u64) as i64) == offset) by (bit_vector);
}

/// How the content of a data object is encoded.
#[derive(Clone, Copy, Debug, PartialEq, Eq, Hash, Structural)]
pub enum Encoding {
    /// Not stated.
    Unspecified,
    /// Raw bytes.
    Binary,
    /// Base64 without armor lines.
    Base64,
    /// ASCII armor.
    Armor,
    /// Lines of URLs.
    Url,
    /// Lines of URLs with percent escapes.
    UrlEscaped,
    /// URLs that end in a zero byte.
    Url0,
    /// A MIME message.
    Mime,
    /// A code that this library has no name for.
    Other(u32),
}

impl Encoding {
    /// The engine's code for this encoding.
    pub open spec fn code(self) -> u32 {
        match self {
            Encoding::Unspecified => 0,
            Encoding::Binary => 1,
            Encoding::Base64 => 2,
            Encoding::Armor => 3,
            Encoding::Url => 4,
            Encoding::UrlEscaped => 5,
            Encoding::Url0 => 6,
            Encoding::Mime => 7,
            Encoding::Other(raw) => raw,
        }
    }

    /// The encoding that a code of the engine stands for.
    pub open spec fn of_code(raw: u32) -> Encoding {
        if raw == 0 {
            Encoding::Unspecified
        } else if raw == 1 {
            Encoding::Binary
        } else if raw == 2 {
            Encoding::Base64
        } else if raw == 3 {
            Encoding::Armor
        } else if raw == 4 {
            Encoding::Url
        } else if raw == 5 {
            Encoding::UrlEscaped
        } else if raw == 6 {
            Encoding::Url0
        } else if raw == 7 {
            Encoding::Mime
        } else {
            Encoding::Other(raw)
        }
    }

    /// Whether this value is the one that decoding yields for its code: a
    /// named encoding, or `Other` with a code that has no name.
    pub open spec fn is_canonical(self) -> bool {
        self matches Encoding::Other(raw) ==> raw > 7
    }

    /// Decodes a code of the engine.
    pub fn from_raw(raw: u32) -> (e: Encoding)
        ensures
            e == Encoding::of_code(raw),
    {
        match raw {
            0 => Encoding::Unspecified,
            1 => Encoding::Binary,
            2 => Encoding::Base64,
            3 => Encoding::Armor,
            4 => Encoding::Url,
            5 => Encoding::UrlEscaped,
            6 => Encoding::Url0,
            7 => Encoding::Mime,
            _ => Encoding::Other(raw),
        }
    }

    /// The code to hand to the engine.
    pub fn raw(&self) -> (raw: u32)
        ensures
            raw == self.code(),
    {
        match *self {
            Encoding::Unspecified => 0,
            Encoding::Binary => 1,
            Encoding::Base64 => 2,
            Encoding::Armor => 3,
            Encoding::Url => 4,
            Encoding::UrlEscaped => 5,
            Encoding::Url0 => 6,
            Encoding::Mime => 7,
            Encoding::Other(raw) => raw,
        }
    }
}

/// Every code survives decoding and encoding, and every canonical encoding
/// survives encoding and decoding.
pub proof fn lemma_encoding_round_trip(raw: u32, e: Encoding)
    ensures
        Encoding::of_code(raw).code() == raw,
        Encoding::of_code(raw).is_canonical(),
        e.is_canonical() ==> Encoding::of_code(e.code()) == e,
{
}

/// What the engine takes the content of a data object to be.
#[derive(Clone, Copy, Debug, PartialEq, Eq, Hash, Structural)]
pub enum Type {
    /// Not a kind the engine can work with.
    Invalid,
    /// Nothing the engine recognises.
    Unknown,
    /// An OpenPGP signed message.
    PgpSigned,
    /// An OpenPGP encrypted message.
    PgpEncrypted,
    /// Some other OpenPGP message.
    PgpOther,
    /// An OpenPGP key.
    PgpKey,
    /// A detached OpenPGP signature.
    PgpSignature,
    /// A CMS signed message.
    CmsSigned,
    /// A CMS encrypted message.
    CmsEncrypted,
    /// Some other CMS message.
    CmsOther,
    /// An X.509 certificate.
    X509Cert,
    /// A PKCS#12 container.
    Pkcs12,
    /// A code that this library has no name for.
    Other(u32),
}

impl Type {
    /// The engine's code for this content type.
    pub open spec fn code(self) -> u32 {
        match self {
            Type::Invalid => 0x00,
            Type::Unknown => 0x01,
            Type::PgpSigned => 0x10,
            Type::PgpEncrypted => 0x11,
            Type::PgpOther => 0x12,
            Type::PgpKey => 0x13,
            Type::PgpSignature => 0x18,
            Type::CmsSigned => 0x20,
            Type::CmsEncrypted => 0x21,
            Type::CmsOther => 0x22,
            Type::X509Cert => 0x23,
            Type::Pkcs12 => 0x24,
            Type::Other(raw) => raw,
        }
    }

    /// The content type that a code of the engine stands for.
    pub open spec fn of_code(raw: u32) -> Type {
        if raw == 0x00 {
            Type::Invalid
        } else if raw == 0x01 {
            Type::Unknown
        } else if raw == 0x10 {
            Type::PgpSigned
        } else if raw == 0x11 {
            Type::PgpEncrypted
        } else if raw == 0x12 {
            Type::PgpOther
        } else if raw == 0x13 {
            Type::PgpKey
        } else if raw == 0x18 {
            Type::PgpSignature
        } else if raw == 0x20 {
            Type::CmsSigned
        } else if raw == 0x21 {
            Type::CmsEncrypted
        } else if raw == 0x22 {
            Type::CmsOther
        } else if raw == 0x23 {
            Type::X509Cert
        } else if raw == 0x24 {
            Type::Pkcs12
        } else {
            Type::Other(raw)
        }
    }

    /// Whether this value is the one that decoding yields for its code.
    pub open spec fn is_canonical(self) -> bool {
        self matches Type::Other(raw) ==> Type::of_code(raw) == self
    }

    /// Decodes a code of the engine.
    pub fn from_raw(raw: u32) -> (t: Type)
        ensures
            t == Type::of_code(raw),
    {
        match raw {
            0x00 => Type::Invalid,
            0x01 => Type::Unknown,
            0x10 => Type::PgpSigned,
            0x11 => Type::PgpEncrypted,
            0x12 => Type::PgpOther,
            0x13 => Type::PgpKey,
            0x18 => Type::PgpSignature,
            0x20 => Type::CmsSigned,
            0x21 => Type::CmsEncrypted,
            0x22 => Type::CmsOther,
            0x23 => Type::X509Cert,
            0x24 => Type::Pkcs12,
            _ => Type::Other(raw),
        }
    }

    /// The code as the engine gave it.
    pub fn raw(&self) -> (raw: u32)
        ensures
            raw == self.code(),
    {
        match *self {
            Type::Invalid => 0x00,
            Type::Unknown => 0x01,
            Type::PgpSigned => 0x10,
            Type::PgpEncrypted => 0x11,
            Type::PgpOther => 0x12,
            Type::PgpKey => 0x13,
            Type::PgpSignature => 0x18,
            Type::CmsSigned => 0x20,
            Type::CmsEncrypted => 0x21,
            Type::CmsOther => 0x22,
            Type::X509Cert => 0x23,
            Type::Pkcs12 => 0x24,
            Type::Other(raw) => raw,
        }
    }
}

/// Every code survives decoding and encoding, and every canonical content
/// type survives encoding and decoding.
pub proof fn lemma_type_round_trip(raw: u32, t: Type)
    ensures
        Type::of_code(raw).code() == raw,
        Type::of_code(raw).is_canonical(),
        t.is_canonical() ==> Type::of_code(t.code()) == t,
{
}

/// A failure to build a data object over a resource of the caller, together
/// with that resource.
pub struct WrappedError<S> {
    error: Error,
    inner: S,
}

impl<S> WrappedError<S> {
    /// The error that this value carries.
    pub closed spec fn failure(&self) -> Error {
        self.error
    }

    /// The resource that this value carries.
    pub closed spec fn resource(&self) -> S {
        self.inner
    }

    /// Pairs an error with the resource that the failed call was given.
    pub fn new(error: Error, inner: S) -> (w: WrappedError<S>)
        ensures
            w.failure() == error,
            w.resource() == inner,
    {
        WrappedError { error, inner }
    }

    /// The error.
    pub fn error(&self) -> (e: Error)
        ensures
            e == self.failure(),
    {
        self.error
    }

    /// Gives the resource back to the caller.
    pub fn into_inner(self) -> (inner: S)
        ensures
            inner == self.resource(),
    {
        self.inner
    }

    /// The message of the error: a description, then ` (gpg error N)` with its code.
    pub fn to_string(&self) -> (text: String)
        ensures
            code_note(code_of(self.failure()@)).is_suffix_of(text@),
    {
        self.error.to_string()
    }
}

/// The owner of one native handle. The handle is never null.
#[derive(Debug)]
pub struct Data {
    raw: usize,
}

impl View for Data {
    type V = usize;

    closed spec fn view(&self) -> usize {
        self.raw
    }
}

impl Data {
    #[verifier::type_invariant]
    spec fn holds_handle(self) -> bool {
        self.raw != 0
    }

    /// Takes ownership of a handle that the engine produced.
    pub fn from_raw(raw: usize) -> (data: Data)
        requires
            raw != 0,
        ensures
            data@ == raw,
    {
        Data { raw }
    }

    /// The handle, which stays owned by this object.
    pub fn as_raw(&self) -> (raw: usize)
        ensures
            raw == self@,
            raw != 0,
    {
        proof {
            use_type_invariant(self);
        }
        self.raw
    }

    /// Gives the handle up: releasing it is the caller's business from here.
    pub fn into_raw(self) -> (raw: usize)
        ensures
            raw == self@,
            raw != 0,
    {
        proof {
            use_type_invariant(&self);
        }
        self.raw
    }

    /// The context for a data object that reads from `r`: the read and
    /// release slots are filled.
    pub fn from_reader<R>(r: R) -> (ctx: CallbackWrapper<R>)
        ensures
            ctx.table() == (Callbacks { read: true, write: false, seek: false, release: true }),
            ctx.stream() == r,
    {
        CallbackWrapper::new(Callbacks::new(true, false, false), r)
    }

    /// The context for a data object that reads from `r` and can be
    /// repositioned: the read, seek and release slots are filled.
    pub fn from_seekable_reader<R>(r: R) -> (ctx: CallbackWrapper<R>)
        ensures
            ctx.table() == (Callbacks { read: true, write: false, seek: true, release: true }),
            ctx.stream() == r,
    {
        CallbackWrapper::new(Callbacks::new(true, false, true), r)
    }

    /// The context for a data object that writes to `w`: the write and
    /// release slots are filled.
    pub fn from_writer<W>(w: W) -> (ctx: CallbackWrapper<W>)
        ensures
            ctx.table() == (Callbacks { read: false, write: true, seek: false, release: true }),
            ctx.stream() == w,
    {
        CallbackWrapper::new(Callbacks::new(false, true, false), w)
    }

    /// The context for a data object that writes to `w` and can be
    /// repositioned: the write, seek and release slots are filled.
    pub fn from_seekable_writer<W>(w: W) -> (ctx: CallbackWrapper<W>)
        ensures
            ctx.table() == (Callbacks { read: false, write: true, seek: true, release: true }),
            ctx.stream() == w,
    {
        CallbackWrapper::new(Callbacks::new(false, true, true), w)
    }

    /// The context for a data object that reads from and writes to `s`: the
    /// read, write and release slots are filled.
    pub fn from_stream<S>(s: S) -> (ctx: CallbackWrapper<S>)
        ensures
            ctx.table() == (Callbacks { read: true, write: true, seek: false, release: true }),
            ctx.stream() == s,
    {
        CallbackWrapper::new(Callbacks::new(true, true, false), s)
    }

    /// The context for a data object that reads from and writes to `s` and
    /// can be repositioned: every slot is filled.
    pub fn from_seekable_stream<S>(s: S) -> (ctx: CallbackWrapper<S>)
        ensures
            ctx.table() == (Callbacks { read: true, write: true, seek: true, release: true }),
            ctx.stream() == s,
    {
        CallbackWrapper::new(Callbacks::new(true, true, true), s)
    }

    /// Finishes a construction: given the status word of the native call
    /// that allocates a handle, and the handle it stored, yields the data
    /// object on success and the error otherwise. On failure no object
    /// exists and the stored handle is not looked at.
    pub fn from_status(status: u32, raw: usize) -> (r: Result<Data, Error>)
        requires
            status == NO_ERROR ==> raw != 0,
        ensures
            status == NO_ERROR ==> (r matches Ok(data) && data@ == raw),
            status != NO_ERROR ==> (r matches Err(e) && e@ == status),
    {
        match check(status) {
            Ok(()) => Ok(Data::from_raw(raw)),
            Err(e) => Err(e),
        }
    }
}

/// What the return value of a native read or write says: a count of bytes
/// if it is not negative, a failure otherwise.
pub open spec fn moved(result: libc::ssize_t) -> Option<usize> {
    if result >= 0 {
        Some(result as usize)
    } else {
        None
    }
}

/// What the return value of a native seek says: an absolute position if it
/// is not negative, a failure otherwise.
pub open spec fn reached(result: libc::off_t) -> Option<u64> {
    if result >= 0 {
        Some(result as u64)
    } else {
        None
    }
}

/// The number of bytes that a native read or write moved: the count it
/// returned if that is not negative, and nothing if it reports a failure.
pub fn bytes_moved(result: libc::ssize_t) -> (r: Option<usize>)
    ensures
        r == moved(result),
{
    if result >= 0 {
        Some(result as usize)
    } else {
        None
    }
}

/// The position that a native seek reached: the offset it returned if that
/// is not negative, and nothing if it reports a failure.
pub fn position_reached(result: libc::off_t) -> (r: Option<u64>)
    ensures
        r == reached(result),
{
    if result >= 0 {
        Some(result as u64)
    } else {
        None
    }
}

/// Turns what a native read or write returned into a stream result. A
/// count that is not negative is the number of bytes moved (zero at the end
/// of the data on a read). A negative count is a failure, whose cause is
/// taken from the calling thread's last OS error.
pub fn transfer_result(result: libc::ssize_t) -> (r: Result<usize, std::io::Error>)
    ensures
        moved(result) matches Some(n) ==> r == Ok::<usize, std::io::Error>(n),
        moved(result) is None ==> r is Err,
{
    match bytes_moved(result) {
        Some(n) => Ok(n),
        None => Err(Error::last_os_error().into_io_error()),
    }
}

/// Turns what a native seek returned into a stream result. A position that
/// is not negative is the new absolute position. A negative one is a
/// failure, whose cause is taken from the calling thread's last OS error.
pub fn seek_result(result: libc::off_t) -> (r: Result<u64, std::io::Error>)
    ensures
        reached(result) matches Some(n) ==> r == Ok::<u64, std::io::Error>(n),
        reached(result) is None ==> r is Err,
{
    match position_reached(result) {
        Some(n) => Ok(n),
        None => Err(Error::last_os_error().into_io_error()),
    }
}

} // verus!
