//! Translation between the engine's status words and host errors.
//!
//! A status word is a `u32`: zero for success, anything else for a failure.
//! The tables that relate status words to OS error numbers, to host I/O
//! errors and to messages belong to the engine's error library, which is
//! called here and not restated.

use vstd::prelude::*;

verus! {

/// The status word of a successful call.
pub const NO_ERROR: u32 = 0;

/// The status word that stands for an invalid argument.
pub const INVALID_ARGUMENT: u32 = 0x8030;

/// Trusted: `std::io::Error`, carried through as an opaque value.
#[verifier::external_type_specification]
#[verifier::external_body]
pub struct ExIoError(std::io::Error);

/// A status word of the engine.
#[derive(Clone, Copy, Debug, PartialEq, Eq, Hash, Structural)]
pub struct Error {
    raw: u32,
}

impl View for Error {
    type V = u32;

    closed spec fn view(&self) -> u32 {
        self.raw
    }
}

impl Error {
    /// Wraps a status word.
    pub fn new(raw: u32) -> (e: Error)
        ensures
            e@ == raw,
    {
        Error { raw }
    }

    /// The status word as the engine gave it.
    pub fn raw(&self) -> (raw: u32)
        ensures
            raw == self@,
    {
        self.raw
    }

    /// The message: the error library's description, then ` (gpg error N)` with the code.
    pub fn to_string(&self) -> (text: String)
        ensures
            code_note(code_of(self@)).is_suffix_of(text@),
    {
        self.message()
    }

    /// The error for an invalid argument, with no reporting component.
    ///
    /// Trusted: reads `gpg_error::Error::EINVAL`, which that crate defines as
    /// the system-error bit `1 << 15` joined with 48.
    #[verifier::external_body]
    pub(crate) fn invalid_argument() -> (e: Error)
        ensures
            e@ == INVALID_ARGUMENT,
    {
        Error { raw: gpg_error::Error::EINVAL.raw() }
    }

    /// The error that stands for the calling thread's last OS error.
    ///
    /// Trusted: calls `gpg_error::Error::last_os_error`. The result follows
    /// the thread's error register, so nothing is claimed of it.
    #[verifier::external_body]
    pub(crate) fn last_os_error() -> Error {
        Error { raw: gpg_error::Error::last_os_error().raw() }
    }

    /// The error that stands for a host I/O error.
    ///
    /// Trusted: calls `gpg_error::Error::from` on the I/O error. That
    /// conversion hands back an engine error carried inside `err` if there is
    /// one, and otherwise picks a code by the error's kind, with a general
    /// I/O failure for the kinds it does not list. `err` is opaque here, so
    /// nothing is claimed of the result.
    #[verifier::external_body]
    pub(crate) fn from_io_error(err: std::io::Error) -> Error {
        Error { raw: gpg_error::Error::from(err).raw() }
    }

    /// The host I/O error that carries this error.
    ///
    /// Trusted: calls `std::io::Error::from` on the matching
    /// `gpg_error::Error`. The result is opaque here.
    #[verifier::external_body]
    pub(crate) fn into_io_error(self) -> std::io::Error {
        std::io::Error::from(gpg_error::Error::new(self.raw))
    }

    /// The OS error number that this error stands for.
    ///
    /// Trusted: calls `gpg_error::Error::to_errno`. The numbers are those of
    /// the machine's C library, so nothing is claimed of the result.
    #[verifier::external_body]
    pub(crate) fn to_errno(&self) -> libc::c_int {
        gpg_error::Error::new(self.raw).to_errno()
    }

    /// A message for this error.
    ///
    /// Trusted: formats the matching `gpg_error::Error` with its `Display`,
    /// which writes the library's description of the error, then
    /// ` (gpg error `, the error's code as a decimal number, and `)`. The
    /// description follows the error library's tables and the locale, so
    /// only the end of the text is claimed.
    #[verifier::external_body]
    pub(crate) fn message(&self) -> (text: String)
        ensures
            code_note(code_of(self@)).is_suffix_of(text@),
    {
        gpg_error::Error::new(self.raw).to_string()
    }
}

/// Turns the status word of a native call into a result: the word for
/// success gives `Ok`, every other word comes back as the error.
pub fn check(status: u32) -> (r: Result<(), Error>)
    ensures
        status == NO_ERROR ==> r is Ok,
        status != NO_ERROR ==> (r matches Err(e) && e@ == status),
{
    if status == NO_ERROR {
        Ok(())
    } else {
        Err(Error::new(status))
    }
}

/// Mask of the code field of a status word: the kind of failure, without
/// the component that reported it.
pub const CODE_MASK: u32 = 0xffff;

/// The code field of a status word.
pub open spec fn code_of(raw: u32) -> u32 {
    raw & CODE_MASK
}

/// The decimal digits of a number, most significant first, without leading
/// zeros.
pub open spec fn decimal(n: nat) -> Seq<char>
    decreases n,
{
    let digits = seq!['0', '1', '2', '3', '4', '5', '6', '7', '8', '9'];
    if n < 10 {
        seq![digits[n as int]]
    } else {
        decimal(n / 10).push(digits[(n % 10) as int])
    }
}

/// The end of every message: the code of the error, as ` (gpg error N)`.
pub open spec fn code_note(code: u32) -> Seq<char> {
    seq![' ', '(', 'g', 'p', 'g', ' ', 'e', 'r', 'r', 'o', 'r', ' '] + decimal(code as nat)
        + seq![')']
}

} // verus!
