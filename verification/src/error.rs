//! The two tiers of error: `ParseErr` for parsing, `Error` for the whole library.
use crate::causes::{parse_int_error_eq, utf8_error_eq};
use core::num::ParseIntError;
use core::str::Utf8Error;
use std::io;
use std::sync::mpsc::RecvTimeoutError;
use vstd::prelude::*;
use vstd::std_specs::cmp::PartialEqSpec;
use vstd::std_specs::convert::FromSpec;

verus! {

/// Why a piece of bytes or text could not be parsed.
#[derive(Debug)]
pub enum ParseErr {
    Utf8(Utf8Error),
    Int(ParseIntError),
    StatusErr,
    HeadersErr,
    UriErr,
    Invalid,
    Empty,
}

/// What a `ParseErr` was made from: the failure it wraps.
#[derive(Debug)]
pub enum ParseCause<'a> {
    Utf8(&'a Utf8Error),
    Int(&'a ParseIntError),
}

impl ParseErr {
    /// True of the variants that wrap no lower-level failure.
    pub open spec fn is_structural(&self) -> bool {
        !(self is Utf8) && !(self is Int)
    }

    /// True when both values are the same variant, whatever they wrap.
    pub open spec fn same_variant(&self, other: &ParseErr) -> bool {
        match (self, other) {
            (ParseErr::Utf8(_), ParseErr::Utf8(_)) => true,
            (ParseErr::Int(_), ParseErr::Int(_)) => true,
            (ParseErr::StatusErr, ParseErr::StatusErr) => true,
            (ParseErr::HeadersErr, ParseErr::HeadersErr) => true,
            (ParseErr::UriErr, ParseErr::UriErr) => true,
            (ParseErr::Invalid, ParseErr::Invalid) => true,
            (ParseErr::Empty, ParseErr::Empty) => true,
            _ => false,
        }
    }

    /// The fixed phrase of the variant, without the tag.
    pub open spec fn phrase(&self) -> Seq<char> {
        match self {
            ParseErr::Utf8(_) => "invalid character"@,
            ParseErr::Int(_) => "cannot parse number"@,
            ParseErr::Invalid => "invalid value"@,
            ParseErr::Empty => "nothing to parse"@,
            ParseErr::StatusErr => "status line contains invalid values"@,
            ParseErr::HeadersErr => "headers contain invalid values"@,
            ParseErr::UriErr => "uri contains invalid characters"@,
        }
    }

    /// The text shown for the error: the tag, then the variant's phrase. It
    /// never depends on the wrapped failure.
    pub open spec fn display(&self) -> Seq<char> {
        "ParseErr: "@ + self.phrase()
    }

    /// The wrapped failure, if the variant has one.
    pub open spec fn cause(&self) -> Option<ParseCause<'_>> {
        match self {
            ParseErr::Utf8(e) => Some(ParseCause::Utf8(e)),
            ParseErr::Int(e) => Some(ParseCause::Int(e)),
            _ => None,
        }
    }

    /// The lower-level failure behind this error, or `None` for a structural
    /// variant.
    pub fn source(&self) -> (cause: Option<ParseCause<'_>>)
        ensures
            cause == self.cause(),
            cause is None <==> self.is_structural(),
    {
        match self {
            ParseErr::Utf8(e) => Some(ParseCause::Utf8(e)),
            ParseErr::Int(e) => Some(ParseCause::Int(e)),
            ParseErr::StatusErr
            | ParseErr::HeadersErr
            | ParseErr::UriErr
            | ParseErr::Invalid
            | ParseErr::Empty => None,
        }
    }

    /// Renders the error as one short line.
    pub fn to_string(&self) -> (text: String)
        ensures
            text@ == self.display(),
    {
        let err = match self {
            ParseErr::Utf8(_) => "invalid character",
            ParseErr::Int(_) => "cannot parse number",
            ParseErr::Invalid => "invalid value",
            ParseErr::Empty => "nothing to parse",
            ParseErr::StatusErr => "status line contains invalid values",
            ParseErr::HeadersErr => "headers contain invalid values",
            ParseErr::UriErr => "uri contains invalid characters",
        };
        let mut text = String::from_str("ParseErr: ");
        text.append(err);
        text
    }
}

impl PartialEq for ParseErr {
    fn eq(&self, other: &Self) -> (same: bool) {
        match (self, other) {
            (ParseErr::Utf8(a), ParseErr::Utf8(b)) => utf8_error_eq(a, b),
            (ParseErr::Int(a), ParseErr::Int(b)) => parse_int_error_eq(a, b),
            (ParseErr::StatusErr, ParseErr::StatusErr) => true,
            (ParseErr::HeadersErr, ParseErr::HeadersErr) => true,
            (ParseErr::UriErr, ParseErr::UriErr) => true,
            (ParseErr::Invalid, ParseErr::Invalid) => true,
            (ParseErr::Empty, ParseErr::Empty) => true,
            _ => false,
        }
    }
}

impl vstd::std_specs::cmp::PartialEqSpecImpl for ParseErr {
    open spec fn obeys_eq_spec() -> bool {
        true
    }

    open spec fn eq_spec(&self, other: &Self) -> bool {
        *self == *other
    }
}

impl From<ParseIntError> for ParseErr {
    fn from(e: ParseIntError) -> (err: Self) {
        ParseErr::Int(e)
    }
}

impl vstd::std_specs::convert::FromSpecImpl<ParseIntError> for ParseErr {
    open spec fn obeys_from_spec() -> bool {
        true
    }

    open spec fn from_spec(e: ParseIntError) -> Self {
        ParseErr::Int(e)
    }
}

impl From<Utf8Error> for ParseErr {
    fn from(e: Utf8Error) -> (err: Self) {
        ParseErr::Utf8(e)
    }
}

impl vstd::std_specs::convert::FromSpecImpl<Utf8Error> for ParseErr {
    open spec fn obeys_from_spec() -> bool {
        true
    }

    open spec fn from_spec(e: Utf8Error) -> Self {
        ParseErr::Utf8(e)
    }
}

/// Why an operation of the library failed.
#[derive(Debug)]
pub enum Error {
    IO(io::Error),
    Parse(ParseErr),
    Timeout(RecvTimeoutError),
    Tls,
}

/// What an `Error` was made from: the failure it wraps.
#[derive(Debug)]
pub enum ErrorCause<'a> {
    IO(&'a io::Error),
    Parse(&'a ParseErr),
    Timeout(&'a RecvTimeoutError),
}

impl Error {
    /// The text shown for the error. A parse failure is shown as the
    /// `ParseErr` shows itself, with no tag added; the other variants show the
    /// tag and a fixed phrase.
    pub open spec fn display(&self) -> Seq<char> {
        match self {
            Error::IO(_) => "Error: "@ + "IO error"@,
            Error::Parse(p) => p.display(),
            Error::Timeout(_) => "Error: "@ + "Timeout error"@,
            Error::Tls => "Error: "@ + "TLS error"@,
        }
    }

    /// The wrapped failure; a TLS failure keeps none.
    pub open spec fn cause(&self) -> Option<ErrorCause<'_>> {
        match self {
            Error::IO(e) => Some(ErrorCause::IO(e)),
            Error::Parse(e) => Some(ErrorCause::Parse(e)),
            Error::Timeout(e) => Some(ErrorCause::Timeout(e)),
            Error::Tls => None,
        }
    }

    /// The error for a failure of the transport-security layer, whichever
    /// backend reported it. The backend's own diagnostic is dropped, so that no
    /// backend type shows in the library's errors.
    pub fn tls<E>(_cause: E) -> (err: Error)
        ensures
            err == Error::Tls,
    {
        Error::Tls
    }

    /// The lower-level failure behind this error, or `None` for `Tls`.
    pub fn source(&self) -> (cause: Option<ErrorCause<'_>>)
        ensures
            cause == self.cause(),
            cause is None <==> self is Tls,
    {
        match self {
            Error::IO(e) => Some(ErrorCause::IO(e)),
            Error::Parse(e) => Some(ErrorCause::Parse(e)),
            Error::Timeout(e) => Some(ErrorCause::Timeout(e)),
            Error::Tls => None,
        }
    }

    /// Renders the error as one short line.
    pub fn to_string(&self) -> (text: String)
        ensures
            text@ == self.display(),
    {
        let err = match self {
            Error::IO(_) => "IO error",
            Error::Parse(p) => {
                return p.to_string();
            },
            Error::Timeout(_) => "Timeout error",
            Error::Tls => "TLS error",
        };
        let mut text = String::from_str("Error: ");
        text.append(err);
        text
    }
}

impl From<io::Error> for Error {
    fn from(e: io::Error) -> (err: Self) {
        Error::IO(e)
    }
}

impl vstd::std_specs::convert::FromSpecImpl<io::Error> for Error {
    open spec fn obeys_from_spec() -> bool {
        true
    }

    open spec fn from_spec(e: io::Error) -> Self {
        Error::IO(e)
    }
}

impl From<ParseErr> for Error {
    fn from(e: ParseErr) -> (err: Self) {
        Error::Parse(e)
    }
}

impl vstd::std_specs::convert::FromSpecImpl<ParseErr> for Error {
    open spec fn obeys_from_spec() -> bool {
        true
    }

    open spec fn from_spec(e: ParseErr) -> Self {
        Error::Parse(e)
    }
}

impl From<Utf8Error> for Error {
    fn from(e: Utf8Error) -> (err: Self) {
        Error::Parse(ParseErr::Utf8(e))
    }
}

impl vstd::std_specs::convert::FromSpecImpl<Utf8Error> for Error {
    open spec fn obeys_from_spec() -> bool {
        true
    }

    open spec fn from_spec(e: Utf8Error) -> Self {
        Error::Parse(ParseErr::Utf8(e))
    }
}

impl From<RecvTimeoutError> for Error {
    fn from(e: RecvTimeoutError) -> (err: Self) {
        Error::Timeout(e)
    }
}

impl vstd::std_specs::convert::FromSpecImpl<RecvTimeoutError> for Error {
    open spec fn obeys_from_spec() -> bool {
        true
    }

    open spec fn from_spec(e: RecvTimeoutError) -> Self {
        Error::Timeout(e)
    }
}

impl<T> From<native_tls::HandshakeError<T>> for Error {
    fn from(e: native_tls::HandshakeError<T>) -> (err: Self) {
        Error::tls(e)
    }
}

impl<T> vstd::std_specs::convert::FromSpecImpl<native_tls::HandshakeError<T>> for Error {
    open spec fn obeys_from_spec() -> bool {
        true
    }

    open spec fn from_spec(_e: native_tls::HandshakeError<T>) -> Self {
        Error::Tls
    }
}

/// A decoding failure becomes `ParseErr::Utf8`, and that becomes
/// `Error::Parse`; each step keeps what it was given as its cause, so the
/// chain of causes ends in the failure itself.
pub proof fn lemma_utf8_chain(e: Utf8Error)
    ensures
        ParseErr::from_spec(e) == ParseErr::Utf8(e),
        Error::from_spec(ParseErr::from_spec(e)) == Error::Parse(ParseErr::Utf8(e)),
        Error::from_spec(ParseErr::from_spec(e)).cause() == Some(
            ErrorCause::Parse(&ParseErr::Utf8(e)),
        ),
        ParseErr::Utf8(e).cause() == Some(ParseCause::Utf8(&e)),
{
}

/// An integer-parsing failure becomes `ParseErr::Int`, and that becomes
/// `Error::Parse`; each step keeps what it was given as its cause, so the
/// chain of causes ends in the failure itself.
pub proof fn lemma_int_chain(e: ParseIntError)
    ensures
        ParseErr::from_spec(e) == ParseErr::Int(e),
        Error::from_spec(ParseErr::from_spec(e)) == Error::Parse(ParseErr::Int(e)),
        Error::from_spec(ParseErr::from_spec(e)).cause() == Some(
            ErrorCause::Parse(&ParseErr::Int(e)),
        ),
        ParseErr::Int(e).cause() == Some(ParseCause::Int(&e)),
{
}

/// Converting a decoding failure straight into `Error` gives the same value
/// as wrapping it in `ParseErr::Utf8` first and converting that.
pub proof fn lemma_utf8_shortcut(e: Utf8Error)
    ensures
        Error::from_spec(e) == Error::from_spec(ParseErr::Utf8(e)),
        Error::from_spec(e) == Error::from_spec(ParseErr::from_spec(e)),
{
}

/// Two `ParseErr` values are equal exactly when they are the same variant
/// and, where the variant wraps a failure, wrap equal failures. Two values of
/// one structural variant are therefore always equal.
pub proof fn lemma_eq_is_structural(a: ParseErr, b: ParseErr)
    ensures
        a.eq_spec(&b) <==> a.same_variant(&b) && a.cause() == b.cause(),
        a.is_structural() && a.same_variant(&b) ==> a.eq_spec(&b),
{
}

/// Whatever the transport-security layer reported, the error made from it is
/// `Tls`: it shows as "Error: TLS error" and has no cause.
pub proof fn lemma_tls_is_opaque<T>(e: native_tls::HandshakeError<T>)
    ensures
        Error::from_spec(e) == Error::Tls,
        Error::Tls.display() == "Error: TLS error"@,
        Error::Tls.cause() is None,
{
    reveal_strlit("Error: ");
    reveal_strlit("TLS error");
    reveal_strlit("Error: TLS error");
    assert("Error: "@ + "TLS error"@ =~= "Error: TLS error"@);
}

/// A parse failure inside `Error` is shown exactly as the `ParseErr` shows
/// itself: no second tag is put in front.
pub proof fn lemma_parse_display_delegates(p: ParseErr)
    ensures
        Error::Parse(p).display() == p.display(),
        Error::from_spec(p).display() == p.display(),
{
}

/// The whole line that each `ParseErr` shows.
pub proof fn lemma_parse_err_display(p: ParseErr)
    ensures
        p is Utf8 ==> p.display() == "ParseErr: invalid character"@,
        p is Int ==> p.display() == "ParseErr: cannot parse number"@,
        p is Invalid ==> p.display() == "ParseErr: invalid value"@,
        p is Empty ==> p.display() == "ParseErr: nothing to parse"@,
        p is StatusErr ==> p.display() == "ParseErr: status line contains invalid values"@,
        p is HeadersErr ==> p.display() == "ParseErr: headers contain invalid values"@,
        p is UriErr ==> p.display() == "ParseErr: uri contains invalid characters"@,
{
    reveal_strlit("ParseErr: ");
    match p {
        ParseErr::Utf8(_) => {
            reveal_strlit("invalid character");
            reveal_strlit("ParseErr: invalid character");
            assert(p.display() =~= "ParseErr: invalid character"@);
        },
        ParseErr::Int(_) => {
            reveal_strlit("cannot parse number");
            reveal_strlit("ParseErr: cannot parse number");
            assert(p.display() =~= "ParseErr: cannot parse number"@);
        },
        ParseErr::Invalid => {
            reveal_strlit("invalid value");
            reveal_strlit("ParseErr: invalid value");
            assert(p.display() =~= "ParseErr: invalid value"@);
        },
        ParseErr::Empty => {
            reveal_strlit("nothing to parse");
            reveal_strlit("ParseErr: nothing to parse");
            assert(p.display() =~= "ParseErr: nothing to parse"@);
        },
        ParseErr::StatusErr => {
            reveal_strlit("status line contains invalid values");
            reveal_strlit("ParseErr: status line contains invalid values");
            assert(p.display() =~= "ParseErr: status line contains invalid values"@);
        },
        ParseErr::HeadersErr => {
            reveal_strlit("headers contain invalid values");
            reveal_strlit("ParseErr: headers contain invalid values");
            assert(p.display() =~= "ParseErr: headers contain invalid values"@);
        },
        ParseErr::UriErr => {
            reveal_strlit("uri contains invalid characters");
            reveal_strlit("ParseErr: uri contains invalid characters");
            assert(p.display() =~= "ParseErr: uri contains invalid characters"@);
        },
    }
}

/// The whole line that each `Error` other than a parse failure shows,
/// whatever failure it wraps.
pub proof fn lemma_error_display(e: Error)
    ensures
        e is IO ==> e.display() == "Error: IO error"@,
        e is Timeout ==> e.display() == "Error: Timeout error"@,
        e is Tls ==> e.display() == "Error: TLS error"@,
{
    reveal_strlit("Error: ");
    match e {
        Error::IO(_) => {
            reveal_strlit("IO error");
            reveal_strlit("Error: IO error");
            assert(e.display() =~= "Error: IO error"@);
        },
        Error::Timeout(_) => {
            reveal_strlit("Timeout error");
            reveal_strlit("Error: Timeout error");
            assert(e.display() =~= "Error: Timeout error"@);
        },
        Error::Tls => {
            reveal_strlit("TLS error");
            reveal_strlit("Error: TLS error");
            assert(e.display() =~= "Error: TLS error"@);
        },
        Error::Parse(_) => {},
    }
}

/// A timeout of a blocking wait becomes `Error::Timeout`, whose cause is that
/// timeout; an I/O failure likewise becomes `Error::IO`.
pub proof fn lemma_wrapped_cause_is_kept(t: RecvTimeoutError, i: io::Error)
    ensures
        Error::from_spec(t) == Error::Timeout(t),
        Error::from_spec(t).cause() == Some(ErrorCause::Timeout(&t)),
        Error::from_spec(i) == Error::IO(i),
        Error::from_spec(i).cause() == Some(ErrorCause::IO(&i)),
{
}

} // verus!
