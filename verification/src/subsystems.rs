//! The error types of the collaborating subsystems, and the few calls this
//! crate makes on them.
//!
//! The subsystems' types are opaque here: a value of one can be held, moved
//! and handed back, and no more. The functions that call into a subsystem are
//! taken on trust; each contract restates what the subsystem's own source
//! shows of the call.

use vstd::prelude::*;

verus! {

/// `bincode::ErrorKind`, the serialization codec's error; `bincode::Error` is a
/// box of it.
#[verifier::external_type_specification]
#[verifier::external_body]
pub struct ExSerialisationErrorKind(bincode::ErrorKind);

/// `safe_nd::Error`, the data layer's error.
#[verifier::external_type_specification]
#[verifier::external_body]
pub struct ExDataError(safe_nd::Error);

/// `self_encryption::Error`, the self-encryption algorithm's error.
#[verifier::external_type_specification]
#[verifier::external_body]
pub struct ExSelfEncryptionError(self_encryption::Error);

/// `quic_p2p::QuicP2pError`, the transport layer's error.
#[verifier::external_type_specification]
#[verifier::external_body]
pub struct ExTransportError(quic_p2p::QuicP2pError);

/// `serde_json::Error`, the configuration parser's error.
#[verifier::external_type_specification]
#[verifier::external_body]
pub struct ExParseError(serde_json::Error);

/// `std::io::Error`, the operating system's I/O error.
#[verifier::external_type_specification]
#[verifier::external_body]
pub struct ExIoError(std::io::Error);

/// `futures::channel::mpsc::SendError`, a failed send on an asynchronous
/// channel.
#[verifier::external_type_specification]
#[verifier::external_body]
pub struct ExSendError(futures::channel::mpsc::SendError);

/// `std::sync::mpsc::RecvError`, a failed blocking receive. It carries no
/// detail.
#[verifier::external_type_specification]
#[verifier::external_body]
pub struct ExRecvError(std::sync::mpsc::RecvError);

/// The failure category that a parse error declares for itself.
#[derive(Clone, Copy, Debug, PartialEq, Eq, Structural)]
pub enum ParseCategory {
    /// Bytes could not be read from or written to an I/O stream.
    Io,
    /// The input is not syntactically valid.
    Syntax,
    /// The input is well formed but has the wrong shape.
    Data,
    /// The input ended before the value did.
    Eof,
}

/// The category that `serde_json::Error::classify` reports for `error`.
pub uninterp spec fn parse_category(error: serde_json::Error) -> ParseCategory;

/// The I/O error that `serde_json::Error` converts into.
pub uninterp spec fn parse_io_error(error: serde_json::Error) -> std::io::Error;

/// The text that `{:?}` prints for a string: the string in double quotes, with
/// its special characters escaped.
pub uninterp spec fn quoted(text: Seq<char>) -> Seq<char>;

/// Calls `serde_json::Error::classify` and renames the category it returns.
/// The category is read off the error's code and depends on nothing else.
#[verifier::external_body]
pub(crate) fn classify(error: &serde_json::Error) -> (category: ParseCategory)
    ensures
        category == parse_category(*error),
{
    match error.classify() {
        serde_json::error::Category::Io => ParseCategory::Io,
        serde_json::error::Category::Syntax => ParseCategory::Syntax,
        serde_json::error::Category::Data => ParseCategory::Data,
        serde_json::error::Category::Eof => ParseCategory::Eof,
    }
}

/// Calls `serde_json`'s `From<serde_json::Error> for std::io::Error`. An error
/// of category I/O gives up the I/O error it holds; any other is wrapped in a
/// new one. The conversion never fails.
#[verifier::external_body]
pub(crate) fn into_io_error(error: serde_json::Error) -> (io: std::io::Error)
    ensures
        io == parse_io_error(error),
{
    std::io::Error::from(error)
}

/// Formats a string with `{:?}`, that is with `<str as Debug>::fmt`.
#[verifier::external_body]
pub(crate) fn quote(text: &str) -> (out: String)
    ensures
        out@ == quoted(text@),
{
    format!("{:?}", text)
}

/// Formats a value with `{:?}`, that is with its own `Debug::fmt`. What a
/// subsystem's error prints may quote the operating system, so nothing is
/// stated of the text.
#[verifier::external_body]
pub(crate) fn detail<T: core::fmt::Debug>(value: &T) -> (out: String) {
    format!("{:?}", value)
}

} // verus!
