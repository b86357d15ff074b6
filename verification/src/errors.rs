//! The client's single error type, the conversions into it, and the way back
//! from an error to the value it wraps.

use crate::subsystems::{classify, into_io_error, parse_category, parse_io_error, ParseCategory};
use vstd::prelude::*;
use vstd::std_specs::convert::{FromSpec, FromSpecImpl};
use vstd::string::*;

verus! {

/// Client errors.
///
/// A variant is either a signal, which says all there is to say by being that
/// variant, or it wraps exactly one value: the error of a subsystem, moved in
/// whole, or a message.
pub enum CoreError {
    /// Could not serialise or deserialise.
    EncodeDecodeError(bincode::Error),
    /// Asymmetric key decryption failed.
    AsymmetricDecipherFailure,
    /// Symmetric key decryption failed.
    SymmetricDecipherFailure,
    /// Received unexpected data.
    ReceivedUnexpectedData,
    /// Received unexpected event.
    ReceivedUnexpectedEvent,
    /// No such data found in local version cache.
    VersionCacheMiss,
    /// Cannot overwrite a root directory if it already exists.
    RootDirectoryExists,
    /// Unable to obtain generator for random data.
    RandomDataGenerationFailure,
    /// Forbidden operation.
    OperationForbidden,
    /// Unexpected, probably a logic error. Only this client's own code makes
    /// one, from a message; no subsystem's error converts into it.
    Unexpected(String),
    /// Error related to the data types.
    DataError(safe_nd::Error),
    /// Unable to pack into or operate with size of salt.
    UnsupportedSaltSizeForPwHash,
    /// Unable to complete computation for password hashing, usually because
    /// the OS refused to allocate the amount of requested memory.
    UnsuccessfulPwHash,
    /// Blocking operation was cancelled.
    OperationAborted,
    /// Error while self-encrypting data.
    SelfEncryption(self_encryption::Error),
    /// The request has timed out.
    RequestTimeout,
    /// Configuration file error.
    ConfigError(serde_json::Error),
    /// I/O error.
    IoError(std::io::Error),
    /// Transport error.
    QuicP2p(quic_p2p::QuicP2pError),
}

/// What a `CoreError` is, with the message of `Unexpected` as a sequence of
/// characters. The wrapped errors of the subsystems stand for themselves.
pub enum CoreErrorView {
    EncodeDecodeError(bincode::Error),
    AsymmetricDecipherFailure,
    SymmetricDecipherFailure,
    ReceivedUnexpectedData,
    ReceivedUnexpectedEvent,
    VersionCacheMiss,
    RootDirectoryExists,
    RandomDataGenerationFailure,
    OperationForbidden,
    Unexpected(Seq<char>),
    DataError(safe_nd::Error),
    UnsupportedSaltSizeForPwHash,
    UnsuccessfulPwHash,
    OperationAborted,
    SelfEncryption(self_encryption::Error),
    RequestTimeout,
    ConfigError(serde_json::Error),
    IoError(std::io::Error),
    QuicP2p(quic_p2p::QuicP2pError),
}

impl View for CoreError {
    type V = CoreErrorView;

    open spec fn view(&self) -> CoreErrorView {
        match self {
            CoreError::EncodeDecodeError(error) => CoreErrorView::EncodeDecodeError(*error),
            CoreError::AsymmetricDecipherFailure => CoreErrorView::AsymmetricDecipherFailure,
            CoreError::SymmetricDecipherFailure => CoreErrorView::SymmetricDecipherFailure,
            CoreError::ReceivedUnexpectedData => CoreErrorView::ReceivedUnexpectedData,
            CoreError::ReceivedUnexpectedEvent => CoreErrorView::ReceivedUnexpectedEvent,
            CoreError::VersionCacheMiss => CoreErrorView::VersionCacheMiss,
            CoreError::RootDirectoryExists => CoreErrorView::RootDirectoryExists,
            CoreError::RandomDataGenerationFailure => CoreErrorView::RandomDataGenerationFailure,
            CoreError::OperationForbidden => CoreErrorView::OperationForbidden,
            CoreError::Unexpected(message) => CoreErrorView::Unexpected(message@),
            CoreError::DataError(error) => CoreErrorView::DataError(*error),
            CoreError::UnsupportedSaltSizeForPwHash => CoreErrorView::UnsupportedSaltSizeForPwHash,
            CoreError::UnsuccessfulPwHash => CoreErrorView::UnsuccessfulPwHash,
            CoreError::OperationAborted => CoreErrorView::OperationAborted,
            CoreError::SelfEncryption(error) => CoreErrorView::SelfEncryption(*error),
            CoreError::RequestTimeout => CoreErrorView::RequestTimeout,
            CoreError::ConfigError(error) => CoreErrorView::ConfigError(*error),
            CoreError::IoError(error) => CoreErrorView::IoError(*error),
            CoreError::QuicP2p(error) => CoreErrorView::QuicP2p(*error),
        }
    }
}

/// The value that an error wraps, borrowed from it.
#[derive(Clone, Copy)]
pub enum Cause<'a> {
    /// The serialization codec's error.
    Serialisation(&'a bincode::Error),
    /// The message of a logic error.
    Message(&'a String),
    /// The data layer's error.
    Data(&'a safe_nd::Error),
    /// The self-encryption algorithm's error.
    SelfEncryption(&'a self_encryption::Error),
    /// The configuration parser's error.
    Config(&'a serde_json::Error),
    /// The I/O error.
    Io(&'a std::io::Error),
    /// The transport layer's error.
    Transport(&'a quic_p2p::QuicP2pError),
}

/// The message of the error that a failed send on a channel converts into.
pub open spec fn channel_failure_message(description: Seq<char>) -> Seq<char> {
    "Couldn't send message to the channel: "@ + description
}

/// Whether `converted` is what the failed send `error` converts into: a logic
/// error whose message ends in the text that `error` displays as.
pub open spec fn is_channel_failure(
    error: futures::channel::mpsc::SendError,
    converted: CoreError,
) -> bool {
    exists|description: String|
        #[trigger] to_string_from_display_ensures::<futures::channel::mpsc::SendError>(
            &error,
            description,
        ) && converted@ == CoreErrorView::Unexpected(channel_failure_message(description@))
}

/// The error that a parse error of the given category converts into: one that
/// failed on I/O becomes an I/O error, every other a configuration error that
/// keeps the parse error as it is.
pub open spec fn classified(category: ParseCategory, error: serde_json::Error) -> CoreError {
    match category {
        ParseCategory::Io => CoreError::IoError(parse_io_error(error)),
        ParseCategory::Syntax => CoreError::ConfigError(error),
        ParseCategory::Data => CoreError::ConfigError(error),
        ParseCategory::Eof => CoreError::ConfigError(error),
    }
}

impl CoreError {
    /// Whether the variant is a signal, that is wraps nothing.
    pub open spec fn is_signal(&self) -> bool {
        self.wrapped() is None
    }

    /// The value that the error wraps; a signal wraps none.
    pub open spec fn wrapped(&self) -> Option<Cause<'_>> {
        match self {
            CoreError::EncodeDecodeError(error) => Some(Cause::Serialisation(error)),
            CoreError::AsymmetricDecipherFailure => None,
            CoreError::SymmetricDecipherFailure => None,
            CoreError::ReceivedUnexpectedData => None,
            CoreError::ReceivedUnexpectedEvent => None,
            CoreError::VersionCacheMiss => None,
            CoreError::RootDirectoryExists => None,
            CoreError::RandomDataGenerationFailure => None,
            CoreError::OperationForbidden => None,
            CoreError::Unexpected(message) => Some(Cause::Message(message)),
            CoreError::DataError(error) => Some(Cause::Data(error)),
            CoreError::UnsupportedSaltSizeForPwHash => None,
            CoreError::UnsuccessfulPwHash => None,
            CoreError::OperationAborted => None,
            CoreError::SelfEncryption(error) => Some(Cause::SelfEncryption(error)),
            CoreError::RequestTimeout => None,
            CoreError::ConfigError(error) => Some(Cause::Config(error)),
            CoreError::IoError(error) => Some(Cause::Io(error)),
            CoreError::QuicP2p(error) => Some(Cause::Transport(error)),
        }
    }

    /// The cause of the error: the value it wraps, or `None` for a signal.
    pub fn cause(&self) -> (cause: Option<Cause<'_>>)
        ensures
            cause == self.wrapped(),
    {
        match self {
            CoreError::EncodeDecodeError(error) => Some(Cause::Serialisation(error)),
            CoreError::AsymmetricDecipherFailure => None,
            CoreError::SymmetricDecipherFailure => None,
            CoreError::ReceivedUnexpectedData => None,
            CoreError::ReceivedUnexpectedEvent => None,
            CoreError::VersionCacheMiss => None,
            CoreError::RootDirectoryExists => None,
            CoreError::RandomDataGenerationFailure => None,
            CoreError::OperationForbidden => None,
            CoreError::Unexpected(message) => Some(Cause::Message(message)),
            CoreError::DataError(error) => Some(Cause::Data(error)),
            CoreError::UnsupportedSaltSizeForPwHash => None,
            CoreError::UnsuccessfulPwHash => None,
            CoreError::OperationAborted => None,
            CoreError::SelfEncryption(error) => Some(Cause::SelfEncryption(error)),
            CoreError::RequestTimeout => None,
            CoreError::ConfigError(error) => Some(Cause::Config(error)),
            CoreError::IoError(error) => Some(Cause::Io(error)),
            CoreError::QuicP2p(error) => Some(Cause::Transport(error)),
        }
    }

    /// The error for a failed send on a channel, from the failure's own
    /// description.
    pub fn channel_failure(description: &str) -> (error: CoreError)
        ensures
            error@ == CoreErrorView::Unexpected(channel_failure_message(description@)),
    {
        let message = String::from_str("Couldn't send message to the channel: ").concat(
            description,
        );
        CoreError::Unexpected(message)
    }

    /// The error for a parse error whose category is already known.
    pub fn from_classified(
        category: ParseCategory,
        error: serde_json::Error,
    ) -> (converted: CoreError)
        ensures
            converted == classified(category, error),
            category == ParseCategory::Io <==> converted is IoError,
            category != ParseCategory::Io <==> converted == CoreError::ConfigError(error),
    {
        match category {
            ParseCategory::Io => CoreError::IoError(into_io_error(error)),
            ParseCategory::Syntax => CoreError::ConfigError(error),
            ParseCategory::Data => CoreError::ConfigError(error),
            ParseCategory::Eof => CoreError::ConfigError(error),
        }
    }
}

impl<'a> From<&'a str> for CoreError {
    fn from(error: &'a str) -> (converted: Self)
        ensures
            converted@ == CoreErrorView::Unexpected(error@),
    {
        CoreError::Unexpected(error.to_owned())
    }
}

/// The conversion allocates the message, so `from` states its result through
/// the view.
impl<'a> FromSpecImpl<&'a str> for CoreError {
    open spec fn obeys_from_spec() -> bool {
        false
    }

    open spec fn from_spec(error: &'a str) -> Self {
        choose|converted: CoreError| converted@ == CoreErrorView::Unexpected(error@)
    }
}

impl From<String> for CoreError {
    fn from(error: String) -> (converted: Self)
        ensures
            converted == CoreError::Unexpected(error),
    {
        CoreError::Unexpected(error)
    }
}

impl FromSpecImpl<String> for CoreError {
    open spec fn obeys_from_spec() -> bool {
        true
    }

    open spec fn from_spec(error: String) -> Self {
        CoreError::Unexpected(error)
    }
}

impl From<futures::channel::mpsc::SendError> for CoreError {
    fn from(error: futures::channel::mpsc::SendError) -> (converted: Self)
        ensures
            is_channel_failure(error, converted),
    {
        let description = error.to_string();
        CoreError::channel_failure(description.as_str())
    }
}

/// The conversion formats the failure, so `from` states its result through
/// the view.
impl FromSpecImpl<futures::channel::mpsc::SendError> for CoreError {
    open spec fn obeys_from_spec() -> bool {
        false
    }

    open spec fn from_spec(error: futures::channel::mpsc::SendError) -> Self {
        choose|converted: CoreError| is_channel_failure(error, converted)
    }
}

impl From<bincode::Error> for CoreError {
    fn from(error: bincode::Error) -> (converted: Self)
        ensures
            converted == CoreError::EncodeDecodeError(error),
    {
        CoreError::EncodeDecodeError(error)
    }
}

impl FromSpecImpl<bincode::Error> for CoreError {
    open spec fn obeys_from_spec() -> bool {
        true
    }

    open spec fn from_spec(error: bincode::Error) -> Self {
        CoreError::EncodeDecodeError(error)
    }
}

impl From<safe_nd::Error> for CoreError {
    fn from(error: safe_nd::Error) -> (converted: Self)
        ensures
            converted == CoreError::DataError(error),
    {
        CoreError::DataError(error)
    }
}

impl FromSpecImpl<safe_nd::Error> for CoreError {
    open spec fn obeys_from_spec() -> bool {
        true
    }

    open spec fn from_spec(error: safe_nd::Error) -> Self {
        CoreError::DataError(error)
    }
}

impl From<std::sync::mpsc::RecvError> for CoreError {
    fn from(error: std::sync::mpsc::RecvError) -> (converted: Self)
        ensures
            converted == CoreError::OperationAborted,
    {
        CoreError::OperationAborted
    }
}

impl FromSpecImpl<std::sync::mpsc::RecvError> for CoreError {
    open spec fn obeys_from_spec() -> bool {
        true
    }

    open spec fn from_spec(error: std::sync::mpsc::RecvError) -> Self {
        CoreError::OperationAborted
    }
}

impl From<self_encryption::Error> for CoreError {
    fn from(error: self_encryption::Error) -> (converted: Self)
        ensures
            converted == CoreError::SelfEncryption(error),
    {
        CoreError::SelfEncryption(error)
    }
}

impl FromSpecImpl<self_encryption::Error> for CoreError {
    open spec fn obeys_from_spec() -> bool {
        true
    }

    open spec fn from_spec(error: self_encryption::Error) -> Self {
        CoreError::SelfEncryption(error)
    }
}

impl From<std::io::Error> for CoreError {
    fn from(error: std::io::Error) -> (converted: Self)
        ensures
            converted == CoreError::IoError(error),
    {
        CoreError::IoError(error)
    }
}

impl FromSpecImpl<std::io::Error> for CoreError {
    open spec fn obeys_from_spec() -> bool {
        true
    }

    open spec fn from_spec(error: std::io::Error) -> Self {
        CoreError::IoError(error)
    }
}

impl From<quic_p2p::QuicP2pError> for CoreError {
    fn from(error: quic_p2p::QuicP2pError) -> (converted: Self)
        ensures
            converted == CoreError::QuicP2p(error),
    {
        CoreError::QuicP2p(error)
    }
}

impl FromSpecImpl<quic_p2p::QuicP2pError> for CoreError {
    open spec fn obeys_from_spec() -> bool {
        true
    }

    open spec fn from_spec(error: quic_p2p::QuicP2pError) -> Self {
        CoreError::QuicP2p(error)
    }
}

/// The one conversion that looks into the error it converts: the parse error's
/// own category decides between an I/O error and a configuration error.
impl From<serde_json::Error> for CoreError {
    fn from(error: serde_json::Error) -> (converted: Self)
        ensures
            converted == classified(parse_category(error), error),
    {
        let category = classify(&error);
        CoreError::from_classified(category, error)
    }
}

impl FromSpecImpl<serde_json::Error> for CoreError {
    open spec fn obeys_from_spec() -> bool {
        true
    }

    open spec fn from_spec(error: serde_json::Error) -> Self {
        classified(parse_category(error), error)
    }
}

/// Converting a subsystem's error and reading the cause back gives the error
/// that went in, whichever subsystem it came from.
pub proof fn conversion_keeps_the_cause(
    serialisation: bincode::Error,
    data: safe_nd::Error,
    self_encryption: self_encryption::Error,
    io: std::io::Error,
    transport: quic_p2p::QuicP2pError,
    parse: serde_json::Error,
)
    ensures
        <CoreError as FromSpec<bincode::Error>>::from_spec(serialisation).wrapped() == Some(
            Cause::Serialisation(&serialisation),
        ),
        <CoreError as FromSpec<safe_nd::Error>>::from_spec(data).wrapped() == Some(
            Cause::Data(&data),
        ),
        <CoreError as FromSpec<self_encryption::Error>>::from_spec(self_encryption).wrapped()
            == Some(Cause::SelfEncryption(&self_encryption)),
        <CoreError as FromSpec<std::io::Error>>::from_spec(io).wrapped() == Some(Cause::Io(&io)),
        <CoreError as FromSpec<quic_p2p::QuicP2pError>>::from_spec(transport).wrapped() == Some(
            Cause::Transport(&transport),
        ),
        parse_category(parse) != ParseCategory::Io ==> <CoreError as FromSpec<
            serde_json::Error,
        >>::from_spec(parse).wrapped() == Some(Cause::Config(&parse)),
        parse_category(parse) == ParseCategory::Io ==> <CoreError as FromSpec<
            serde_json::Error,
        >>::from_spec(parse).wrapped() == Some(Cause::Io(&parse_io_error(parse))),
{
}

/// `Unexpected` is for the client's own messages: no error of the codec, the
/// data layer, the self-encryption, the I/O layer, the transport or the parser
/// converts into it, nor does a failed receive.
pub proof fn subsystem_error_is_never_unexpected(
    serialisation: bincode::Error,
    data: safe_nd::Error,
    self_encryption: self_encryption::Error,
    io: std::io::Error,
    transport: quic_p2p::QuicP2pError,
    parse: serde_json::Error,
    receive: std::sync::mpsc::RecvError,
)
    ensures
        !(<CoreError as FromSpec<bincode::Error>>::from_spec(serialisation) is Unexpected),
        !(<CoreError as FromSpec<safe_nd::Error>>::from_spec(data) is Unexpected),
        !(<CoreError as FromSpec<self_encryption::Error>>::from_spec(self_encryption)
            is Unexpected),
        !(<CoreError as FromSpec<std::io::Error>>::from_spec(io) is Unexpected),
        !(<CoreError as FromSpec<quic_p2p::QuicP2pError>>::from_spec(transport) is Unexpected),
        !(<CoreError as FromSpec<serde_json::Error>>::from_spec(parse) is Unexpected),
        !(<CoreError as FromSpec<std::sync::mpsc::RecvError>>::from_spec(receive) is Unexpected),
{
}

/// A parse error's category alone decides the variant it converts into,
/// whatever else the error holds.
pub proof fn classification_goes_by_category(category: ParseCategory, error: serde_json::Error)
    ensures
        category == ParseCategory::Io ==> classified(category, error) is IoError,
        category == ParseCategory::Syntax || category == ParseCategory::Data || category
            == ParseCategory::Eof ==> classified(category, error) == CoreError::ConfigError(error),
{
}

/// A failed blocking receive converts into `OperationAborted`, and a signal
/// has no cause.
pub proof fn receive_failure_is_abort(error: std::sync::mpsc::RecvError)
    ensures
        <CoreError as FromSpec<std::sync::mpsc::RecvError>>::from_spec(error)
            == CoreError::OperationAborted,
        CoreError::OperationAborted.is_signal(),
{
}

} // verus!
