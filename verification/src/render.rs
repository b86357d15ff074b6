//! The two renderings of an error: a short sentence for the user, and a
//! detailed line for logs that names the variant.
//!
//! What a subsystem's error prints is that subsystem's business. The
//! renderings are therefore defined for any text in its place, and the
//! functions that print the wrapped error themselves say which text they put
//! there.

use crate::errors::{channel_failure_message, is_channel_failure, CoreError, CoreErrorView};
use crate::subsystems::{detail, quote, quoted};
use vstd::prelude::*;
use vstd::string::*;

verus! {

impl CoreErrorView {
    /// Whether the error wraps the error of a subsystem.
    pub open spec fn wraps_error(self) -> bool {
        match self {
            CoreErrorView::EncodeDecodeError(_) => true,
            CoreErrorView::AsymmetricDecipherFailure => false,
            CoreErrorView::SymmetricDecipherFailure => false,
            CoreErrorView::ReceivedUnexpectedData => false,
            CoreErrorView::ReceivedUnexpectedEvent => false,
            CoreErrorView::VersionCacheMiss => false,
            CoreErrorView::RootDirectoryExists => false,
            CoreErrorView::RandomDataGenerationFailure => false,
            CoreErrorView::OperationForbidden => false,
            CoreErrorView::Unexpected(_) => false,
            CoreErrorView::DataError(_) => true,
            CoreErrorView::UnsupportedSaltSizeForPwHash => false,
            CoreErrorView::UnsuccessfulPwHash => false,
            CoreErrorView::OperationAborted => false,
            CoreErrorView::SelfEncryption(_) => true,
            CoreErrorView::RequestTimeout => false,
            CoreErrorView::ConfigError(_) => true,
            CoreErrorView::IoError(_) => true,
            CoreErrorView::QuicP2p(_) => true,
        }
    }

    /// The words that describe the category to the user. Where the error wraps
    /// something, they lead up to it.
    pub open spec fn sentence(self) -> Seq<char> {
        match self {
            CoreErrorView::EncodeDecodeError(_) => "Error while serialising/deserialising: "@,
            CoreErrorView::AsymmetricDecipherFailure => "Asymmetric decryption failed"@,
            CoreErrorView::SymmetricDecipherFailure => "Symmetric decryption failed"@,
            CoreErrorView::ReceivedUnexpectedData => "Received unexpected data"@,
            CoreErrorView::ReceivedUnexpectedEvent => "Received unexpected event"@,
            CoreErrorView::VersionCacheMiss => "No such data found in local version cache"@,
            CoreErrorView::RootDirectoryExists =>
                "Cannot overwrite a root directory if it already exists"@,
            CoreErrorView::RandomDataGenerationFailure =>
                "Unable to obtain generator for random data"@,
            CoreErrorView::OperationForbidden => "Forbidden operation requested"@,
            CoreErrorView::Unexpected(_) => "Unexpected: "@,
            CoreErrorView::DataError(_) => "Data error -> "@,
            CoreErrorView::UnsupportedSaltSizeForPwHash =>
                "Unable to pack into or operate with size of Salt"@,
            CoreErrorView::UnsuccessfulPwHash =>
                "Unable to complete computation for password hashing"@,
            CoreErrorView::OperationAborted => "Blocking operation was cancelled"@,
            CoreErrorView::SelfEncryption(_) => "Self-encryption error: "@,
            CoreErrorView::RequestTimeout => "RequestTimeout"@,
            CoreErrorView::ConfigError(_) => "Config file error: "@,
            CoreErrorView::IoError(_) => "Io error: "@,
            CoreErrorView::QuicP2p(_) => "QuicP2P error: "@,
        }
    }

    /// The identifier of the variant.
    pub open spec fn name(self) -> Seq<char> {
        match self {
            CoreErrorView::EncodeDecodeError(_) => "CoreError::EncodeDecodeError"@,
            CoreErrorView::AsymmetricDecipherFailure => "CoreError::AsymmetricDecipherFailure"@,
            CoreErrorView::SymmetricDecipherFailure => "CoreError::SymmetricDecipherFailure"@,
            CoreErrorView::ReceivedUnexpectedData => "CoreError::ReceivedUnexpectedData"@,
            CoreErrorView::ReceivedUnexpectedEvent => "CoreError::ReceivedUnexpectedEvent"@,
            CoreErrorView::VersionCacheMiss => "CoreError::VersionCacheMiss"@,
            CoreErrorView::RootDirectoryExists => "CoreError::RootDirectoryExists"@,
            CoreErrorView::RandomDataGenerationFailure =>
                "CoreError::RandomDataGenerationFailure"@,
            CoreErrorView::OperationForbidden => "CoreError::OperationForbidden"@,
            CoreErrorView::Unexpected(_) => "CoreError::Unexpected"@,
            CoreErrorView::DataError(_) => "CoreError::DataError"@,
            CoreErrorView::UnsupportedSaltSizeForPwHash =>
                "CoreError::UnsupportedSaltSizeForPwHash"@,
            CoreErrorView::UnsuccessfulPwHash => "CoreError::UnsuccessfulPwHash"@,
            CoreErrorView::OperationAborted => "CoreError::OperationAborted"@,
            CoreErrorView::SelfEncryption(_) => "CoreError::SelfEncryption"@,
            CoreErrorView::RequestTimeout => "CoreError::RequestTimeout"@,
            CoreErrorView::ConfigError(_) => "CoreError::ConfigError"@,
            CoreErrorView::IoError(_) => "CoreError::IoError"@,
            CoreErrorView::QuicP2p(_) => "CoreError::QuicP2p"@,
        }
    }

    /// The rendering for the user: the sentence, followed by the message of a
    /// logic error, or by `shown` where the error wraps a subsystem's error.
    /// `shown` stands for the text that the wrapped error displays as.
    pub open spec fn display(self, shown: Seq<char>) -> Seq<char> {
        self.sentence() + match self {
            CoreErrorView::Unexpected(message) => message,
            _ => if self.wraps_error() {
                shown
            } else {
                Seq::empty()
            },
        }
    }

    /// What the rendering for logs says after the variant's name: the quoted
    /// message of a logic error in braces, or an arrow and `detail` where the
    /// error wraps a subsystem's error. `detail` stands for the text that the
    /// wrapped error prints for logs.
    pub open spec fn payload_detail(self, detail: Seq<char>) -> Seq<char> {
        match self {
            CoreErrorView::Unexpected(message) => "::{"@ + quoted(message) + "}"@,
            _ => if self.wraps_error() {
                " -> "@ + detail
            } else {
                Seq::empty()
            },
        }
    }

    /// The rendering for logs: the rendering for the user, a dash, the
    /// variant's name, and what the error wraps.
    pub open spec fn debug(self, shown: Seq<char>, detail: Seq<char>) -> Seq<char> {
        self.display(shown) + " - "@ + self.name() + self.payload_detail(detail)
    }
}

impl CoreError {
    /// Whether `shown` is a text that the wrapped error of a subsystem displays
    /// as. Where the error wraps none, any text will do.
    pub open spec fn shows_as(&self, shown: String) -> bool {
        match self {
            CoreError::EncodeDecodeError(error) => to_string_from_display_ensures::<bincode::Error>(
                error,
                shown,
            ),
            CoreError::AsymmetricDecipherFailure => true,
            CoreError::SymmetricDecipherFailure => true,
            CoreError::ReceivedUnexpectedData => true,
            CoreError::ReceivedUnexpectedEvent => true,
            CoreError::VersionCacheMiss => true,
            CoreError::RootDirectoryExists => true,
            CoreError::RandomDataGenerationFailure => true,
            CoreError::OperationForbidden => true,
            CoreError::Unexpected(_) => true,
            CoreError::DataError(error) => to_string_from_display_ensures::<safe_nd::Error>(
                error,
                shown,
            ),
            CoreError::UnsupportedSaltSizeForPwHash => true,
            CoreError::UnsuccessfulPwHash => true,
            CoreError::OperationAborted => true,
            CoreError::SelfEncryption(error) => to_string_from_display_ensures::<
                self_encryption::Error,
            >(error, shown),
            CoreError::RequestTimeout => true,
            CoreError::ConfigError(error) => to_string_from_display_ensures::<serde_json::Error>(
                error,
                shown,
            ),
            CoreError::IoError(error) => to_string_from_display_ensures::<std::io::Error>(
                error,
                shown,
            ),
            CoreError::QuicP2p(error) => to_string_from_display_ensures::<quic_p2p::QuicP2pError>(
                error,
                shown,
            ),
        }
    }

    /// The words that describe the category to the user.
    pub fn sentence(&self) -> (text: &'static str)
        ensures
            text@ == self@.sentence(),
    {
        match self {
            CoreError::EncodeDecodeError(_) => "Error while serialising/deserialising: ",
            CoreError::AsymmetricDecipherFailure => "Asymmetric decryption failed",
            CoreError::SymmetricDecipherFailure => "Symmetric decryption failed",
            CoreError::ReceivedUnexpectedData => "Received unexpected data",
            CoreError::ReceivedUnexpectedEvent => "Received unexpected event",
            CoreError::VersionCacheMiss => "No such data found in local version cache",
            CoreError::RootDirectoryExists =>
                "Cannot overwrite a root directory if it already exists",
            CoreError::RandomDataGenerationFailure => "Unable to obtain generator for random data",
            CoreError::OperationForbidden => "Forbidden operation requested",
            CoreError::Unexpected(_) => "Unexpected: ",
            CoreError::DataError(_) => "Data error -> ",
            CoreError::UnsupportedSaltSizeForPwHash =>
                "Unable to pack into or operate with size of Salt",
            CoreError::UnsuccessfulPwHash => "Unable to complete computation for password hashing",
            CoreError::OperationAborted => "Blocking operation was cancelled",
            CoreError::SelfEncryption(_) => "Self-encryption error: ",
            CoreError::RequestTimeout => "RequestTimeout",
            CoreError::ConfigError(_) => "Config file error: ",
            CoreError::IoError(_) => "Io error: ",
            CoreError::QuicP2p(_) => "QuicP2P error: ",
        }
    }

    /// The identifier of the variant.
    pub fn name(&self) -> (text: &'static str)
        ensures
            text@ == self@.name(),
    {
        match self {
            CoreError::EncodeDecodeError(_) => "CoreError::EncodeDecodeError",
            CoreError::AsymmetricDecipherFailure => "CoreError::AsymmetricDecipherFailure",
            CoreError::SymmetricDecipherFailure => "CoreError::SymmetricDecipherFailure",
            CoreError::ReceivedUnexpectedData => "CoreError::ReceivedUnexpectedData",
            CoreError::ReceivedUnexpectedEvent => "CoreError::ReceivedUnexpectedEvent",
            CoreError::VersionCacheMiss => "CoreError::VersionCacheMiss",
            CoreError::RootDirectoryExists => "CoreError::RootDirectoryExists",
            CoreError::RandomDataGenerationFailure => "CoreError::RandomDataGenerationFailure",
            CoreError::OperationForbidden => "CoreError::OperationForbidden",
            CoreError::Unexpected(_) => "CoreError::Unexpected",
            CoreError::DataError(_) => "CoreError::DataError",
            CoreError::UnsupportedSaltSizeForPwHash => "CoreError::UnsupportedSaltSizeForPwHash",
            CoreError::UnsuccessfulPwHash => "CoreError::UnsuccessfulPwHash",
            CoreError::OperationAborted => "CoreError::OperationAborted",
            CoreError::SelfEncryption(_) => "CoreError::SelfEncryption",
            CoreError::RequestTimeout => "CoreError::RequestTimeout",
            CoreError::ConfigError(_) => "CoreError::ConfigError",
            CoreError::IoError(_) => "CoreError::IoError",
            CoreError::QuicP2p(_) => "CoreError::QuicP2p",
        }
    }

    /// The rendering for the user, with `shown` in the place of what the
    /// wrapped error of a subsystem displays as.
    pub fn display_with(&self, shown: &str) -> (text: String)
        ensures
            text@ == self@.display(shown@),
            text@.len() > 0,
    {
        proof {
            sentence_is_never_empty(self@);
        }
        let lead = String::from_str(self.sentence());
        match self {
            CoreError::EncodeDecodeError(_) => lead.concat(shown),
            CoreError::AsymmetricDecipherFailure => lead,
            CoreError::SymmetricDecipherFailure => lead,
            CoreError::ReceivedUnexpectedData => lead,
            CoreError::ReceivedUnexpectedEvent => lead,
            CoreError::VersionCacheMiss => lead,
            CoreError::RootDirectoryExists => lead,
            CoreError::RandomDataGenerationFailure => lead,
            CoreError::OperationForbidden => lead,
            CoreError::Unexpected(message) => lead.concat(message.as_str()),
            CoreError::DataError(_) => lead.concat(shown),
            CoreError::UnsupportedSaltSizeForPwHash => lead,
            CoreError::UnsuccessfulPwHash => lead,
            CoreError::OperationAborted => lead,
            CoreError::SelfEncryption(_) => lead.concat(shown),
            CoreError::RequestTimeout => lead,
            CoreError::ConfigError(_) => lead.concat(shown),
            CoreError::IoError(_) => lead.concat(shown),
            CoreError::QuicP2p(_) => lead.concat(shown),
        }
    }

    /// The rendering for logs, with `shown` and `detail` in the places of what
    /// the wrapped error of a subsystem displays as and prints for logs.
    pub fn debug_with(&self, shown: &str, detail: &str) -> (text: String)
        ensures
            text@ == self@.debug(shown@, detail@),
            text@.len() > 0,
    {
        let head = self.display_with(shown).concat(" - ").concat(self.name());
        match self {
            CoreError::EncodeDecodeError(_) => head.concat(" -> ").concat(detail),
            CoreError::AsymmetricDecipherFailure => head,
            CoreError::SymmetricDecipherFailure => head,
            CoreError::ReceivedUnexpectedData => head,
            CoreError::ReceivedUnexpectedEvent => head,
            CoreError::VersionCacheMiss => head,
            CoreError::RootDirectoryExists => head,
            CoreError::RandomDataGenerationFailure => head,
            CoreError::OperationForbidden => head,
            CoreError::Unexpected(message) => {
                let quoted_message = quote(message.as_str());
                head.concat("::{").concat(quoted_message.as_str()).concat("}")
            },
            CoreError::DataError(_) => head.concat(" -> ").concat(detail),
            CoreError::UnsupportedSaltSizeForPwHash => head,
            CoreError::UnsuccessfulPwHash => head,
            CoreError::OperationAborted => head,
            CoreError::SelfEncryption(_) => head.concat(" -> ").concat(detail),
            CoreError::RequestTimeout => head,
            CoreError::ConfigError(_) => head.concat(" -> ").concat(detail),
            CoreError::IoError(_) => head.concat(" -> ").concat(detail),
            CoreError::QuicP2p(_) => head.concat(" -> ").concat(detail),
        }
    }

    /// What the wrapped error of a subsystem displays as; the empty text where
    /// the error wraps none.
    fn shown(&self) -> (text: String)
        ensures
            self.shows_as(text),
    {
        match self {
            CoreError::EncodeDecodeError(error) => error.to_string(),
            CoreError::AsymmetricDecipherFailure => String::new(),
            CoreError::SymmetricDecipherFailure => String::new(),
            CoreError::ReceivedUnexpectedData => String::new(),
            CoreError::ReceivedUnexpectedEvent => String::new(),
            CoreError::VersionCacheMiss => String::new(),
            CoreError::RootDirectoryExists => String::new(),
            CoreError::RandomDataGenerationFailure => String::new(),
            CoreError::OperationForbidden => String::new(),
            CoreError::Unexpected(_) => String::new(),
            CoreError::DataError(error) => error.to_string(),
            CoreError::UnsupportedSaltSizeForPwHash => String::new(),
            CoreError::UnsuccessfulPwHash => String::new(),
            CoreError::OperationAborted => String::new(),
            CoreError::SelfEncryption(error) => error.to_string(),
            CoreError::RequestTimeout => String::new(),
            CoreError::ConfigError(error) => error.to_string(),
            CoreError::IoError(error) => error.to_string(),
            CoreError::QuicP2p(error) => error.to_string(),
        }
    }

    /// What the wrapped error of a subsystem prints for logs; the empty text
    /// where the error wraps none. What a subsystem's error prints is its own
    /// business, so of that text nothing is stated.
    fn detailed(&self) -> (text: String)
        ensures
            !self@.wraps_error() ==> text@ == Seq::<char>::empty(),
    {
        match self {
            CoreError::EncodeDecodeError(error) => detail(error),
            CoreError::AsymmetricDecipherFailure => String::new(),
            CoreError::SymmetricDecipherFailure => String::new(),
            CoreError::ReceivedUnexpectedData => String::new(),
            CoreError::ReceivedUnexpectedEvent => String::new(),
            CoreError::VersionCacheMiss => String::new(),
            CoreError::RootDirectoryExists => String::new(),
            CoreError::RandomDataGenerationFailure => String::new(),
            CoreError::OperationForbidden => String::new(),
            CoreError::Unexpected(_) => String::new(),
            CoreError::DataError(error) => detail(error),
            CoreError::UnsupportedSaltSizeForPwHash => String::new(),
            CoreError::UnsuccessfulPwHash => String::new(),
            CoreError::OperationAborted => String::new(),
            CoreError::SelfEncryption(error) => detail(error),
            CoreError::RequestTimeout => String::new(),
            CoreError::ConfigError(error) => detail(error),
            CoreError::IoError(error) => detail(error),
            CoreError::QuicP2p(error) => detail(error),
        }
    }

    /// The rendering for the user: a short sentence on the failure, with the
    /// wrapped error's own display text where there is one.
    pub fn display_text(&self) -> (text: String)
        ensures
            exists|shown: String| #[trigger] self.shows_as(shown) && text@ == self@.display(shown@),
            text@.len() > 0,
    {
        let shown = self.shown();
        self.display_with(shown.as_str())
    }

    /// The rendering for logs: the rendering for the user, then the variant's
    /// name and the wrapped value in full detail.
    pub fn debug_text(&self) -> (text: String)
        ensures
            exists|shown: String, detail: Seq<char>| #[trigger]
                self.shows_as(shown) && text@ == #[trigger] self@.debug(shown@, detail),
            text@.len() > 0,
    {
        let shown = self.shown();
        let detail = self.detailed();
        self.debug_with(shown.as_str(), detail.as_str())
    }
}

/// Whether `part` stands in `whole` from position `at` on.
pub open spec fn stands_at(part: Seq<char>, whole: Seq<char>, at: int) -> bool {
    0 <= at && at + part.len() <= whole.len() && whole.subrange(at, at + part.len()) == part
}

/// Whether `part` stands somewhere in `whole`, unbroken.
pub open spec fn occurs_in(part: Seq<char>, whole: Seq<char>) -> bool {
    exists|at: int| #[trigger] stands_at(part, whole, at)
}

/// Every variant has words of its own for the user: no sentence is empty.
pub proof fn sentence_is_never_empty(error: CoreErrorView)
    ensures
        error.sentence().len() > 0,
{
    reveal_strlit("Error while serialising/deserialising: ");
    reveal_strlit("Asymmetric decryption failed");
    reveal_strlit("Symmetric decryption failed");
    reveal_strlit("Received unexpected data");
    reveal_strlit("Received unexpected event");
    reveal_strlit("No such data found in local version cache");
    reveal_strlit("Cannot overwrite a root directory if it already exists");
    reveal_strlit("Unable to obtain generator for random data");
    reveal_strlit("Forbidden operation requested");
    reveal_strlit("Unexpected: ");
    reveal_strlit("Data error -> ");
    reveal_strlit("Unable to pack into or operate with size of Salt");
    reveal_strlit("Unable to complete computation for password hashing");
    reveal_strlit("Blocking operation was cancelled");
    reveal_strlit("Self-encryption error: ");
    reveal_strlit("RequestTimeout");
    reveal_strlit("Config file error: ");
    reveal_strlit("Io error: ");
    reveal_strlit("QuicP2P error: ");
}

/// Both renderings are total and never empty: whatever the variant, whatever
/// its message, and whatever the wrapped error prints.
pub proof fn renderings_are_never_empty(error: CoreErrorView, shown: Seq<char>, detail: Seq<char>)
    ensures
        error.display(shown).len() > 0,
        error.debug(shown, detail).len() > 0,
{
    sentence_is_never_empty(error);
}

/// The rendering for logs opens with the rendering for the user and holds the
/// variant's name, so that a log line alone tells which variant it was.
pub proof fn debug_holds_display_and_name(
    error: CoreErrorView,
    shown: Seq<char>,
    detail: Seq<char>,
)
    ensures
        stands_at(error.display(shown), error.debug(shown, detail), 0),
        occurs_in(error.name(), error.debug(shown, detail)),
{
    let whole = error.debug(shown, detail);
    let display = error.display(shown);
    let dash = " - "@;
    let name = error.name();
    assert(whole.subrange(0, display.len() as int) == display);
    let at = (display.len() + dash.len()) as int;
    assert(whole.subrange(at, at + name.len()) == name);
    assert(stands_at(name, whole, at));
}

/// The rendering of a logic error holds its message, and the rendering of a
/// failed send on a channel holds the description of the failure.
pub proof fn message_is_rendered(message: Seq<char>, description: Seq<char>, shown: Seq<char>)
    ensures
        occurs_in(message, CoreErrorView::Unexpected(message).display(shown)),
        occurs_in(
            description,
            CoreErrorView::Unexpected(channel_failure_message(description)).display(shown),
        ),
{
    let lead = "Unexpected: "@;
    let whole = CoreErrorView::Unexpected(message).display(shown);
    assert(whole.subrange(lead.len() as int, (lead.len() + message.len()) as int) == message);
    assert(stands_at(message, whole, lead.len() as int));

    let prefix = "Couldn't send message to the channel: "@;
    let sent = CoreErrorView::Unexpected(channel_failure_message(description)).display(shown);
    let at = (lead.len() + prefix.len()) as int;
    assert(sent.subrange(at, at + description.len()) == description);
    assert(stands_at(description, sent, at));
}

/// A failed send on a channel converts into a logic error whose rendering
/// holds the text that the failure itself displays as.
pub proof fn channel_failure_renders_description(
    error: futures::channel::mpsc::SendError,
    converted: CoreError,
    shown: Seq<char>,
)
    requires
        is_channel_failure(error, converted),
    ensures
        converted is Unexpected,
        exists|description: String|
            #[trigger] to_string_from_display_ensures::<futures::channel::mpsc::SendError>(
                &error,
                description,
            ) && occurs_in(description@, converted@.display(shown)),
{
    let description = choose|description: String|
        #[trigger] to_string_from_display_ensures::<futures::channel::mpsc::SendError>(
            &error,
            description,
        ) && converted@ == CoreErrorView::Unexpected(channel_failure_message(description@));
    message_is_rendered(Seq::empty(), description@, shown);
}

/// Whether `text` holds no line break.
pub open spec fn is_one_line(text: Seq<char>) -> bool {
    forall|at: int| 0 <= at < text.len() ==> text[at] != '\n' && text[at] != '\r'
}

/// No sentence holds a line break.
pub proof fn sentence_is_one_line(error: CoreErrorView)
    ensures
        is_one_line(error.sentence()),
{
    reveal_strlit("Error while serialising/deserialising: ");
    reveal_strlit("Asymmetric decryption failed");
    reveal_strlit("Symmetric decryption failed");
    reveal_strlit("Received unexpected data");
    reveal_strlit("Received unexpected event");
    reveal_strlit("No such data found in local version cache");
    reveal_strlit("Cannot overwrite a root directory if it already exists");
    reveal_strlit("Unable to obtain generator for random data");
    reveal_strlit("Forbidden operation requested");
    reveal_strlit("Unexpected: ");
    reveal_strlit("Data error -> ");
    reveal_strlit("Unable to pack into or operate with size of Salt");
    reveal_strlit("Unable to complete computation for password hashing");
    reveal_strlit("Blocking operation was cancelled");
    reveal_strlit("Self-encryption error: ");
    reveal_strlit("RequestTimeout");
    reveal_strlit("Config file error: ");
    reveal_strlit("Io error: ");
    reveal_strlit("QuicP2P error: ");
}

/// The rendering for the user is one line, unless the message or the wrapped
/// error brings a line break of its own.
pub proof fn display_is_one_line(error: CoreErrorView, shown: Seq<char>)
    requires
        error.wraps_error() ==> is_one_line(shown),
        error matches CoreErrorView::Unexpected(message) ==> is_one_line(message),
    ensures
        is_one_line(error.display(shown)),
{
    sentence_is_one_line(error);
}

/// Whether the two errors are of the same variant, whatever they wrap.
pub open spec fn same_variant(one: CoreErrorView, other: CoreErrorView) -> bool {
    match (one, other) {
        (CoreErrorView::EncodeDecodeError(_), CoreErrorView::EncodeDecodeError(_)) => true,
        (CoreErrorView::AsymmetricDecipherFailure, CoreErrorView::AsymmetricDecipherFailure) => true,
        (CoreErrorView::SymmetricDecipherFailure, CoreErrorView::SymmetricDecipherFailure) => true,
        (CoreErrorView::ReceivedUnexpectedData, CoreErrorView::ReceivedUnexpectedData) => true,
        (CoreErrorView::ReceivedUnexpectedEvent, CoreErrorView::ReceivedUnexpectedEvent) => true,
        (CoreErrorView::VersionCacheMiss, CoreErrorView::VersionCacheMiss) => true,
        (CoreErrorView::RootDirectoryExists, CoreErrorView::RootDirectoryExists) => true,
        (CoreErrorView::RandomDataGenerationFailure, CoreErrorView::RandomDataGenerationFailure) => true,
        (CoreErrorView::OperationForbidden, CoreErrorView::OperationForbidden) => true,
        (CoreErrorView::Unexpected(_), CoreErrorView::Unexpected(_)) => true,
        (CoreErrorView::DataError(_), CoreErrorView::DataError(_)) => true,
        (CoreErrorView::UnsupportedSaltSizeForPwHash, CoreErrorView::UnsupportedSaltSizeForPwHash) => true,
        (CoreErrorView::UnsuccessfulPwHash, CoreErrorView::UnsuccessfulPwHash) => true,
        (CoreErrorView::OperationAborted, CoreErrorView::OperationAborted) => true,
        (CoreErrorView::SelfEncryption(_), CoreErrorView::SelfEncryption(_)) => true,
        (CoreErrorView::RequestTimeout, CoreErrorView::RequestTimeout) => true,
        (CoreErrorView::ConfigError(_), CoreErrorView::ConfigError(_)) => true,
        (CoreErrorView::IoError(_), CoreErrorView::IoError(_)) => true,
        (CoreErrorView::QuicP2p(_), CoreErrorView::QuicP2p(_)) => true,
        _ => false,
    }
}

/// The name in the rendering for logs identifies the variant: two errors
/// carry the same name only if they are of the same variant.
pub proof fn name_identifies_variant(one: CoreErrorView, other: CoreErrorView)
    ensures
        one.name() == other.name() <==> same_variant(one, other),
{
    reveal_strlit("CoreError::EncodeDecodeError");
    reveal_strlit("CoreError::AsymmetricDecipherFailure");
    reveal_strlit("CoreError::SymmetricDecipherFailure");
    reveal_strlit("CoreError::ReceivedUnexpectedData");
    reveal_strlit("CoreError::ReceivedUnexpectedEvent");
    reveal_strlit("CoreError::VersionCacheMiss");
    reveal_strlit("CoreError::RootDirectoryExists");
    reveal_strlit("CoreError::RandomDataGenerationFailure");
    reveal_strlit("CoreError::OperationForbidden");
    reveal_strlit("CoreError::Unexpected");
    reveal_strlit("CoreError::DataError");
    reveal_strlit("CoreError::UnsupportedSaltSizeForPwHash");
    reveal_strlit("CoreError::UnsuccessfulPwHash");
    reveal_strlit("CoreError::OperationAborted");
    reveal_strlit("CoreError::SelfEncryption");
    reveal_strlit("CoreError::RequestTimeout");
    reveal_strlit("CoreError::ConfigError");
    reveal_strlit("CoreError::IoError");
    reveal_strlit("CoreError::QuicP2p");
    // The length and the first letter after the colons tell any two names apart.
    assert(one.name() == other.name() ==> one.name().len() == other.name().len() && one.name()[11]
        == other.name()[11]);
}

} // verus!
