//! The two renderings of every variant.

use core_errors::errors::CoreError;
use std::io;

fn signals() -> Vec<(CoreError, &'static str, &'static str)> {
    vec![
        (
            CoreError::AsymmetricDecipherFailure,
            "Asymmetric decryption failed",
            "CoreError::AsymmetricDecipherFailure",
        ),
        (
            CoreError::SymmetricDecipherFailure,
            "Symmetric decryption failed",
            "CoreError::SymmetricDecipherFailure",
        ),
        (
            CoreError::ReceivedUnexpectedData,
            "Received unexpected data",
            "CoreError::ReceivedUnexpectedData",
        ),
        (
            CoreError::ReceivedUnexpectedEvent,
            "Received unexpected event",
            "CoreError::ReceivedUnexpectedEvent",
        ),
        (
            CoreError::VersionCacheMiss,
            "No such data found in local version cache",
            "CoreError::VersionCacheMiss",
        ),
        (
            CoreError::RootDirectoryExists,
            "Cannot overwrite a root directory if it already exists",
            "CoreError::RootDirectoryExists",
        ),
        (
            CoreError::RandomDataGenerationFailure,
            "Unable to obtain generator for random data",
            "CoreError::RandomDataGenerationFailure",
        ),
        (
            CoreError::OperationForbidden,
            "Forbidden operation requested",
            "CoreError::OperationForbidden",
        ),
        (
            CoreError::UnsupportedSaltSizeForPwHash,
            "Unable to pack into or operate with size of Salt",
            "CoreError::UnsupportedSaltSizeForPwHash",
        ),
        (
            CoreError::UnsuccessfulPwHash,
            "Unable to complete computation for password hashing",
            "CoreError::UnsuccessfulPwHash",
        ),
        (
            CoreError::OperationAborted,
            "Blocking operation was cancelled",
            "CoreError::OperationAborted",
        ),
        (
            CoreError::RequestTimeout,
            "RequestTimeout",
            "CoreError::RequestTimeout",
        ),
    ]
}

fn wrappers() -> Vec<(CoreError, &'static str, &'static str)> {
    let codec = match bincode::deserialize::<bool>(&[7u8]) {
        Ok(_) => panic!("7 is no bool"),
        Err(error) => error,
    };
    let parse = match serde_json::from_str::<serde_json::Value>("{invalid json") {
        Ok(_) => panic!("the input is no JSON"),
        Err(error) => error,
    };
    vec![
        (
            CoreError::EncodeDecodeError(codec),
            "Error while serialising/deserialising: ",
            "CoreError::EncodeDecodeError",
        ),
        (
            CoreError::DataError(safe_nd::Error::AccessDenied),
            "Data error -> ",
            "CoreError::DataError",
        ),
        (
            CoreError::SelfEncryption(self_encryption::Error::Compression),
            "Self-encryption error: ",
            "CoreError::SelfEncryption",
        ),
        (
            CoreError::ConfigError(parse),
            "Config file error: ",
            "CoreError::ConfigError",
        ),
        (
            CoreError::IoError(io::Error::new(io::ErrorKind::Other, "disk gone")),
            "Io error: ",
            "CoreError::IoError",
        ),
        (
            CoreError::QuicP2p(quic_p2p::QuicP2pError::OperationNotAllowed),
            "QuicP2P error: ",
            "CoreError::QuicP2p",
        ),
    ]
}

#[test]
fn signal_displays_its_sentence() {
    for (error, sentence, _) in &signals() {
        assert_eq!(error.display_text(), *sentence);
        assert_eq!(error.sentence(), *sentence);
        // A signal wraps nothing, so the text offered for it is not used.
        assert_eq!(error.display_with("not used"), *sentence);
    }
}

#[test]
fn signal_debugs_as_sentence_and_name() {
    for (error, sentence, name) in &signals() {
        let expected = format!("{} - {}", sentence, name);
        assert_eq!(error.debug_text(), expected);
        assert_eq!(error.name(), *name);
        assert_eq!(error.debug_with("not used", "nor this"), expected);
    }
}

#[test]
fn operation_forbidden_renders_exactly() {
    let error = CoreError::OperationForbidden;
    assert_eq!(error.display_text(), "Forbidden operation requested");
    assert_eq!(
        error.debug_text(),
        "Forbidden operation requested - CoreError::OperationForbidden"
    );
}

#[test]
fn wrapper_displays_sentence_and_given_text() {
    for (error, sentence, _) in &wrappers() {
        assert_eq!(error.sentence(), *sentence);
        assert_eq!(error.display_with("the cause"), format!("{}the cause", sentence));
        assert_eq!(error.display_with(""), *sentence);
    }
}

#[test]
fn wrapper_debugs_with_given_texts() {
    for (error, sentence, name) in &wrappers() {
        assert_eq!(error.name(), *name);
        assert_eq!(
            error.debug_with("short", "Long { form }"),
            format!("{}short - {} -> Long {{ form }}", sentence, name)
        );
        assert_eq!(error.debug_with("", ""), format!("{} - {} -> ", sentence, name));
    }
}

#[test]
fn unexpected_renders_its_message() {
    let error = CoreError::from("out of step");
    assert_eq!(error.display_text(), "Unexpected: out of step");
    assert_eq!(
        error.debug_text(),
        "Unexpected: out of step - CoreError::Unexpected::{\"out of step\"}"
    );
    // The message is its own text: none offered in its place is used.
    assert_eq!(error.display_with("not used"), "Unexpected: out of step");
    assert_eq!(
        error.debug_with("not used", "nor this"),
        "Unexpected: out of step - CoreError::Unexpected::{\"out of step\"}"
    );
}

#[test]
fn unexpected_debug_escapes_the_message() {
    let error = CoreError::from("say \"hi\"\n\tnow\\");
    assert_eq!(error.display_text(), "Unexpected: say \"hi\"\n\tnow\\");
    assert_eq!(
        error.debug_text(),
        "Unexpected: say \"hi\"\n\tnow\\ - CoreError::Unexpected::{\"say \\\"hi\\\"\\n\\tnow\\\\\"}"
    );
}

#[test]
fn unexpected_with_empty_message_still_renders() {
    let error = CoreError::from(String::new());
    assert_eq!(error.display_text(), "Unexpected: ");
    assert_eq!(error.debug_text(), "Unexpected:  - CoreError::Unexpected::{\"\"}");
}

#[test]
fn codec_error_renders_with_its_own_text() {
    let codec = match bincode::deserialize::<bool>(&[7u8]) {
        Ok(_) => panic!("7 is no bool"),
        Err(error) => error,
    };
    let error = CoreError::from(codec);
    assert_eq!(
        error.display_text(),
        "Error while serialising/deserialising: invalid u8 while decoding bool, expected 0 or 1, found 7"
    );
    assert_eq!(
        error.debug_text(),
        "Error while serialising/deserialising: invalid u8 while decoding bool, expected 0 or 1, found 7 - CoreError::EncodeDecodeError -> InvalidBoolEncoding(7)"
    );
}

#[test]
fn data_error_renders_with_its_own_text() {
    let error = CoreError::from(safe_nd::Error::AccessDenied);
    assert_eq!(error.display_text(), "Data error -> Access denied");
    assert_eq!(
        error.debug_text(),
        "Data error -> Access denied - CoreError::DataError -> AccessDenied"
    );
}

#[test]
fn self_encryption_error_renders_with_its_own_text() {
    let error = CoreError::from(self_encryption::Error::Compression);
    assert_eq!(
        error.display_text(),
        "Self-encryption error: An error during compression or decompression."
    );
    assert_eq!(
        error.debug_text(),
        "Self-encryption error: An error during compression or decompression. - CoreError::SelfEncryption -> Compression"
    );
}

#[test]
fn config_error_renders_with_its_own_text() {
    let parse = match serde_json::from_str::<serde_json::Value>("{invalid json") {
        Ok(_) => panic!("the input is no JSON"),
        Err(error) => error,
    };
    let shown = parse.to_string();
    let detail = format!("{:?}", parse);
    assert_eq!(shown, "key must be a string at line 1 column 2");
    let error = CoreError::from(parse);
    assert_eq!(
        error.display_text(),
        "Config file error: key must be a string at line 1 column 2"
    );
    assert_eq!(
        error.debug_text(),
        format!(
            "Config file error: key must be a string at line 1 column 2 - CoreError::ConfigError -> {}",
            detail
        )
    );
}

#[test]
fn io_error_renders_with_its_own_text() {
    let error = CoreError::from(io::Error::new(io::ErrorKind::Other, "disk gone"));
    assert_eq!(error.display_text(), "Io error: disk gone");
    let detail = format!("{:?}", io::Error::new(io::ErrorKind::Other, "disk gone"));
    assert_eq!(
        error.debug_text(),
        format!("Io error: disk gone - CoreError::IoError -> {}", detail)
    );
}

#[test]
fn transport_error_renders_with_its_own_text() {
    let error = CoreError::from(quic_p2p::QuicP2pError::OperationNotAllowed);
    assert_eq!(error.display_text(), "QuicP2P error: Operation not allowed");
    assert_eq!(
        error.debug_text(),
        "QuicP2P error: Operation not allowed - CoreError::QuicP2p -> OperationNotAllowed"
    );
}

#[test]
fn every_rendering_is_non_empty() {
    let mut all = signals();
    all.extend(wrappers());
    all.push((CoreError::from(""), "Unexpected: ", "CoreError::Unexpected"));
    assert_eq!(all.len(), 19);
    for (error, sentence, name) in &all {
        let display = error.display_text();
        let debug = error.debug_text();
        assert!(!display.is_empty());
        assert!(!debug.is_empty());
        assert!(display.starts_with(sentence));
        assert!(debug.starts_with(&display));
        assert!(debug.contains(name));
    }
}

#[test]
fn names_are_all_different() {
    let mut all = signals();
    all.extend(wrappers());
    all.push((CoreError::from(""), "Unexpected: ", "CoreError::Unexpected"));
    for (at, (one, _, _)) in all.iter().enumerate() {
        for (other, _, _) in &all[at + 1..] {
            assert_ne!(one.name(), other.name());
        }
    }
}

#[test]
fn signal_renderings_are_one_line() {
    for (error, _, _) in &signals() {
        assert!(!error.display_text().contains('\n'));
        assert!(!error.display_text().contains('\r'));
    }
}
