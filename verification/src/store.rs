//! The secret store adapter: the commands that read and write the one
//! credential entry, and what their outcomes mean.
//!
//! The adapter decides; its caller runs the commands.

use vstd::prelude::*;
use vstd::string::*;
use vstd::utf8::{decode_utf8, valid_utf8};
use crate::error::{FetchError, Payload};
use crate::json::{parse_json, parse_message, parsed_text};

verus! {

/// `std::string::FromUtf8Error`, carried through as it is.
#[verifier::external_type_specification]
#[verifier::external_body]
pub struct ExFromUtf8Error(std::string::FromUtf8Error);

/// How a command of the secret store ended.
#[derive(Debug, Clone, PartialEq, Eq)]
pub enum CommandOutcome {
    /// The command could not be started; the text says why.
    NotRun(String),
    /// The command ran to its end.
    Exited { success: bool, stdout: Vec<u8>, stderr: String },
}

/// Whether a character is white space: the characters that Unicode gives the
/// property `White_Space`.
pub open spec fn is_space(c: char) -> bool {
    ||| '\u{9}' <= c <= '\u{D}'
    ||| c == ' '
    ||| c == '\u{85}'
    ||| c == '\u{A0}'
    ||| c == '\u{1680}'
    ||| '\u{2000}' <= c <= '\u{200A}'
    ||| c == '\u{2028}'
    ||| c == '\u{2029}'
    ||| c == '\u{202F}'
    ||| c == '\u{205F}'
    ||| c == '\u{3000}'
}

/// A text without the white space at its two ends.
pub open spec fn trimmed(text: Seq<char>) -> Seq<char>
    decreases text.len(),
{
    if text.len() > 0 && is_space(text.first()) {
        trimmed(text.drop_first())
    } else if text.len() > 0 && is_space(text.last()) {
        trimmed(text.drop_last())
    } else {
        text
    }
}

/// `String::from_utf8`: the text that the bytes encode, and an error exactly
/// where they are not valid UTF-8.
#[verifier::external_body]
fn text_from_bytes(bytes: Vec<u8>) -> (text: Result<String, std::string::FromUtf8Error>)
    ensures
        match text {
            Ok(t) => valid_utf8(bytes@) && t@ == decode_utf8(bytes@),
            Err(_) => !valid_utf8(bytes@),
        },
{
    String::from_utf8(bytes)
}

/// The message of a `FromUtf8Error`, as its `Display` gives it.
#[verifier::external_body]
fn encoding_message(error: &std::string::FromUtf8Error) -> (message: String) {
    error.to_string()
}

/// `str::trim`: the text without the white space at its two ends.
#[verifier::external_body]
fn trim_text<'a>(text: &'a str) -> (inner: &'a str)
    ensures
        inner@ == trimmed(text@),
{
    text.trim()
}

/// The arguments of the command that reads the entry of a service.
pub open spec fn lookup_arguments(service: Seq<char>) -> Seq<Seq<char>> {
    seq!["find-generic-password"@, "-s"@, service, "-w"@]
}

/// The arguments of the command that deletes the entry of a service.
pub open spec fn delete_arguments(service: Seq<char>) -> Seq<Seq<char>> {
    seq!["delete-generic-password"@, "-s"@, service]
}

/// The arguments of the command that inserts the entry of a service with a
/// new value: an empty account name, and an update where the entry exists.
pub open spec fn insert_arguments(service: Seq<char>, value: Seq<char>) -> Seq<Seq<char>> {
    seq!["add-generic-password"@, "-s"@, service, "-a"@, ""@, "-w"@, value, "-U"@]
}

/// The texts of a list of arguments.
pub open spec fn texts(arguments: Seq<String>) -> Seq<Seq<char>> {
    arguments.map_values(|a: String| a@)
}

/// Builds the arguments of the command that reads the entry of a service.
pub fn lookup_command(service: &str) -> (arguments: Vec<String>)
    ensures
        texts(arguments@) == lookup_arguments(service@),
{
    let mut arguments: Vec<String> = Vec::new();
    arguments.push(String::from_str("find-generic-password"));
    arguments.push(String::from_str("-s"));
    arguments.push(String::from_str(service));
    arguments.push(String::from_str("-w"));
    assert(texts(arguments@) =~= lookup_arguments(service@));
    arguments
}

/// Builds the arguments of the command that deletes the entry of a service.
pub fn delete_command(service: &str) -> (arguments: Vec<String>)
    ensures
        texts(arguments@) == delete_arguments(service@),
{
    let mut arguments: Vec<String> = Vec::new();
    arguments.push(String::from_str("delete-generic-password"));
    arguments.push(String::from_str("-s"));
    arguments.push(String::from_str(service));
    assert(texts(arguments@) =~= delete_arguments(service@));
    arguments
}

/// Builds the arguments of the command that inserts the entry of a service
/// with the given value.
pub fn insert_command(service: &str, value: String) -> (arguments: Vec<String>)
    ensures
        texts(arguments@) == insert_arguments(service@, value@),
{
    let mut arguments: Vec<String> = Vec::new();
    arguments.push(String::from_str("add-generic-password"));
    arguments.push(String::from_str("-s"));
    arguments.push(String::from_str(service));
    arguments.push(String::from_str("-a"));
    arguments.push(String::from_str(""));
    arguments.push(String::from_str("-w"));
    arguments.push(value);
    arguments.push(String::from_str("-U"));
    assert(texts(arguments@) =~= insert_arguments(service@, value@));
    arguments
}

/// The text that a lookup yields from the output of a command that
/// succeeded: the output without the white space at its two ends, where the
/// output is UTF-8 and that text is a JSON document; none otherwise.
pub open spec fn accepted_text(stdout: Seq<u8>) -> Option<Seq<char>> {
    if valid_utf8(stdout) && parsed_text(trimmed(decode_utf8(stdout))) is Some {
        Some(trimmed(decode_utf8(stdout)))
    } else {
        None
    }
}

/// Judges the outcome of the lookup command.
///
/// The store is unavailable where the command could not be started, and
/// denies access where the command failed. Output that is not UTF-8 is a
/// malformed payload, and so is output that, without the white space at its
/// two ends, is no JSON document. Otherwise the result is that text.
pub fn get_raw_credentials_json(outcome: CommandOutcome) -> (text: Result<String, FetchError>)
    ensures
        match outcome {
            CommandOutcome::NotRun(reason) => text == Err::<String, FetchError>(
                FetchError::StoreUnavailable(reason),
            ),
            CommandOutcome::Exited { success, stdout, stderr } => if !success {
                text == Err::<String, FetchError>(FetchError::StoreAccessDenied(stderr))
            } else if !valid_utf8(stdout@) {
                text matches Err(FetchError::ParseFailure { payload, .. }) && payload
                    == Payload::CredentialEncoding
            } else if parsed_text(trimmed(decode_utf8(stdout@))) is None {
                text matches Err(FetchError::ParseFailure { payload, .. }) && payload
                    == Payload::Credentials
            } else {
                text is Ok && text.unwrap()@ == trimmed(decode_utf8(stdout@))
            },
        },
        match outcome {
            CommandOutcome::Exited { success, stdout, .. } => success ==> match accepted_text(
                stdout@,
            ) {
                Some(accepted) => text is Ok && text.unwrap()@ == accepted,
                None => text is Err,
            },
            CommandOutcome::NotRun(_) => text is Err,
        },
{
    match outcome {
        CommandOutcome::NotRun(reason) => Err(FetchError::StoreUnavailable(reason)),
        CommandOutcome::Exited { success, stdout, stderr } => {
            if !success {
                Err(FetchError::StoreAccessDenied(stderr))
            } else {
                match text_from_bytes(stdout) {
                    Ok(output) => {
                        let inner = String::from_str(trim_text(output.as_str()));
                        match parse_json(inner.as_str()) {
                            Ok(_) => Ok(inner),
                            Err(error) => Err(
                                FetchError::ParseFailure {
                                    payload: Payload::Credentials,
                                    detail: parse_message(&error),
                                },
                            ),
                        }
                    },
                    Err(error) => Err(
                        FetchError::ParseFailure {
                            payload: Payload::CredentialEncoding,
                            detail: encoding_message(&error),
                        },
                    ),
                }
            }
        },
    }
}

/// A trimmed text neither begins nor ends with white space.
pub proof fn trimmed_has_bare_ends(text: Seq<char>)
    ensures
        trimmed(text).len() > 0 ==> !is_space(trimmed(text).first()) && !is_space(
            trimmed(text).last(),
        ),
    decreases text.len(),
{
    if text.len() > 0 && is_space(text.first()) {
        trimmed_has_bare_ends(text.drop_first());
    } else if text.len() > 0 && is_space(text.last()) {
        trimmed_has_bare_ends(text.drop_last());
    }
}

/// Trimming a trimmed text changes nothing.
pub proof fn trimming_twice_changes_nothing(text: Seq<char>)
    ensures
        trimmed(trimmed(text)) == trimmed(text),
{
    trimmed_has_bare_ends(text);
}

/// Writing back what was read changes nothing that a later read sees: the
/// insert command for the text that a lookup has yielded carries that text
/// as its value, and where the store then gives the value back as UTF-8, the
/// next lookup yields the same text again.
pub proof fn reading_back_what_was_read(service: Seq<char>, first: Seq<u8>, second: Seq<u8>)
    requires
        accepted_text(first) is Some,
        valid_utf8(second),
        decode_utf8(second) == insert_arguments(service, accepted_text(first).unwrap())[6],
    ensures
        insert_arguments(service, accepted_text(first).unwrap())[6] == accepted_text(
            first,
        ).unwrap(),
        accepted_text(second) == accepted_text(first),
{
    trimming_twice_changes_nothing(decode_utf8(first));
}

/// Judges a write to the store, which deletes the entry and then inserts
/// it anew.
///
/// A deletion that fails counts as an entry that was not there. The write
/// has failed exactly where the insertion has: where its command could not be
/// started, or ran and failed.
pub fn update_keychain_credentials(_deletion: CommandOutcome, insertion: CommandOutcome) -> (written:
    Result<(), FetchError>)
    ensures
        written == match insertion {
            CommandOutcome::NotRun(reason) => Err::<(), FetchError>(
                FetchError::StoreWriteFailure { ran: false, detail: reason },
            ),
            CommandOutcome::Exited { success, stdout, stderr } => if success {
                Ok(())
            } else {
                Err(FetchError::StoreWriteFailure { ran: true, detail: stderr })
            },
        },
{
    match insertion {
        CommandOutcome::NotRun(reason) => Err(
            FetchError::StoreWriteFailure { ran: false, detail: reason },
        ),
        CommandOutcome::Exited { success, stderr, .. } => {
            if success {
                Ok(())
            } else {
                Err(FetchError::StoreWriteFailure { ran: true, detail: stderr })
            }
        },
    }
}

} // verus!
