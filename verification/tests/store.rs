use usage_monitor::error::{FetchError, Payload};
use usage_monitor::store::{
    delete_command, get_raw_credentials_json, insert_command, lookup_command,
    update_keychain_credentials, CommandOutcome,
};

fn exited(success: bool, stdout: &[u8], stderr: &str) -> CommandOutcome {
    CommandOutcome::Exited { success, stdout: stdout.to_vec(), stderr: stderr.to_string() }
}

fn texts(items: &[&str]) -> Vec<String> {
    items.iter().map(|i| i.to_string()).collect()
}

#[test]
fn lookup_output_is_trimmed() {
    assert_eq!(
        get_raw_credentials_json(exited(true, b"  {\"a\": 1}\n", "")),
        Ok("{\"a\": 1}".to_string())
    );
    assert_eq!(
        get_raw_credentials_json(exited(true, "\u{a0}\t [1, \"x y\"] \u{3000}\r\n".as_bytes(), "ignored")),
        Ok("[1, \"x y\"]".to_string())
    );
    assert_eq!(get_raw_credentials_json(exited(true, b"{}", "")), Ok("{}".to_string()));
    assert_eq!(
        get_raw_credentials_json(exited(true, "{\"k\": \" \u{e9} \"}".as_bytes(), "")),
        Ok("{\"k\": \" \u{e9} \"}".to_string())
    );
}

fn malformed(output: &str) -> String {
    let outcome = get_raw_credentials_json(exited(true, output.as_bytes(), ""));
    assert!(matches!(
        outcome,
        Err(FetchError::ParseFailure { payload: Payload::Credentials, .. })
    ));
    outcome.unwrap_err().message()
}

#[test]
fn lookup_output_that_is_no_document() {
    for output in ["", " \n ", "x y", "{\"a\":", "{} trailing", "\u{200b}{}\u{200b}"] {
        let message = malformed(output);
        assert!(message.starts_with("Failed to parse credentials: "));
        assert!(message.len() > "Failed to parse credentials: ".len());
    }
}

#[test]
fn lookup_of_what_a_lookup_yielded() {
    let first = get_raw_credentials_json(exited(true, b"\n {\"a\": [1, 2.50]} \n", "")).unwrap();
    let written = insert_command("some service", first.clone());
    assert_eq!(written[6], first);
    let second = get_raw_credentials_json(exited(true, written[6].as_bytes(), ""));
    assert_eq!(second, Ok(first));
}

#[test]
fn lookup_that_could_not_run() {
    assert_eq!(
        get_raw_credentials_json(CommandOutcome::NotRun("No such file or directory".to_string())),
        Err(FetchError::StoreUnavailable("No such file or directory".to_string()))
    );
}

#[test]
fn lookup_that_was_denied() {
    assert_eq!(
        get_raw_credentials_json(exited(false, b"{}", "The specified item could not be found.\n")),
        Err(FetchError::StoreAccessDenied("The specified item could not be found.\n".to_string()))
    );
}

#[test]
fn lookup_output_that_is_not_utf8() {
    let outcome = get_raw_credentials_json(exited(true, &[b'{', 0xff, b'}'], ""));
    assert!(matches!(
        outcome,
        Err(FetchError::ParseFailure { payload: Payload::CredentialEncoding, .. })
    ));
    let message = outcome.unwrap_err().message();
    assert!(message.starts_with("Invalid UTF-8 in credentials: "));
    assert!(message.len() > "Invalid UTF-8 in credentials: ".len());
    assert!(matches!(
        get_raw_credentials_json(exited(true, &[0xe2, 0x82], "")),
        Err(FetchError::ParseFailure { payload: Payload::CredentialEncoding, .. })
    ));
}

#[test]
fn write_succeeds_where_the_insertion_does() {
    assert_eq!(update_keychain_credentials(exited(true, b"", ""), exited(true, b"", "")), Ok(()));
    assert_eq!(
        update_keychain_credentials(exited(false, b"", "not found"), exited(true, b"", "")),
        Ok(())
    );
    assert_eq!(
        update_keychain_credentials(CommandOutcome::NotRun("x".to_string()), exited(true, b"", "")),
        Ok(())
    );
}

#[test]
fn write_fails_where_the_insertion_does() {
    assert_eq!(
        update_keychain_credentials(exited(true, b"", ""), exited(false, b"out", "locked")),
        Err(FetchError::StoreWriteFailure { ran: true, detail: "locked".to_string() })
    );
    assert_eq!(
        update_keychain_credentials(
            exited(true, b"", ""),
            CommandOutcome::NotRun("no command".to_string())
        ),
        Err(FetchError::StoreWriteFailure { ran: false, detail: "no command".to_string() })
    );
}

#[test]
fn commands_of_the_store() {
    assert_eq!(
        lookup_command("some service"),
        texts(&["find-generic-password", "-s", "some service", "-w"])
    );
    assert_eq!(
        delete_command("some service"),
        texts(&["delete-generic-password", "-s", "some service"])
    );
    assert_eq!(
        insert_command("some service", "{\"k\":1}".to_string()),
        texts(&["add-generic-password", "-s", "some service", "-a", "", "-w", "{\"k\":1}", "-U"])
    );
}
