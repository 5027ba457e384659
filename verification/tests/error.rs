use strims_chat::ChatError;

#[test]
fn invalid_credential_message() {
    let error = ChatError::InvalidCredentialFormat("a\nb".to_string());
    assert_eq!(
        error.message(),
        "The cookie cannot be sent as a header value. [cookie=\"a\nb\"]"
    );
}

#[test]
fn rejected_credential_message() {
    let error = ChatError::AuthenticationRejected("jwt=abc".to_string());
    assert_eq!(
        error.message(),
        "Could not log in with cookie. The cookie must have the format as specified in the cookie.template file. [cookie=\"jwt=abc\"]"
    );
}

#[test]
fn transport_messages_are_the_transport_s_words() {
    assert_eq!(
        ChatError::HandshakeFailed("HTTP error: 401 Unauthorized".to_string()).message(),
        "HTTP error: 401 Unauthorized"
    );
    assert_eq!(
        ChatError::WriteFailed("Connection closed normally".to_string()).message(),
        "Connection closed normally"
    );
    assert_eq!(
        ChatError::MalformedPayload("expected value at line 1 column 1".to_string()).message(),
        "expected value at line 1 column 1"
    );
}

#[test]
fn read_failure_message_tells_of_the_reconnect() {
    let error = ChatError::ReadFailed { detail: "reset".to_string(), reconnected: true };
    assert_eq!(error.message(), "Error reading: [reset]: => reconnected");
    let error = ChatError::ReadFailed { detail: "reset".to_string(), reconnected: false };
    assert_eq!(error.message(), "Error reading: [reset]: => not reconnected");
}

#[test]
fn a_copy_of_an_error_says_the_same() {
    let errors = vec![
        ChatError::InvalidCredentialFormat("c".to_string()),
        ChatError::AuthenticationRejected("c".to_string()),
        ChatError::HandshakeFailed("h".to_string()),
        ChatError::WriteFailed("w".to_string()),
        ChatError::ReadFailed { detail: "r".to_string(), reconnected: true },
        ChatError::ReadFailed { detail: "r".to_string(), reconnected: false },
        ChatError::MalformedPayload("m".to_string()),
    ];
    for error in errors {
        let copy = error.clone();
        assert_eq!(format!("{:?}", copy), format!("{:?}", error));
        assert_eq!(copy.message(), error.message());
    }
}
