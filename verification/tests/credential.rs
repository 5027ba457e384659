use strims_chat::credential::{accepted, normalized, COOKIE_HEADER};
use strims_chat::{ChatError, Connection, Phase, Request};

#[test]
fn normalized_takes_newlines_out() {
    assert_eq!(normalized("a\nb\n"), "ab");
    assert_eq!(normalized("\n\n"), "");
    assert_eq!(normalized("jwt=abc\n"), "jwt=abc");
}

#[test]
fn normalized_keeps_everything_else() {
    assert_eq!(normalized(""), "");
    assert_eq!(normalized("jwt=abc; path=/"), "jwt=abc; path=/");
    assert_eq!(normalized("a\rb\tc"), "a\rb\tc");
    assert_eq!(normalized("é\nü"), "éü");
}

#[test]
fn a_plain_cookie_awaits_verification() {
    let connection = Connection::new("jwt=abc.def-ghi_123");
    assert!(matches!(connection.phase(), Phase::Verifying));
    assert!(connection.failure().is_none());
}

#[test]
fn tabs_and_characters_beyond_ascii_can_be_sent() {
    assert!(matches!(Connection::new("a\tb").phase(), Phase::Verifying));
    assert!(matches!(Connection::new("naïve=日本").phase(), Phase::Verifying));
    assert!(matches!(Connection::new("").phase(), Phase::Verifying));
    assert!(matches!(Connection::new(" ~").phase(), Phase::Verifying));
}

#[test]
fn control_characters_cannot_be_sent() {
    for cookie in ["jwt=abc\n", "a\rb", "a\u{0}b", "a\u{1f}b", "a\u{7f}b"] {
        let connection = Connection::new(cookie);
        match connection.phase() {
            Phase::Failed(ChatError::InvalidCredentialFormat(kept)) => assert_eq!(kept, cookie),
            other => panic!("unexpected: {:?}", other),
        }
        assert!(connection.pending().is_none());
    }
}

#[test]
fn the_handshake_carries_the_cookie_as_given() {
    let mut connection = Connection::new("jwt=abc");
    assert!(connection.verified(Some(200)).is_ok());
    match connection.pending() {
        Some(Request::Handshake { endpoint, cookie }) => {
            assert_eq!(endpoint, "wss://chat.strims.gg/ws");
            assert_eq!(cookie, "jwt=abc");
        }
        other => panic!("unexpected: {:?}", other),
    }
}

#[test]
fn only_a_status_of_success_accepts() {
    for status in [200u16, 201, 204, 299] {
        assert!(accepted(Some(status)));
    }
    for status in [0u16, 100, 199, 300, 301, 401, 403, 404, 500, u16::MAX] {
        assert!(!accepted(Some(status)));
    }
    assert!(!accepted(None));
}

#[test]
fn a_request_without_answer_rejects() {
    let mut connection = Connection::new("jwt=abc");
    match connection.verified(None) {
        Err(ChatError::AuthenticationRejected(cookie)) => assert_eq!(cookie, "jwt=abc"),
        other => panic!("unexpected: {:?}", other),
    }
    assert!(matches!(connection.phase(), Phase::Failed(ChatError::AuthenticationRejected(_))));
}

#[test]
fn a_redirect_rejects() {
    let mut connection = Connection::new("jwt=abc");
    assert!(connection.verified(Some(302)).is_err());
    assert!(connection.pending().is_none());
}

#[test]
fn the_cookie_goes_into_the_cookie_header() {
    assert_eq!(COOKIE_HEADER, "Cookie");
}
