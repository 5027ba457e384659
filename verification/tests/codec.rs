use strims_chat::codec::{
    chat_from_fields, decode, encode_private, encode_public, msg_to_chatmessage,
    msg_to_whispermessage, strip_tag, whisper_from_fields, PRIVATE_TAG, PUBLIC_TAG,
};
use strims_chat::{ChatError, MessageType};

#[test]
fn tags_are_the_wire_tags() {
    assert_eq!(PUBLIC_TAG, "MSG ");
    assert_eq!(PRIVATE_TAG, "PRIVMSG ");
}

#[test]
fn public_frame_is_exact() {
    assert_eq!(encode_public("hello"), "MSG {\"data\":\"hello\"}");
    assert_eq!(encode_public(""), "MSG {\"data\":\"\"}");
}

#[test]
fn private_frame_is_exact() {
    assert_eq!(
        encode_private("bob", "yo"),
        "PRIVMSG {\"nick\":\"bob\",\"data\":\"yo\"}"
    );
}

#[test]
fn frames_do_not_escape_their_text() {
    assert_eq!(encode_public("a\"b\\c"), "MSG {\"data\":\"a\"b\\c\"}");
    assert_eq!(
        encode_private("b\"ob", "line\nbreak"),
        "PRIVMSG {\"nick\":\"b\"ob\",\"data\":\"line\nbreak\"}"
    );
}

#[test]
fn strip_tag_takes_the_tag_off() {
    assert_eq!(strip_tag("MSG {}", "MSG "), Some("{}"));
    assert_eq!(strip_tag("MSG ", "MSG "), Some(""));
    assert_eq!(strip_tag("anything", ""), Some("anything"));
    assert_eq!(strip_tag("PRIVMSG {\"a\":1}", "PRIVMSG "), Some("{\"a\":1}"));
}

#[test]
fn strip_tag_refuses_other_frames() {
    assert_eq!(strip_tag("PRIVMSG {}", "MSG "), None);
    assert_eq!(strip_tag("MSG", "MSG "), None);
    assert_eq!(strip_tag("", "MSG "), None);
    assert_eq!(strip_tag("msg {}", "MSG "), None);
    assert_eq!(strip_tag(" MSG {}", "MSG "), None);
}

#[test]
fn strip_tag_counts_characters() {
    assert_eq!(strip_tag("é→rest", "é→"), Some("rest"));
    assert_eq!(strip_tag("é→rest", "e→"), None);
}

#[test]
fn fields_are_stripped_of_their_quotes() {
    let post = chat_from_fields(&"\"bob\"".to_string(), &"\"hi\"".to_string());
    assert_eq!(post.sender, "bob");
    assert_eq!(post.message, "hi");
    let whisper = whisper_from_fields(
        &"\"alice\"".to_string(),
        &"\"bob\"".to_string(),
        &"\"yo\"".to_string(),
    );
    assert_eq!(whisper.sender, "alice");
    assert_eq!(whisper.receiver, "bob");
    assert_eq!(whisper.message, "yo");
}

#[test]
fn public_payload_is_decoded() {
    let post = msg_to_chatmessage("{\"data\":\"hi\",\"nick\":\"bob\"}").unwrap();
    assert_eq!(post.sender, "bob");
    assert_eq!(post.message, "hi");
}

#[test]
fn private_payload_is_decoded() {
    let whisper =
        msg_to_whispermessage("{\"data\":\"yo\",\"nick\":\"alice\",\"nickTarget\":\"bob\"}")
            .unwrap();
    assert_eq!(whisper.sender, "alice");
    assert_eq!(whisper.receiver, "bob");
    assert_eq!(whisper.message, "yo");
}

#[test]
fn public_frame_is_decoded() {
    match decode("MSG {\"data\":\"hi\",\"nick\":\"bob\"}") {
        Some(Ok(MessageType::ChatMessage(post))) => {
            assert_eq!(post.sender, "bob");
            assert_eq!(post.message, "hi");
        }
        other => panic!("unexpected: {:?}", other),
    }
}

#[test]
fn private_frame_is_decoded() {
    match decode("PRIVMSG {\"data\":\"yo\",\"nick\":\"alice\",\"nickTarget\":\"bob\"}") {
        Some(Ok(MessageType::WhisperMessage(whisper))) => {
            assert_eq!(whisper.sender, "alice");
            assert_eq!(whisper.receiver, "bob");
            assert_eq!(whisper.message, "yo");
        }
        other => panic!("unexpected: {:?}", other),
    }
}

#[test]
fn quotes_inside_a_field_stay_escaped() {
    match decode("MSG {\"data\":\"\\\"hi\\\"\",\"nick\":\"\\\"bob\\\"\"}") {
        Some(Ok(MessageType::ChatMessage(post))) => {
            assert_eq!(post.sender, "\\\"bob\\\"");
            assert_eq!(post.message, "\\\"hi\\\"");
        }
        other => panic!("unexpected: {:?}", other),
    }
    match decode(
        "PRIVMSG {\"data\":\"\\\"yo\\\"\",\"nick\":\"\\\"alice\\\"\",\"nickTarget\":\"\\\"bob\\\"\"}",
    ) {
        Some(Ok(MessageType::WhisperMessage(whisper))) => {
            assert_eq!(whisper.sender, "\\\"alice\\\"");
            assert_eq!(whisper.receiver, "\\\"bob\\\"");
            assert_eq!(whisper.message, "\\\"yo\\\"");
        }
        other => panic!("unexpected: {:?}", other),
    }
}

#[test]
fn escapes_inside_a_field_are_kept_as_rendered() {
    let post = msg_to_chatmessage("{\"data\":\"a\\nb\\u0041\",\"nick\":\"tab\\there\"}").unwrap();
    assert_eq!(post.message, "a\\nbA");
    assert_eq!(post.sender, "tab\\there");
}

#[test]
fn a_missing_member_renders_as_null() {
    let post = msg_to_chatmessage("{\"data\":\"hi\"}").unwrap();
    assert_eq!(post.sender, "ul");
    assert_eq!(post.message, "hi");
    let whisper = msg_to_whispermessage("{\"nick\":\"alice\"}").unwrap();
    assert_eq!(whisper.sender, "alice");
    assert_eq!(whisper.receiver, "ul");
    assert_eq!(whisper.message, "ul");
}

#[test]
fn a_payload_that_is_no_object_has_no_members() {
    let post = msg_to_chatmessage("[1,2,3]").unwrap();
    assert_eq!(post.sender, "ul");
    assert_eq!(post.message, "ul");
    let post = msg_to_chatmessage("\"text\"").unwrap();
    assert_eq!(post.sender, "ul");
    assert_eq!(post.message, "ul");
}

#[test]
fn members_that_are_no_strings_are_taken_as_rendered() {
    let post = msg_to_chatmessage("{\"data\":5,\"nick\":true}").unwrap();
    assert_eq!(post.message, "");
    assert_eq!(post.sender, "ru");
    let post = msg_to_chatmessage("{\"data\":1234,\"nick\":{\"b\":1,\"a\":[]}}").unwrap();
    assert_eq!(post.message, "23");
    assert_eq!(post.sender, "\"a\":[],\"b\":1");
}

#[test]
fn the_last_of_two_equal_keys_counts() {
    let post = msg_to_chatmessage("{\"data\":\"one\",\"data\":\"two\",\"nick\":\"n\"}").unwrap();
    assert_eq!(post.message, "two");
}

#[test]
fn malformed_payload_is_reported() {
    match msg_to_chatmessage("{not json") {
        Err(ChatError::MalformedPayload(detail)) => {
            assert_eq!(detail, "key must be a string at line 1 column 2");
        }
        other => panic!("unexpected: {:?}", other),
    }
    match msg_to_whispermessage("") {
        Err(ChatError::MalformedPayload(detail)) => {
            assert_eq!(detail, "EOF while parsing a value at line 1 column 0");
        }
        other => panic!("unexpected: {:?}", other),
    }
    match decode("MSG {\"data\":\"hi\"} trailing") {
        Some(Err(ChatError::MalformedPayload(detail))) => {
            assert_eq!(detail, "trailing characters at line 1 column 15");
        }
        other => panic!("unexpected: {:?}", other),
    }
}

#[test]
fn frames_with_other_tags_are_no_events() {
    assert!(decode("JOIN {\"nick\":\"bob\"}").is_none());
    assert!(decode("").is_none());
    assert!(decode("MSG").is_none());
    assert!(decode("{\"data\":\"hi\"}").is_none());
}

#[test]
fn encoded_post_is_read_back() {
    match decode(&encode_public("hello")) {
        Some(Ok(MessageType::ChatMessage(post))) => {
            assert_eq!(post.message, "hello");
            assert_eq!(post.sender, "ul");
        }
        other => panic!("unexpected: {:?}", other),
    }
}

#[test]
fn encoded_whisper_is_read_back() {
    match decode(&encode_private("bob", "psst")) {
        Some(Ok(MessageType::WhisperMessage(whisper))) => {
            assert_eq!(whisper.message, "psst");
            assert_eq!(whisper.sender, "bob");
            assert_eq!(whisper.receiver, "ul");
        }
        other => panic!("unexpected: {:?}", other),
    }
}

#[test]
fn encoded_post_with_a_quote_is_not_read_back() {
    match decode(&encode_public("say \"hi\"")) {
        Some(Err(ChatError::MalformedPayload(_))) => {}
        other => panic!("unexpected: {:?}", other),
    }
}

#[test]
fn a_copy_of_a_message_holds_the_same() {
    let post = chat_from_fields(&"\"bob\"".to_string(), &"\"hi\"".to_string());
    let copy = post.clone();
    assert_eq!(copy.sender, post.sender);
    assert_eq!(copy.message, post.message);
    let whisper = whisper_from_fields(
        &"\"alice\"".to_string(),
        &"\"bob\"".to_string(),
        &"\"yo\"".to_string(),
    );
    let copy = whisper.clone();
    assert_eq!(copy.sender, "alice");
    assert_eq!(copy.receiver, "bob");
    assert_eq!(copy.message, "yo");
}
