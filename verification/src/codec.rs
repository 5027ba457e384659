//! Frames: a tag, then a JSON payload. Outbound frames are built by plain
//! interpolation, inbound ones are told apart by their tag and their fields
//! are taken from the payload as rendered text.

use vstd::prelude::*;
use vstd::string::StrSliceExecFns;
use vstd::string::StringExecFns;

use crate::error::ChatError;
use crate::error::ErrorView;
use crate::json::error_text;
use crate::json::field_text;
use crate::json::json_reading;
use crate::json::member_text;
use crate::json::parse;
use crate::message::ChatMessage;
use crate::message::ChatMessageView;
use crate::message::MessageType;
use crate::message::MessageTypeView;
use crate::message::WhisperMessage;
use crate::message::WhisperMessageView;
use crate::plain::view_of;
use crate::unquote::clean_received;
use crate::unquote::unquoted;

verus! {

/// The tag of a public post.
pub const PUBLIC_TAG: &'static str = "MSG ";

/// The tag of a whisper.
pub const PRIVATE_TAG: &'static str = "PRIVMSG ";

/// The payload of a post: a JSON object written around `message`. The text
/// is put between the quotes as it is, so a quote, a backslash or a control
/// character in it spoils the JSON.
pub open spec fn public_payload(message: Seq<char>) -> Seq<char> {
    "{\"data\":\""@ + message + "\"}"@
}

/// The payload of a whisper to `receiver`, written in the same way.
pub open spec fn private_payload(receiver: Seq<char>, message: Seq<char>) -> Seq<char> {
    "{\"nick\":\""@ + receiver + "\",\"data\":\""@ + message + "\"}"@
}

/// The frame that posts `message`.
pub open spec fn public_frame(message: Seq<char>) -> Seq<char> {
    PUBLIC_TAG@ + public_payload(message)
}

/// The frame that whispers `message` to `receiver`.
pub open spec fn private_frame(receiver: Seq<char>, message: Seq<char>) -> Seq<char> {
    PRIVATE_TAG@ + private_payload(receiver, message)
}

/// What follows `tag` in `frame`, where the frame begins with the tag.
pub open spec fn payload_after(tag: Seq<char>, frame: Seq<char>) -> Option<Seq<char>> {
    if tag.is_prefix_of(frame) {
        Some(frame.skip(tag.len() as int))
    } else {
        None
    }
}

/// Builds the frame for a public post. The text is not escaped: a quote, a
/// backslash or a control character in it goes into the frame as it is, and
/// the frame is then no longer what its receiver expects.
pub fn encode_public(message: &str) -> (frame: String)
    ensures
        frame@ == public_frame(message@),
{
    let mut frame = String::from_str(PUBLIC_TAG);
    frame.append("{\"data\":\"");
    frame.append(message);
    frame.append("\"}");
    frame
}

/// Builds the frame for a whisper. Neither the receiver nor the text is
/// escaped.
pub fn encode_private(receiver: &str, message: &str) -> (frame: String)
    ensures
        frame@ == private_frame(receiver@, message@),
{
    let mut frame = String::from_str(PRIVATE_TAG);
    frame.append("{\"nick\":\"");
    frame.append(receiver);
    frame.append("\",\"data\":\"");
    frame.append(message);
    frame.append("\"}");
    frame
}

/// Takes `tag` off the front of `frame`; `None` where the frame does not
/// begin with it. The tag is compared character by character.
pub fn strip_tag<'a>(frame: &'a str, tag: &str) -> (payload: Option<&'a str>)
    ensures
        match payload {
            Some(rest) => payload_after(tag@, frame@) == Some(rest@),
            None => payload_after(tag@, frame@) is None,
        },
{
    let tag_len: usize = tag.unicode_len();
    let frame_len: usize = frame.unicode_len();
    if frame_len < tag_len {
        return None;
    }
    let mut i: usize = 0;
    while i < tag_len
        invariant
            i <= tag_len <= frame_len,
            tag_len == tag@.len(),
            frame_len == frame@.len(),
            forall|j: int| 0 <= j < i ==> frame@[j] == tag@[j],
        decreases tag_len - i,
    {
        if frame.get_char(i) != tag.get_char(i) {
            assert(frame@.subrange(0, tag@.len() as int)[i as int] != tag@[i as int]);
            return None;
        }
        i += 1;
    }
    Some(frame.substring_char(tag_len, frame_len))
}

/// The public post that the members of a payload describe: the sender under
/// `nick`, the text under `data`, each rendered and stripped.
pub open spec fn chat_of(members: Map<Seq<char>, Seq<char>>) -> ChatMessageView {
    ChatMessageView {
        sender: unquoted(member_text(members, "nick"@)),
        message: unquoted(member_text(members, "data"@)),
    }
}

/// The whisper that the members of a payload describe: as a public post, with
/// the receiver under `nickTarget`.
pub open spec fn whisper_of(members: Map<Seq<char>, Seq<char>>) -> WhisperMessageView {
    WhisperMessageView {
        sender: unquoted(member_text(members, "nick"@)),
        receiver: unquoted(member_text(members, "nickTarget"@)),
        message: unquoted(member_text(members, "data"@)),
    }
}

/// What decoding the payload of a public frame gives.
pub open spec fn chat_decoding(payload: Seq<char>) -> Result<ChatMessageView, ErrorView> {
    match json_reading(payload) {
        Ok(members) => Ok(chat_of(members)),
        Err(message) => Err(ErrorView::MalformedPayload(message)),
    }
}

/// What decoding the payload of a private frame gives.
pub open spec fn whisper_decoding(payload: Seq<char>) -> Result<WhisperMessageView, ErrorView> {
    match json_reading(payload) {
        Ok(members) => Ok(whisper_of(members)),
        Err(message) => Err(ErrorView::MalformedPayload(message)),
    }
}

/// What decoding a whole frame gives: nothing for a frame with neither tag.
pub open spec fn decoding(frame: Seq<char>) -> Option<Result<MessageTypeView, ErrorView>> {
    match payload_after(PUBLIC_TAG@, frame) {
        Some(payload) => Some(
            match chat_decoding(payload) {
                Ok(m) => Ok(MessageTypeView::ChatMessage(m)),
                Err(e) => Err(e),
            },
        ),
        None => match payload_after(PRIVATE_TAG@, frame) {
            Some(payload) => Some(
                match whisper_decoding(payload) {
                    Ok(w) => Ok(MessageTypeView::WhisperMessage(w)),
                    Err(e) => Err(e),
                },
            ),
            None => None,
        },
    }
}

/// The public post with the given rendered fields, each stripped of its first
/// and last character.
pub fn chat_from_fields(nick: &String, data: &String) -> (post: ChatMessage)
    ensures
        post@ == (ChatMessageView { sender: unquoted(nick@), message: unquoted(data@) }),
{
    ChatMessage {
        message: clean_received(data).to_owned(),
        sender: clean_received(nick).to_owned(),
    }
}

/// The whisper with the given rendered fields, each stripped of its first and
/// last character.
pub fn whisper_from_fields(nick: &String, nick_target: &String, data: &String) -> (whisper:
    WhisperMessage)
    ensures
        whisper@ == (WhisperMessageView {
            sender: unquoted(nick@),
            receiver: unquoted(nick_target@),
            message: unquoted(data@),
        }),
{
    WhisperMessage {
        message: clean_received(data).to_owned(),
        sender: clean_received(nick).to_owned(),
        receiver: clean_received(nick_target).to_owned(),
    }
}

/// Decodes the payload of a public frame. Fails exactly where the payload is
/// no JSON. A member that is missing, or no string, is taken as it renders,
/// and one that renders too short to be stripped is taken as empty.
pub fn msg_to_chatmessage(payload: &str) -> (decoded: Result<ChatMessage, ChatError>)
    ensures
        view_of(decoded) == chat_decoding(payload@),
{
    match parse(payload) {
        Ok(value) => {
            let data = field_text(&value, "data");
            let nick = field_text(&value, "nick");
            Ok(chat_from_fields(&nick, &data))
        },
        Err(error) => Err(ChatError::MalformedPayload(error_text(&error))),
    }
}

/// Decodes the payload of a private frame, in the same way.
pub fn msg_to_whispermessage(payload: &str) -> (decoded: Result<WhisperMessage, ChatError>)
    ensures
        view_of(decoded) == whisper_decoding(payload@),
{
    match parse(payload) {
        Ok(value) => {
            let data = field_text(&value, "data");
            let nick = field_text(&value, "nick");
            let nick_target = field_text(&value, "nickTarget");
            Ok(whisper_from_fields(&nick, &nick_target, &data))
        },
        Err(error) => Err(ChatError::MalformedPayload(error_text(&error))),
    }
}

/// Decodes a frame by its tag. `None` for a frame that carries neither tag.
pub fn decode(frame: &str) -> (event: Option<Result<MessageType, ChatError>>)
    ensures
        match event {
            Some(decoded) => decoding(frame@) == Some(view_of(decoded)),
            None => decoding(frame@) is None,
        },
{
    match strip_tag(frame, PUBLIC_TAG) {
        Some(payload) => match msg_to_chatmessage(payload) {
            Ok(post) => Some(Ok(MessageType::ChatMessage(post))),
            Err(e) => Some(Err(e)),
        },
        None => match strip_tag(frame, PRIVATE_TAG) {
            Some(payload) => match msg_to_whispermessage(payload) {
                Ok(whisper) => Some(Ok(MessageType::WhisperMessage(whisper))),
                Err(e) => Some(Err(e)),
            },
            None => None,
        },
    }
}

} // verus!
