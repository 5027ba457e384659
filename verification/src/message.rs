//! The events that the service sends: public posts and private whispers.

use vstd::prelude::*;

verus! {

/// A post on the public channel.
#[derive(Debug)]
pub struct ChatMessage {
    pub sender: String,
    pub message: String,
}

/// A message sent to one user alone.
#[derive(Debug)]
pub struct WhisperMessage {
    pub sender: String,
    pub receiver: String,
    pub message: String,
}

/// Any event that a frame can carry.
#[derive(Debug)]
pub enum MessageType {
    ChatMessage(ChatMessage),
    WhisperMessage(WhisperMessage),
}

/// A public post as plain text.
pub struct ChatMessageView {
    pub sender: Seq<char>,
    pub message: Seq<char>,
}

/// A whisper as plain text.
pub struct WhisperMessageView {
    pub sender: Seq<char>,
    pub receiver: Seq<char>,
    pub message: Seq<char>,
}

/// An event as plain text.
pub enum MessageTypeView {
    ChatMessage(ChatMessageView),
    WhisperMessage(WhisperMessageView),
}

impl View for ChatMessage {
    type V = ChatMessageView;

    open spec fn view(&self) -> ChatMessageView {
        ChatMessageView { sender: self.sender@, message: self.message@ }
    }
}

impl View for WhisperMessage {
    type V = WhisperMessageView;

    open spec fn view(&self) -> WhisperMessageView {
        WhisperMessageView {
            sender: self.sender@,
            receiver: self.receiver@,
            message: self.message@,
        }
    }
}

impl View for MessageType {
    type V = MessageTypeView;

    open spec fn view(&self) -> MessageTypeView {
        match self {
            MessageType::ChatMessage(m) => MessageTypeView::ChatMessage(m@),
            MessageType::WhisperMessage(w) => MessageTypeView::WhisperMessage(w@),
        }
    }
}

impl Clone for ChatMessage {
    fn clone(&self) -> (copy: Self)
        ensures
            copy@ == self@,
    {
        ChatMessage { sender: self.sender.clone(), message: self.message.clone() }
    }
}

impl Clone for WhisperMessage {
    fn clone(&self) -> (copy: Self)
        ensures
            copy@ == self@,
    {
        WhisperMessage {
            sender: self.sender.clone(),
            receiver: self.receiver.clone(),
            message: self.message.clone(),
        }
    }
}

} // verus!
