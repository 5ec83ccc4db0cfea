use vstd::prelude::*;

verus! {

/// Who wrote a chat message.
#[derive(Debug, Clone, Copy, PartialEq, Eq, Structural)]
pub enum MessageRole {
    User,
    Assistant,
}

/// One message of a conversation.
#[derive(Debug, Clone, PartialEq)]
pub struct Message {
    pub id: u64,
    pub role: MessageRole,
    pub content: String,
}

/// A message as the contracts see it: its text as characters.
pub struct MessageView {
    pub id: u64,
    pub role: MessageRole,
    pub content: Seq<char>,
}

impl View for Message {
    type V = MessageView;

    open spec fn view(&self) -> MessageView {
        MessageView { id: self.id, role: self.role, content: self.content@ }
    }
}

/// The summary of a stored chat, as listed in the chat history.
#[derive(Debug, Clone)]
pub struct ChatSummary {
    pub unid: String,
    pub title: String,
    pub preview: String,
    pub message_count: u32,
    pub mode: String,
    pub created_at: String,
}

} // verus!
