//! Conversations and their replies as the API returns them.

use vstd::prelude::*;

verus! {

/// A conversation.
#[derive(Debug, Clone)]
pub struct ConversationData {
    pub conversation_id: u64,
    pub title: String,
    pub creation_date: u64,
    pub creator_id: u64,
    pub last_message_date: u64,
    pub last_read_date: u64,
    pub open: bool,
    pub reply_count: u64,
    pub recipient_ids: Vec<u64>,
}

impl ConversationData {
    /// The conversation's identifier.
    pub fn conversation_id(&self) -> (conversation_id: &u64)
        ensures
            *conversation_id == self.conversation_id,
    {
        &self.conversation_id
    }

    /// The conversation's title.
    pub fn title(&self) -> (title: &String)
        ensures
            *title == self.title,
    {
        &self.title
    }

    /// When the conversation was started, as a UNIX timestamp.
    pub fn creation_date(&self) -> (creation_date: &u64)
        ensures
            *creation_date == self.creation_date,
    {
        &self.creation_date
    }

    /// The member who started the conversation.
    pub fn creator_id(&self) -> (creator_id: &u64)
        ensures
            *creator_id == self.creator_id,
    {
        &self.creator_id
    }

    /// When the last message was sent, as a UNIX timestamp.
    pub fn last_message_date(&self) -> (last_message_date: &u64)
        ensures
            *last_message_date == self.last_message_date,
    {
        &self.last_message_date
    }

    /// When the member who asks last read the conversation, as a UNIX timestamp.
    pub fn last_read_date(&self) -> (last_read_date: &u64)
        ensures
            *last_read_date == self.last_read_date,
    {
        &self.last_read_date
    }

    /// Whether the conversation takes replies.
    pub fn open(&self) -> (open: &bool)
        ensures
            *open == self.open,
    {
        &self.open
    }

    /// The number of replies.
    pub fn reply_count(&self) -> (reply_count: &u64)
        ensures
            *reply_count == self.reply_count,
    {
        &self.reply_count
    }

    /// The recipients, without the member who started the conversation.
    pub fn recipient_ids(&self) -> (recipient_ids: &Vec<u64>)
        ensures
            *recipient_ids == self.recipient_ids,
    {
        &self.recipient_ids
    }
}

/// A reply within a conversation.
#[derive(Debug, Clone)]
pub struct ReplyData {
    pub message_id: u64,
    pub message_date: u64,
    pub author_id: u64,
    pub message: String,
}

impl ReplyData {
    /// The reply's identifier.
    pub fn message_id(&self) -> (message_id: &u64)
        ensures
            *message_id == self.message_id,
    {
        &self.message_id
    }

    /// When the reply was sent, as a UNIX timestamp.
    pub fn message_date(&self) -> (message_date: &u64)
        ensures
            *message_date == self.message_date,
    {
        &self.message_date
    }

    /// The member who wrote the reply.
    pub fn author_id(&self) -> (author_id: &u64)
        ensures
            *author_id == self.author_id,
    {
        &self.author_id
    }

    /// The reply's text.
    pub fn message(&self) -> (message: &String)
        ensures
            *message == self.message,
    {
        &self.message
    }
}

} // verus!
