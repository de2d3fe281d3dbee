//! Conversations.

use vstd::prelude::*;

verus! {

/// A conversation.
#[derive(Debug)]
pub struct Conversation {
    pub conversation_id: u64,
    pub title: String,
    pub creator_id: u64,
    pub start_date: u64,
    pub last_message_date: u64,
    pub last_read_date: u64,
    pub open: bool,
    pub reply_count: u64,
    pub recipient_ids: Vec<u64>,
}

impl Conversation {
    /// Returns the conversation's identifier.
    pub fn conversation_id(&self) -> (conversation_id: u64)
        ensures
            conversation_id == self.conversation_id,
    {
        self.conversation_id
    }

    /// Returns a reference to the conversation's title.
    pub fn title(&self) -> (title: &String)
        ensures
            *title == self.title,
    {
        &self.title
    }

    /// Returns the conversation creator's identifier.
    pub fn creator_id(&self) -> (creator_id: u64)
        ensures
            creator_id == self.creator_id,
    {
        self.creator_id
    }

    /// Returns the UNIX timestamp of when the conversation was created.
    pub fn start_date(&self) -> (start_date: u64)
        ensures
            start_date == self.start_date,
    {
        self.start_date
    }

    /// Returns the UNIX timestamp of when the last message was sent in the conversation.
    pub fn last_message_date(&self) -> (last_message_date: u64)
        ensures
            last_message_date == self.last_message_date,
    {
        self.last_message_date
    }

    /// Returns the UNIX timestamp of the latest message that the member who asks has read.
    pub fn last_read_date(&self) -> (last_read_date: u64)
        ensures
            last_read_date == self.last_read_date,
    {
        self.last_read_date
    }

    /// Returns whether the conversation is currently open.
    pub fn open(&self) -> (open: bool)
        ensures
            open == self.open,
    {
        self.open
    }

    /// Returns the number of replies within the conversation.
    pub fn reply_count(&self) -> (reply_count: u64)
        ensures
            reply_count == self.reply_count,
    {
        self.reply_count
    }

    /// Returns a reference to the list of the conversation's recipients, without the member who started it.
    pub fn recipient_ids(&self) -> (recipient_ids: &Vec<u64>)
        ensures
            *recipient_ids == self.recipient_ids,
    {
        &self.recipient_ids
    }
}

} // verus!
