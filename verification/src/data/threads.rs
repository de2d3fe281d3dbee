//! Threads and their replies as the API returns them.

use vstd::prelude::*;

verus! {

/// A thread as a listing shows it.
#[derive(Debug, Clone)]
pub struct BasicThreadData {
    pub thread_id: u64,
    pub title: String,
    pub reply_count: u64,
    pub view_count: u64,
    pub creation_date: u64,
    pub last_message_date: u64,
}

impl BasicThreadData {
    /// The thread's identifier.
    pub fn thread_id(&self) -> (thread_id: &u64)
        ensures
            *thread_id == self.thread_id,
    {
        &self.thread_id
    }

    /// The thread's title.
    pub fn title(&self) -> (title: &String)
        ensures
            *title == self.title,
    {
        &self.title
    }

    /// The number of replies.
    pub fn reply_count(&self) -> (reply_count: &u64)
        ensures
            *reply_count == self.reply_count,
    {
        &self.reply_count
    }

    /// The number of views.
    pub fn view_count(&self) -> (view_count: &u64)
        ensures
            *view_count == self.view_count,
    {
        &self.view_count
    }

    /// When the thread was created, as a UNIX timestamp.
    pub fn creation_date(&self) -> (creation_date: &u64)
        ensures
            *creation_date == self.creation_date,
    {
        &self.creation_date
    }

    /// When the last message was posted, as a UNIX timestamp.
    pub fn last_message_date(&self) -> (last_message_date: &u64)
        ensures
            *last_message_date == self.last_message_date,
    {
        &self.last_message_date
    }
}

/// A thread.
#[derive(Debug, Clone)]
pub struct ThreadData {
    pub thread_id: u64,
    pub forum_name: String,
    pub title: String,
    pub reply_count: u64,
    pub view_count: u64,
    pub post_date: u64,
    pub thread_type: String,
    pub thread_open: bool,
    pub last_post_date: u64,
}

impl ThreadData {
    /// The thread's identifier.
    pub fn thread_id(&self) -> (thread_id: &u64)
        ensures
            *thread_id == self.thread_id,
    {
        &self.thread_id
    }

    /// The name of the forum that holds the thread.
    pub fn forum_name(&self) -> (forum_name: &String)
        ensures
            *forum_name == self.forum_name,
    {
        &self.forum_name
    }

    /// The thread's title.
    pub fn title(&self) -> (title: &String)
        ensures
            *title == self.title,
    {
        &self.title
    }

    /// The number of replies.
    pub fn reply_count(&self) -> (reply_count: &u64)
        ensures
            *reply_count == self.reply_count,
    {
        &self.reply_count
    }

    /// The number of views.
    pub fn view_count(&self) -> (view_count: &u64)
        ensures
            *view_count == self.view_count,
    {
        &self.view_count
    }

    /// When the thread was posted, as a UNIX timestamp.
    pub fn post_date(&self) -> (post_date: &u64)
        ensures
            *post_date == self.post_date,
    {
        &self.post_date
    }

    /// The kind of thread.
    pub fn thread_type(&self) -> (thread_type: &String)
        ensures
            *thread_type == self.thread_type,
    {
        &self.thread_type
    }

    /// Whether the thread takes replies.
    pub fn thread_open(&self) -> (thread_open: &bool)
        ensures
            *thread_open == self.thread_open,
    {
        &self.thread_open
    }

    /// When the last post was made, as a UNIX timestamp.
    pub fn last_post_date(&self) -> (last_post_date: &u64)
        ensures
            *last_post_date == self.last_post_date,
    {
        &self.last_post_date
    }
}

/// A reply within a thread.
#[derive(Debug, Clone)]
pub struct ReplyData {
    pub reply_id: u64,
    pub author_id: u64,
    pub post_date: u64,
    pub message: String,
}

impl ReplyData {
    /// The reply's identifier.
    pub fn reply_id(&self) -> (reply_id: &u64)
        ensures
            *reply_id == self.reply_id,
    {
        &self.reply_id
    }

    /// The member who wrote the reply.
    pub fn author_id(&self) -> (author_id: &u64)
        ensures
            *author_id == self.author_id,
    {
        &self.author_id
    }

    /// When the reply was posted, as a UNIX timestamp.
    pub fn post_date(&self) -> (post_date: &u64)
        ensures
            *post_date == self.post_date,
    {
        &self.post_date
    }

    /// The reply's text.
    pub fn message(&self) -> (message: &String)
        ensures
            *message == self.message,
    {
        &self.message
    }
}

} // verus!
