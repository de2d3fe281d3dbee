//! Threads and their replies.

use vstd::prelude::*;

verus! {

/// A thread as a listing shows it.
#[derive(Debug)]
pub struct BasicThread {
    pub thread_id: u64,
    pub title: String,
    pub reply_count: u64,
    pub view_count: u64,
    pub creation_date: u64,
    pub last_message_date: u64,
}

impl BasicThread {
    /// Returns the identifier of the thread.
    pub fn thread_id(&self) -> (thread_id: u64)
        ensures
            thread_id == self.thread_id,
    {
        self.thread_id
    }

    /// Returns the title of the thread.
    pub fn title(&self) -> (title: &str)
        ensures
            title@ == self.title@,
    {
        self.title.as_str()
    }

    /// Returns the reply count of the thread.
    pub fn reply_count(&self) -> (reply_count: u64)
        ensures
            reply_count == self.reply_count,
    {
        self.reply_count
    }

    /// Returns the view count of the thread.
    pub fn view_count(&self) -> (view_count: u64)
        ensures
            view_count == self.view_count,
    {
        self.view_count
    }

    /// Returns the creation date of the thread.
    pub fn creation_date(&self) -> (creation_date: u64)
        ensures
            creation_date == self.creation_date,
    {
        self.creation_date
    }

    /// Returns the last message date of the thread.
    pub fn last_message_date(&self) -> (last_message_date: u64)
        ensures
            last_message_date == self.last_message_date,
    {
        self.last_message_date
    }
}

/// A thread.
#[derive(Debug)]
pub struct Thread {
    pub thread_id: u64,
    pub forum_name: String,
    pub title: String,
    pub reply_count: u64,
    pub view_count: u64,
    pub post_date: u64,
    pub thread_type: String,
    pub thread_open: bool,
    pub last_post_date: u64,
}

impl Thread {
    /// Returns the identifier of the thread.
    pub fn thread_id(&self) -> (thread_id: u64)
        ensures
            thread_id == self.thread_id,
    {
        self.thread_id
    }

    /// Returns the name of the forum where the thread is located.
    pub fn forum_name(&self) -> (forum_name: &str)
        ensures
            forum_name@ == self.forum_name@,
    {
        self.forum_name.as_str()
    }

    /// Returns the title of the thread.
    pub fn title(&self) -> (title: &str)
        ensures
            title@ == self.title@,
    {
        self.title.as_str()
    }

    /// Returns the reply count of the thread.
    pub fn reply_count(&self) -> (reply_count: u64)
        ensures
            reply_count == self.reply_count,
    {
        self.reply_count
    }

    /// Returns the view count of the thread.
    pub fn view_count(&self) -> (view_count: u64)
        ensures
            view_count == self.view_count,
    {
        self.view_count
    }

    /// Returns the post date of the thread.
    pub fn post_date(&self) -> (post_date: u64)
        ensures
            post_date == self.post_date,
    {
        self.post_date
    }

    /// Returns the type of the thread.
    pub fn thread_type(&self) -> (thread_type: &str)
        ensures
            thread_type@ == self.thread_type@,
    {
        self.thread_type.as_str()
    }

    /// Returns whether or not the thread is open for replies.
    pub fn thread_open(&self) -> (thread_open: bool)
        ensures
            thread_open == self.thread_open,
    {
        self.thread_open
    }

    /// Returns the last post date of the thread.
    pub fn last_post_date(&self) -> (last_post_date: u64)
        ensures
            last_post_date == self.last_post_date,
    {
        self.last_post_date
    }
}

/// A reply within a thread.
#[derive(Debug)]
pub struct Reply {
    pub reply_id: u64,
    pub author_id: u64,
    pub post_date: u64,
    pub message: String,
    pub like_count: u64,
}

impl Reply {
    /// Returns the identifier of the reply.
    pub fn reply_id(&self) -> (reply_id: u64)
        ensures
            reply_id == self.reply_id,
    {
        self.reply_id
    }

    /// Returns the identifier of the reply's author.
    pub fn author_id(&self) -> (author_id: u64)
        ensures
            author_id == self.author_id,
    {
        self.author_id
    }

    /// Returns the post date of the reply.
    pub fn post_date(&self) -> (post_date: u64)
        ensures
            post_date == self.post_date,
    {
        self.post_date
    }

    /// Returns the message content of the reply.
    pub fn message(&self) -> (message: &str)
        ensures
            message@ == self.message@,
    {
        self.message.as_str()
    }

    /// Returns the like count of the reply.
    pub fn like_count(&self) -> (like_count: u64)
        ensures
            like_count == self.like_count,
    {
        self.like_count
    }
}

} // verus!
