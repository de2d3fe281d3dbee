//! Members, profile posts and bans as the API returns them.

use vstd::prelude::*;

verus! {

/// A member.
#[derive(Debug, Clone)]
pub struct MemberData {
    pub member_id: u64,
    pub username: String,
    pub join_date: u64,
    pub last_activity_date: Option<u64>,
    pub banned: bool,
    pub suspended: bool,
    pub restricted: bool,
    pub disabled: bool,
    pub post_count: u64,
    pub resource_count: u64,
    pub purchase_count: u64,
    pub feedback_positive: u64,
    pub feedback_neutral: u64,
    pub feedback_negative: u64,
}

impl MemberData {
    /// The member's identifier.
    pub fn member_id(&self) -> (member_id: &u64)
        ensures
            *member_id == self.member_id,
    {
        &self.member_id
    }

    /// The member's name.
    pub fn username(&self) -> (username: &String)
        ensures
            *username == self.username,
    {
        &self.username
    }

    /// When the member joined, as a UNIX timestamp.
    pub fn join_date(&self) -> (join_date: &u64)
        ensures
            *join_date == self.join_date,
    {
        &self.join_date
    }

    /// When the member was last active, as a UNIX timestamp, where that is shown.
    pub fn last_activity_date(&self) -> (last_activity_date: &Option<u64>)
        ensures
            *last_activity_date == self.last_activity_date,
    {
        &self.last_activity_date
    }

    /// Whether the member is banned.
    pub fn banned(&self) -> (banned: &bool)
        ensures
            *banned == self.banned,
    {
        &self.banned
    }

    /// Whether the member is suspended.
    pub fn suspended(&self) -> (suspended: &bool)
        ensures
            *suspended == self.suspended,
    {
        &self.suspended
    }

    /// Whether the member is restricted.
    pub fn restricted(&self) -> (restricted: &bool)
        ensures
            *restricted == self.restricted,
    {
        &self.restricted
    }

    /// Whether the member's account is disabled.
    pub fn disabled(&self) -> (disabled: &bool)
        ensures
            *disabled == self.disabled,
    {
        &self.disabled
    }

    /// The number of the member's posts.
    pub fn post_count(&self) -> (post_count: &u64)
        ensures
            *post_count == self.post_count,
    {
        &self.post_count
    }

    /// The number of the member's resources.
    pub fn resource_count(&self) -> (resource_count: &u64)
        ensures
            *resource_count == self.resource_count,
    {
        &self.resource_count
    }

    /// The number of the member's purchases.
    pub fn purchase_count(&self) -> (purchase_count: &u64)
        ensures
            *purchase_count == self.purchase_count,
    {
        &self.purchase_count
    }

    /// The number of positive feedbacks.
    pub fn feedback_positive(&self) -> (feedback_positive: &u64)
        ensures
            *feedback_positive == self.feedback_positive,
    {
        &self.feedback_positive
    }

    /// The number of neutral feedbacks.
    pub fn feedback_neutral(&self) -> (feedback_neutral: &u64)
        ensures
            *feedback_neutral == self.feedback_neutral,
    {
        &self.feedback_neutral
    }

    /// The number of negative feedbacks.
    pub fn feedback_negative(&self) -> (feedback_negative: &u64)
        ensures
            *feedback_negative == self.feedback_negative,
    {
        &self.feedback_negative
    }
}

/// A post on a member's profile.
#[derive(Debug, Clone)]
pub struct ProfilePostData {
    pub profile_post_id: u64,
    pub author_id: u64,
    pub post_date: u64,
    pub message: String,
    pub comment_count: u64,
}

impl ProfilePostData {
    /// The post's identifier.
    pub fn profile_post_id(&self) -> (profile_post_id: &u64)
        ensures
            *profile_post_id == self.profile_post_id,
    {
        &self.profile_post_id
    }

    /// The member who wrote the post.
    pub fn author_id(&self) -> (author_id: &u64)
        ensures
            *author_id == self.author_id,
    {
        &self.author_id
    }

    /// When the post was written, as a UNIX timestamp.
    pub fn post_date(&self) -> (post_date: &u64)
        ensures
            *post_date == self.post_date,
    {
        &self.post_date
    }

    /// The post's text.
    pub fn message(&self) -> (message: &String)
        ensures
            *message == self.message,
    {
        &self.message
    }

    /// The number of comments on the post.
    pub fn comment_count(&self) -> (comment_count: &u64)
        ensures
            *comment_count == self.comment_count,
    {
        &self.comment_count
    }
}

/// A ban.
#[derive(Debug, Clone)]
pub struct BanData {
    pub member_id: u64,
    pub banned_by_id: u64,
    pub ban_date: u64,
    pub reason: String,
}

impl BanData {
    /// The member who was banned.
    pub fn member_id(&self) -> (member_id: &u64)
        ensures
            *member_id == self.member_id,
    {
        &self.member_id
    }

    /// The member who imposed the ban.
    pub fn banned_by_id(&self) -> (banned_by_id: &u64)
        ensures
            *banned_by_id == self.banned_by_id,
    {
        &self.banned_by_id
    }

    /// When the ban was imposed, as a UNIX timestamp.
    pub fn ban_date(&self) -> (ban_date: &u64)
        ensures
            *ban_date == self.ban_date,
    {
        &self.ban_date
    }

    /// The reason given for the ban.
    pub fn reason(&self) -> (reason: &String)
        ensures
            *reason == self.reason,
    {
        &self.reason
    }
}

/// The changes to make to the profile of the member who asks; a field that is not set is left as it is.
#[derive(Debug)]
pub struct ModifySelfBody<'a> {
    pub custom_title: Option<&'a str>,
    pub about_me: Option<&'a str>,
    pub signature: Option<&'a str>,
}

impl<'a> Default for ModifySelfBody<'a> {
    fn default() -> (value: Self)
        ensures
            value.custom_title is None,
            value.about_me is None,
            value.signature is None,
    {
        ModifySelfBody { custom_title: None, about_me: None, signature: None }
    }
}

} // verus!
