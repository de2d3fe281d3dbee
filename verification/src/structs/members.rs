//! Members.

use vstd::prelude::*;

verus! {

/// A member.
#[derive(Debug)]
pub struct Member {
    pub member_id: u64,
    pub username: String,
    pub join_date: u64,
    pub last_activity_date: Option<u64>,
    pub gender: Option<String>,
    pub timezone: Option<String>,
    pub banned: bool,
    pub suspended: bool,
    pub restricted: bool,
    pub disabled: bool,
    pub post_count: u64,
    pub resource_count: u64,
    pub purchase_count: u64,
    pub feedback_positive: u64,
    pub feedback_neutral: u64,
    pub feedback_negative: u64,
}

impl Member {
    /// Returns the member's identifier.
    pub fn member_id(&self) -> (member_id: &u64)
        ensures
            *member_id == self.member_id,
    {
        &self.member_id
    }

    /// Returns the member's name.
    pub fn username(&self) -> (username: &String)
        ensures
            *username == self.username,
    {
        &self.username
    }

    /// Returns when the member joined, as a UNIX timestamp.
    pub fn join_date(&self) -> (join_date: &u64)
        ensures
            *join_date == self.join_date,
    {
        &self.join_date
    }

    /// Returns when the member was last active, as a UNIX timestamp, where that is shown.
    pub fn last_activity_date(&self) -> (last_activity_date: Option<&u64>)
        ensures
            last_activity_date is Some == self.last_activity_date is Some,
            last_activity_date matches Some(value) ==> Some(*value) == self.last_activity_date,
    {
        self.last_activity_date.as_ref()
    }

    /// Returns the member's gender, where it is shown.
    pub fn gender(&self) -> (gender: Option<&String>)
        ensures
            gender is Some == self.gender is Some,
            gender matches Some(value) ==> Some(*value) == self.gender,
    {
        self.gender.as_ref()
    }

    /// Returns the member's time zone, where it is shown.
    pub fn timezone(&self) -> (timezone: Option<&String>)
        ensures
            timezone is Some == self.timezone is Some,
            timezone matches Some(value) ==> Some(*value) == self.timezone,
    {
        self.timezone.as_ref()
    }

    /// Returns whether the member is banned.
    pub fn banned(&self) -> (banned: &bool)
        ensures
            *banned == self.banned,
    {
        &self.banned
    }

    /// Returns whether the member is suspended.
    pub fn suspended(&self) -> (suspended: &bool)
        ensures
            *suspended == self.suspended,
    {
        &self.suspended
    }

    /// Returns whether the member is restricted.
    pub fn restricted(&self) -> (restricted: &bool)
        ensures
            *restricted == self.restricted,
    {
        &self.restricted
    }

    /// Returns whether the member's account is disabled.
    pub fn disabled(&self) -> (disabled: &bool)
        ensures
            *disabled == self.disabled,
    {
        &self.disabled
    }

    /// Returns the number of the member's posts.
    pub fn post_count(&self) -> (post_count: &u64)
        ensures
            *post_count == self.post_count,
    {
        &self.post_count
    }

    /// Returns the number of the member's resources.
    pub fn resource_count(&self) -> (resource_count: &u64)
        ensures
            *resource_count == self.resource_count,
    {
        &self.resource_count
    }

    /// Returns the number of the member's purchases.
    pub fn purchase_count(&self) -> (purchase_count: &u64)
        ensures
            *purchase_count == self.purchase_count,
    {
        &self.purchase_count
    }

    /// Returns the number of positive feedbacks.
    pub fn feedback_positive(&self) -> (feedback_positive: &u64)
        ensures
            *feedback_positive == self.feedback_positive,
    {
        &self.feedback_positive
    }

    /// Returns the number of neutral feedbacks.
    pub fn feedback_neutral(&self) -> (feedback_neutral: &u64)
        ensures
            *feedback_neutral == self.feedback_neutral,
    {
        &self.feedback_neutral
    }

    /// Returns the number of negative feedbacks.
    pub fn feedback_negative(&self) -> (feedback_negative: &u64)
        ensures
            *feedback_negative == self.feedback_negative,
    {
        &self.feedback_negative
    }

    /// The positive feedbacks less the negative ones.
    pub open spec fn feedback_balance(self) -> int {
        self.feedback_positive - self.feedback_negative
    }

    /// Returns the positive feedbacks less the negative ones, for a member
    /// with no more negative feedbacks than positive ones.
    pub fn feedback_total(&self) -> (total: u64)
        requires
            self.feedback_negative <= self.feedback_positive,
        ensures
            total == self.feedback_balance(),
    {
        self.feedback_positive - self.feedback_negative
    }

    /// Returns the positive feedbacks less the negative ones, or `None` for a
    /// member with more negative feedbacks than positive ones.
    pub fn checked_feedback_total(&self) -> (total: Option<u64>)
        ensures
            total == if self.feedback_negative <= self.feedback_positive {
                Some(self.feedback_balance() as u64)
            } else {
                None
            },
    {
        if self.feedback_negative <= self.feedback_positive {
            Some(self.feedback_total())
        } else {
            None
        }
    }
}

} // verus!
