//! Alerts as the API returns them.

use vstd::prelude::*;

verus! {

/// An alert raised for the member who asks.
#[derive(Debug, Clone)]
pub struct AlertData {
    pub caused_member_id: u64,
    pub content_type: String,
    pub content_id: u64,
    pub alert_type: String,
    pub alert_date: u64,
}

impl AlertData {
    /// The member who caused the alert.
    pub fn caused_member_id(&self) -> (caused_member_id: &u64)
        ensures
            *caused_member_id == self.caused_member_id,
    {
        &self.caused_member_id
    }

    /// The kind of content that the alert is about.
    pub fn content_type(&self) -> (content_type: &String)
        ensures
            *content_type == self.content_type,
    {
        &self.content_type
    }

    /// The content that the alert is about.
    pub fn content_id(&self) -> (content_id: &u64)
        ensures
            *content_id == self.content_id,
    {
        &self.content_id
    }

    /// The kind of alert.
    pub fn alert_type(&self) -> (alert_type: &String)
        ensures
            *alert_type == self.alert_type,
    {
        &self.alert_type
    }

    /// When the alert was raised, as a UNIX timestamp.
    pub fn alert_date(&self) -> (alert_date: &u64)
        ensures
            *alert_date == self.alert_date,
    {
        &self.alert_date
    }
}

} // verus!
