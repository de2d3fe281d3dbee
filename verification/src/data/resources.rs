//! What belongs to a resource, as the API returns it, and the bodies of the
//! requests that change it.

use vstd::prelude::*;

verus! {

/// A download of a resource.
#[derive(Debug, Clone)]
pub struct DownloadData {
    pub download_id: u64,
    pub version_id: u64,
    pub downloader_id: u64,
    pub download_date: u64,
}

impl DownloadData {
    /// The download's identifier.
    pub fn download_id(&self) -> (download_id: &u64)
        ensures
            *download_id == self.download_id,
    {
        &self.download_id
    }

    /// The version that was downloaded.
    pub fn version_id(&self) -> (version_id: &u64)
        ensures
            *version_id == self.version_id,
    {
        &self.version_id
    }

    /// The member who downloaded it.
    pub fn downloader_id(&self) -> (downloader_id: &u64)
        ensures
            *downloader_id == self.downloader_id,
    {
        &self.downloader_id
    }

    /// When it was downloaded, as a UNIX timestamp.
    pub fn download_date(&self) -> (download_date: &u64)
        ensures
            *download_date == self.download_date,
    {
        &self.download_date
    }
}

/// A review of a resource.
#[derive(Debug, Clone)]
pub struct ReviewData {
    pub review_id: u64,
    pub reviewer_id: u64,
    pub review_date: u64,
    pub rating: u8,
    pub message: String,
    pub response: String,
}

impl ReviewData {
    /// The review's identifier.
    pub fn review_id(&self) -> (review_id: &u64)
        ensures
            *review_id == self.review_id,
    {
        &self.review_id
    }

    /// The member who wrote the review.
    pub fn reviewer_id(&self) -> (reviewer_id: &u64)
        ensures
            *reviewer_id == self.reviewer_id,
    {
        &self.reviewer_id
    }

    /// When the review was written, as a UNIX timestamp.
    pub fn review_date(&self) -> (review_date: &u64)
        ensures
            *review_date == self.review_date,
    {
        &self.review_date
    }

    /// The rating given.
    pub fn rating(&self) -> (rating: &u8)
        ensures
            *rating == self.rating,
    {
        &self.rating
    }

    /// The review's text.
    pub fn message(&self) -> (message: &String)
        ensures
            *message == self.message,
    {
        &self.message
    }

    /// The author's response to the review.
    pub fn response(&self) -> (response: &String)
        ensures
            *response == self.response,
    {
        &self.response
    }
}

/// An update of a resource.
#[derive(Debug, Clone)]
pub struct UpdateData {
    pub update_id: u64,
    pub title: String,
    pub message: String,
    pub update_date: u64,
}

impl UpdateData {
    /// The update's identifier.
    pub fn update_id(&self) -> (update_id: &u64)
        ensures
            *update_id == self.update_id,
    {
        &self.update_id
    }

    /// The update's title.
    pub fn title(&self) -> (title: &String)
        ensures
            *title == self.title,
    {
        &self.title
    }

    /// The update's text.
    pub fn message(&self) -> (message: &String)
        ensures
            *message == self.message,
    {
        &self.message
    }

    /// When the update was posted, as a UNIX timestamp.
    pub fn update_date(&self) -> (update_date: &u64)
        ensures
            *update_date == self.update_date,
    {
        &self.update_date
    }
}

/// A version of a resource.
#[derive(Debug, Clone)]
pub struct VersionData {
    pub version_id: u64,
    pub name: String,
    pub release_date: u64,
    pub download_count: u64,
}

impl VersionData {
    /// The version's identifier.
    pub fn version_id(&self) -> (version_id: &u64)
        ensures
            *version_id == self.version_id,
    {
        &self.version_id
    }

    /// The version's name.
    pub fn name(&self) -> (name: &String)
        ensures
            *name == self.name,
    {
        &self.name
    }

    /// When the version was released, as a UNIX timestamp.
    pub fn release_date(&self) -> (release_date: &u64)
        ensures
            *release_date == self.release_date,
    {
        &self.release_date
    }

    /// The number of downloads of the version.
    pub fn download_count(&self) -> (download_count: &u64)
        ensures
            *download_count == self.download_count,
    {
        &self.download_count
    }
}

/// A license for a resource.
#[derive(Debug, Clone)]
pub struct LicenseData {
    pub license_id: u64,
    pub purchaser_id: u64,
    pub validated: bool,
    pub active: bool,
    pub permanent: bool,
    pub start_date: u64,
    pub end_date: u64,
    pub previous_end_date: u64,
}

impl LicenseData {
    /// The license's identifier.
    pub fn license_id(&self) -> (license_id: &u64)
        ensures
            *license_id == self.license_id,
    {
        &self.license_id
    }

    /// The member who holds the license.
    pub fn purchaser_id(&self) -> (purchaser_id: &u64)
        ensures
            *purchaser_id == self.purchaser_id,
    {
        &self.purchaser_id
    }

    /// Whether the license was validated.
    pub fn validated(&self) -> (validated: &bool)
        ensures
            *validated == self.validated,
    {
        &self.validated
    }

    /// Whether the license is active.
    pub fn active(&self) -> (active: &bool)
        ensures
            *active == self.active,
    {
        &self.active
    }

    /// Whether the license is permanent.
    pub fn permanent(&self) -> (permanent: &bool)
        ensures
            *permanent == self.permanent,
    {
        &self.permanent
    }

    /// When the license starts, as a UNIX timestamp.
    pub fn start_date(&self) -> (start_date: &u64)
        ensures
            *start_date == self.start_date,
    {
        &self.start_date
    }

    /// When the license ends, as a UNIX timestamp.
    pub fn end_date(&self) -> (end_date: &u64)
        ensures
            *end_date == self.end_date,
    {
        &self.end_date
    }

    /// When the license ended before it was last changed, as a UNIX timestamp.
    pub fn previous_end_date(&self) -> (previous_end_date: &u64)
        ensures
            *previous_end_date == self.previous_end_date,
    {
        &self.previous_end_date
    }
}

/// What to issue a permanent license with.
#[derive(Debug)]
pub struct LicenseIssuePermData {
    pub purchaser_id: u64,
    pub permanent: bool,
    pub active: bool,
}

impl Default for LicenseIssuePermData {
    fn default() -> (value: Self)
        ensures
            value.purchaser_id == 0,
            value.permanent == false,
            value.active == false,
    {
        LicenseIssuePermData { purchaser_id: 0, permanent: false, active: false }
    }
}

/// What to issue a temporary license with.
#[derive(Debug)]
pub struct LicenseIssueTempData {
    pub purchaser_id: u64,
    pub permanent: bool,
    pub start_date: u64,
    pub end_date: u64,
}

impl Default for LicenseIssueTempData {
    fn default() -> (value: Self)
        ensures
            value.purchaser_id == 0,
            value.permanent == false,
            value.start_date == 0,
            value.end_date == 0,
    {
        LicenseIssueTempData { purchaser_id: 0, permanent: false, start_date: 0, end_date: 0 }
    }
}

/// What to change a permanent license to.
#[derive(Debug)]
pub struct LicenseModifyPermData {
    pub permanent: bool,
    pub active: bool,
}

impl Default for LicenseModifyPermData {
    fn default() -> (value: Self)
        ensures
            value.permanent == false,
            value.active == false,
    {
        LicenseModifyPermData { permanent: false, active: false }
    }
}

/// What to change a temporary license to.
#[derive(Debug)]
pub struct LicenseModifyTempData {
    pub permanent: bool,
    pub start_date: u64,
    pub end_date: u64,
}

impl Default for LicenseModifyTempData {
    fn default() -> (value: Self)
        ensures
            value.permanent == false,
            value.start_date == 0,
            value.end_date == 0,
    {
        LicenseModifyTempData { permanent: false, start_date: 0, end_date: 0 }
    }
}

/// The changes to make to a resource; a field that is not set is left as it is.
#[derive(Debug)]
pub struct ResourceModifyData<'a> {
    pub title: Option<&'a str>,
    pub tag_line: Option<&'a str>,
    pub description: Option<&'a str>,
}

impl<'a> Default for ResourceModifyData<'a> {
    fn default() -> (value: Self)
        ensures
            value.title is None,
            value.tag_line is None,
            value.description is None,
    {
        ResourceModifyData { title: None, tag_line: None, description: None }
    }
}

} // verus!
