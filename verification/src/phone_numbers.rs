//! Types for managing business phone numbers

use vstd::prelude::*;

verus! {

/// Business profile response
#[derive(Debug, Clone)]
pub struct BusinessProfileResponse {
    /// Profile data
    pub data: Vec<BusinessProfile>,
}

/// Business profile
#[derive(Debug, Clone)]
pub struct BusinessProfile {
    /// Messaging product
    pub messaging_product: Option<String>,
    /// About text
    pub about: Option<String>,
    /// Business address
    pub address: Option<String>,
    /// Business description
    pub description: Option<String>,
    /// Business email
    pub email: Option<String>,
    /// Profile picture URL
    pub profile_picture_url: Option<String>,
    /// Website URLs
    pub websites: Option<Vec<String>>,
    /// Business vertical/category
    pub vertical: Option<String>,
}

/// Business profile update request
#[derive(Debug, Clone)]
pub struct BusinessProfileUpdate {
    /// Messaging product (required)
    pub messaging_product: String,
    /// About text (max 139 characters)
    pub about: Option<String>,
    /// Business address (max 256 characters)
    pub address: Option<String>,
    /// Business description (max 512 characters)
    pub description: Option<String>,
    /// Business email (max 128 characters)
    pub email: Option<String>,
    /// Profile picture handle (from resumable upload)
    pub profile_picture_handle: Option<String>,
    /// Website URLs (max 2)
    pub websites: Option<Vec<String>>,
    /// Business vertical
    pub vertical: Option<String>,
}

/// An update that names the messaging product and changes nothing.
pub open spec fn is_empty_profile_update(u: BusinessProfileUpdate) -> bool {
    &&& u.messaging_product@ == "whatsapp"@
    &&& u.about is None
    &&& u.address is None
    &&& u.description is None
    &&& u.email is None
    &&& u.profile_picture_handle is None
    &&& u.websites is None
    &&& u.vertical is None
}

impl Default for BusinessProfileUpdate {
    /// The empty update
    fn default() -> (r: Self)
        ensures
            is_empty_profile_update(r),
    {
        BusinessProfileUpdate {
            messaging_product: "whatsapp".to_owned(),
            about: None,
            address: None,
            description: None,
            email: None,
            profile_picture_handle: None,
            websites: None,
            vertical: None,
        }
    }
}

impl BusinessProfileUpdate {
    /// Create a new business profile update
    pub fn new() -> (r: Self)
        ensures
            is_empty_profile_update(r),
    {
        Self::default()
    }

    /// Set the about text
    pub fn about(self, about: &str) -> (r: Self)
        ensures
            r.about matches Some(a) && a@ == about@,
            r.messaging_product == self.messaging_product,
            r.address == self.address,
            r.description == self.description,
            r.email == self.email,
            r.profile_picture_handle == self.profile_picture_handle,
            r.websites == self.websites,
            r.vertical == self.vertical,
    {
        BusinessProfileUpdate { about: Some(about.to_owned()), ..self }
    }

    /// Set the address
    pub fn address(self, address: &str) -> (r: Self)
        ensures
            r.address matches Some(a) && a@ == address@,
            r.messaging_product == self.messaging_product,
            r.about == self.about,
            r.description == self.description,
            r.email == self.email,
            r.profile_picture_handle == self.profile_picture_handle,
            r.websites == self.websites,
            r.vertical == self.vertical,
    {
        BusinessProfileUpdate { address: Some(address.to_owned()), ..self }
    }

    /// Set the description
    pub fn description(self, description: &str) -> (r: Self)
        ensures
            r.description matches Some(d) && d@ == description@,
            r.messaging_product == self.messaging_product,
            r.about == self.about,
            r.address == self.address,
            r.email == self.email,
            r.profile_picture_handle == self.profile_picture_handle,
            r.websites == self.websites,
            r.vertical == self.vertical,
    {
        BusinessProfileUpdate { description: Some(description.to_owned()), ..self }
    }

    /// Set the email
    pub fn email(self, email: &str) -> (r: Self)
        ensures
            r.email matches Some(e) && e@ == email@,
            r.messaging_product == self.messaging_product,
            r.about == self.about,
            r.address == self.address,
            r.description == self.description,
            r.profile_picture_handle == self.profile_picture_handle,
            r.websites == self.websites,
            r.vertical == self.vertical,
    {
        BusinessProfileUpdate { email: Some(email.to_owned()), ..self }
    }

    /// Set the websites
    pub fn websites(self, websites: Vec<String>) -> (r: Self)
        ensures
            r.websites == Some(websites),
            r.messaging_product == self.messaging_product,
            r.about == self.about,
            r.address == self.address,
            r.description == self.description,
            r.email == self.email,
            r.profile_picture_handle == self.profile_picture_handle,
            r.vertical == self.vertical,
    {
        BusinessProfileUpdate { websites: Some(websites), ..self }
    }

    /// Set the vertical
    pub fn vertical(self, vertical: &str) -> (r: Self)
        ensures
            r.vertical matches Some(v) && v@ == vertical@,
            r.messaging_product == self.messaging_product,
            r.about == self.about,
            r.address == self.address,
            r.description == self.description,
            r.email == self.email,
            r.profile_picture_handle == self.profile_picture_handle,
            r.websites == self.websites,
    {
        BusinessProfileUpdate { vertical: Some(vertical.to_owned()), ..self }
    }
}

} // verus!
