//! What the provider reports of the signed-in user.

use vstd::prelude::*;

verus! {

/// The object type that the provider gives to the profile of a user.
pub const USER_TYPE: &'static str = "user";

/// The provider's description of a failed request.
#[derive(Debug, Clone, PartialEq, Eq, Hash)]
pub struct Error {
    pub status: u16,
    pub message: String,
}

/// The profile of the signed-in user, as fetched with a valid credential. It
/// is a snapshot: it is never persisted, and it is dropped whenever the
/// credential changes.
#[derive(Debug, Clone, PartialEq, Eq, Hash)]
pub struct Me {
    /// The name displayed on the user's profile, if there is one.
    pub display_name: Option<String>,
    /// Known external URLs for this user.
    pub external_urls: ExternalUrls,
    /// Information about the followers of the user.
    pub followers: Followers,
    /// A link to the Web API endpoint for this user.
    pub href: String,
    /// The provider's identifier of the user.
    pub id: String,
    /// The user's profile images.
    pub images: Vec<Image>,
    /// The object type, which for a profile is [`USER_TYPE`].
    pub ty: String,
    /// The provider's URI for the user.
    pub uri: String,
}

#[derive(Debug, Clone, PartialEq, Eq, Hash)]
pub struct ExternalUrls {
    /// The provider's URL for the object.
    pub spotify: String,
}

#[derive(Debug, Clone, PartialEq, Eq, Hash)]
pub struct Followers {
    /// Always absent: the Web API does not support it.
    pub href: Option<String>,
    /// The total number of followers.
    pub total: u32,
}

#[derive(Debug, Clone, PartialEq, Eq, Hash)]
pub struct Image {
    /// The source URL of the image.
    pub url: String,
    /// The image height in pixels.
    pub height: Option<u32>,
    /// The image width in pixels.
    pub width: Option<u32>,
}

} // verus!
