//! What an available self-update looks like to the supervisor's consumers.
//! The update check, download and install flow itself is an external
//! collaborator; only this published record belongs to the core.

use vstd::prelude::*;

verus! {

/// An available update, as published to the UI layer.
#[derive(Clone)]
pub struct UpdateInfo {
    /// The version on offer.
    pub version: String,
    /// The version running now.
    pub current_version: String,
    /// The offered version's release notes, where the feed carries any.
    pub body: Option<String>,
}

impl UpdateInfo {
    /// Packs an update announcement.
    pub fn new(version: String, current_version: String, body: Option<String>) -> (u: UpdateInfo)
        ensures
            u.version == version,
            u.current_version == current_version,
            u.body == body,
    {
        UpdateInfo { version, current_version, body }
    }
}

} // verus!
