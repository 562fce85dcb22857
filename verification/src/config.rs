//! The configuration an external setup flow supplies: endpoint, username
//! and TLS setting. Read-only to this core; loading and saving the file it
//! lives in is the caller's concern.

use vstd::prelude::*;

verus! {

/// Connection settings for the remote device-management service.
pub struct Config {
    /// Base URL of the remote service, without a trailing slash.
    pub dnac_url: String,
    /// The user id whose credential the vault holds.
    pub username: String,
    /// Whether the HTTP collaborator verifies TLS certificates.
    pub verify_ssl: bool,
}

impl Config {
    /// Bundles the three settings.
    pub fn new(dnac_url: String, username: String, verify_ssl: bool) -> (r: Config)
        ensures
            r.dnac_url == dnac_url,
            r.username == username,
            r.verify_ssl == verify_ssl,
    {
        Config { dnac_url, username, verify_ssl }
    }
}

} // verus!
