//! Configuration carried by the collaborators around the core: the outbound
//! mail transport and the content-generation gateway. Constructed once at
//! startup and passed explicitly into each component.

use vstd::prelude::*;

verus! {

/// Settings of the outbound-mail collaborator.
#[derive(Clone)]
pub struct EmailConfig {
    pub smtp_host: String,
    pub smtp_port: u16,
    pub smtp_user: String,
    pub smtp_pass: String,
    pub from_address: String,
    /// When true, accept TLS certificates whose hostname does not match.
    pub tls_skip_verify: bool,
}

/// Settings of the content-generation collaborator.
#[derive(Clone)]
pub struct OpenClawConfig {
    pub gateway_url: String,
    pub token: String,
    pub agent_id: String,
}

impl OpenClawConfig {
    /// Whether a gateway is configured at all; generation must not be
    /// attempted otherwise.
    pub fn is_configured(&self) -> (r: bool)
        ensures
            r == (self.gateway_url@.len() != 0),
    {
        !self.gateway_url.as_str().is_empty()
    }
}

} // verus!
