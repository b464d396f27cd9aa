//! What the firewall refuses to do.

use vstd::prelude::*;

verus! {

#[derive(Clone, Copy, Debug, PartialEq, Eq, Structural)]
pub enum FirewallError {
    /// The firewall was started while it was running.
    AlreadyRunning,
    /// The firewall was stopped while it was not running.
    NotRunning,
    /// A whitelisted address was to be blocked.
    WhitelistViolation,
    /// An address that is not blocked was to be unblocked.
    NotBlocked,
    /// No interface to capture on was found.
    InterfaceUnavailable,
}

impl FirewallError {
    pub open spec fn spec_message(&self) -> Seq<char> {
        match self {
            FirewallError::AlreadyRunning => "Firewall already running"@,
            FirewallError::NotRunning => "Firewall not running"@,
            FirewallError::WhitelistViolation => "Cannot block whitelisted IP"@,
            FirewallError::NotBlocked => "IP not in blocklist"@,
            FirewallError::InterfaceUnavailable => "No suitable network interface found"@,
        }
    }

    /// The error in words.
    pub fn message(&self) -> (text: String)
        ensures
            text@ == self.spec_message(),
    {
        match self {
            FirewallError::AlreadyRunning => "Firewall already running".to_owned(),
            FirewallError::NotRunning => "Firewall not running".to_owned(),
            FirewallError::WhitelistViolation => "Cannot block whitelisted IP".to_owned(),
            FirewallError::NotBlocked => "IP not in blocklist".to_owned(),
            FirewallError::InterfaceUnavailable => "No suitable network interface found".to_owned(),
        }
    }
}

} // verus!
