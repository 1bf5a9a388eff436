//! The fatal conditions of access-point setup.

use vstd::prelude::*;

verus! {

/// Why setup was abandoned. Each variant names the stage that failed; none is
/// retried.
#[derive(Clone, Copy, Debug, PartialEq, Eq, Structural)]
pub enum SetupError {
    /// No Wi-Fi capable device is known to the network manager.
    DeviceDiscovery,
    /// The wireless radio could not be enabled.
    RadioEnable,
    /// The access-point connection could not be added and activated.
    Activation,
    /// The address notifications ended before an address was assigned.
    AddressResolution,
    /// A firewall rule could not be appended.
    Firewall,
    /// The portal could not listen on its address.
    ListenerBind,
}

impl SetupError {
    /// The operator-facing text of the error.
    pub open spec fn text(self) -> Seq<char> {
        match self {
            SetupError::DeviceDiscovery => "No wifi device found"@,
            SetupError::RadioEnable => "Failed to enable wireless"@,
            SetupError::Activation => "Failed to add and activate connection"@,
            SetupError::AddressResolution => "Failed to get IP address"@,
            SetupError::Firewall => "Failed to append iptables rule"@,
            SetupError::ListenerBind => "Failed to bind to address"@,
        }
    }

    /// The message shown to the operator when setup is abandoned.
    pub fn message(&self) -> (message: String)
        ensures
            message@ == self.text(),
    {
        match self {
            SetupError::DeviceDiscovery => "No wifi device found".to_owned(),
            SetupError::RadioEnable => "Failed to enable wireless".to_owned(),
            SetupError::Activation => "Failed to add and activate connection".to_owned(),
            SetupError::AddressResolution => "Failed to get IP address".to_owned(),
            SetupError::Firewall => "Failed to append iptables rule".to_owned(),
            SetupError::ListenerBind => "Failed to bind to address".to_owned(),
        }
    }
}

} // verus!
