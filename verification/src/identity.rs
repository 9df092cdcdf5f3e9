//! The local device's identity, as the transport reads it at startup.

use vstd::prelude::*;

verus! {

/// Who a device is: a persistent identifier and what it shows of itself.
#[derive(Debug, Clone)]
pub struct DeviceIdentity {
    /// Unique, immutable device identifier.
    pub device_id: String,
    /// User-configurable display name.
    pub display_name: String,
    /// Platform tag.
    pub platform: String,
    /// Application version.
    pub app_version: String,
}

/// Read-only holder of the local identity.
pub struct IdentityManager {
    identity: DeviceIdentity,
}

impl IdentityManager {
    /// The identity that the manager holds.
    pub closed spec fn spec_identity(&self) -> DeviceIdentity {
        self.identity
    }

    /// A manager of the given identity.
    pub fn from_identity(identity: DeviceIdentity) -> (m: IdentityManager)
        ensures
            m.spec_identity() == identity,
    {
        IdentityManager { identity }
    }

    /// The device identifier.
    pub fn device_id(&self) -> (r: &str)
        ensures
            r@ == self.spec_identity().device_id@,
    {
        self.identity.device_id.as_str()
    }

    /// The display name.
    pub fn display_name(&self) -> (r: &str)
        ensures
            r@ == self.spec_identity().display_name@,
    {
        self.identity.display_name.as_str()
    }

    /// The platform tag.
    pub fn platform(&self) -> (r: &str)
        ensures
            r@ == self.spec_identity().platform@,
    {
        self.identity.platform.as_str()
    }

    /// The application version.
    pub fn app_version(&self) -> (r: &str)
        ensures
            r@ == self.spec_identity().app_version@,
    {
        self.identity.app_version.as_str()
    }

    /// The whole identity.
    pub fn identity(&self) -> (r: &DeviceIdentity)
        ensures
            *r == self.spec_identity(),
    {
        &self.identity
    }
}

} // verus!
