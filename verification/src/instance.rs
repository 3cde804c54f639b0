//! The one streaming-protocol instance a process holds.
use vstd::prelude::*;

use crate::crypto::MoonlightCrypto;

verus! {

/// Why the streaming protocol refused.
#[derive(Debug, Clone, Copy, PartialEq, Eq, Structural)]
pub enum MoonlightError {
    /// The host doesn't support this feature.
    NotSupportedOnHost,
    /// Sending an event failed with this code.
    EventSendError(i32),
    /// This needs a GeForce Experience version that uses ENet.
    ENetRequired,
    /// A string held a nul byte.
    StringNulError,
    /// A connection exists already.
    ConnectionAlreadyExists,
    /// The connection could not be established.
    ConnectionFailed,
    /// An instance exists already.
    InstanceAlreadyExists,
    /// The client is not paired.
    NotPaired,
}

/// Whether the process holds an instance.
pub struct InstanceRegistry {
    exists: bool,
}

/// The streaming protocol, held once per process.
pub struct MoonlightInstance {
    _held: (),
}

impl InstanceRegistry {
    /// Whether an instance is held.
    pub closed spec fn held(&self) -> bool {
        self.exists
    }

    /// No instance held.
    pub fn new() -> (res: Self)
        ensures
            !res.held(),
    {
        InstanceRegistry { exists: false }
    }

    /// The instance, when no other is held.
    pub fn global(&mut self) -> (res: Result<MoonlightInstance, MoonlightError>)
        ensures
            old(self).held() ==> res == Err::<MoonlightInstance, MoonlightError>(MoonlightError::InstanceAlreadyExists)
                && final(self).held(),
            !old(self).held() ==> res is Ok && final(self).held(),
    {
        if self.exists {
            Err(MoonlightError::InstanceAlreadyExists)
        } else {
            self.exists = true;
            Ok(MoonlightInstance { _held: () })
        }
    }

    /// Gives the instance back.
    pub fn release(&mut self, instance: MoonlightInstance)
        ensures
            !final(self).held(),
    {
        self.exists = false;
    }
}

impl MoonlightInstance {
    /// The protocol's randomness and digest choice.
    pub fn crypto(&self) -> (res: MoonlightCrypto) {
        MoonlightCrypto::new()
    }
}

} // verus!
