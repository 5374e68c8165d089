//! Configuration surface of the gateway, loaded once at startup: the network
//! bind address, the radio hardware handles, and the ordered table of lights
//! with their radio addresses.

use vstd::prelude::*;

verus! {

/// Network configuration: the TCP address the gateway listens on.
#[derive(Debug, Clone, PartialEq)]
pub struct Network {
    pub bind_addr: String,
}

/// Radio hardware configuration: the SPI device path and the GPIO line
/// offset of the transceiver's chip-enable signal.
#[derive(Debug, Clone, PartialEq)]
pub struct Hardware {
    pub device: String,
    pub nrf24_ce_gpio: u32,
}

/// One configured light: its radio address, a namespace separate from the
/// light's ordinal index.
#[derive(Debug, Clone, Copy, PartialEq, Eq, Structural)]
pub struct Light {
    pub address: u16,
}

/// The whole configuration: lights are listed in ordinal order, so position
/// in `lights` is the index clients address.
#[derive(Debug, Clone, PartialEq)]
pub struct Configuration {
    pub network: Network,
    pub hardware: Hardware,
    pub lights: Vec<Light>,
}

impl Light {
    /// A light's radio address must lie in the link's address space 1..512.
    pub open spec fn valid(self) -> bool {
        1 <= self.address <= 512
    }
}

impl Configuration {
    /// A configuration is valid when every light's radio address is.
    pub open spec fn valid(self) -> bool {
        forall|i: int| 0 <= i < self.lights@.len() ==> self.lights@[i].valid()
    }

    /// Checks every configured radio address against the link's address
    /// space.
    pub fn validate(&self) -> (r: bool)
        ensures
            r == self.valid(),
    {
        let mut n: usize = 0;
        while n < self.lights.len()
            invariant
                n <= self.lights@.len(),
                forall|i: int| 0 <= i < n ==> self.lights@[i].valid(),
            decreases self.lights@.len() - n,
        {
            let light = self.lights[n];
            if light.address < 1 || light.address > 512 {
                return false;
            }
            n = n + 1;
        }
        true
    }
}

} // verus!
