//! SocketCAN driver and channel builder.
//!
//! SocketCAN bitrate, sample point and FD timing are configured at the OS
//! level (`ip link set`), not through the socket API, so the builder only
//! chooses the interface.

use vstd::prelude::*;

verus! {

/// How the CAN interface is identified.
#[derive(Debug, Clone, PartialEq, Eq)]
pub enum InterfaceSpec {
    /// A kernel interface index.
    Index(u32),
    /// An interface name such as `can0`.
    Name(String),
}

/// SocketCAN driver: the factory for channel builders.
#[derive(Debug, Clone, Copy, PartialEq, Eq, Structural)]
pub struct SocketCanDriver;

/// Builder for opening a SocketCAN channel: it holds only the interface.
#[derive(Debug)]
pub struct SocketCanChannelBuilder {
    interface: InterfaceSpec,
}

impl SocketCanDriver {
    pub fn new() -> (r: Self)
        ensures
            r == SocketCanDriver,
    {
        SocketCanDriver
    }

    /// Begin configuring a channel on the named interface.
    pub fn channel_by_name(&self, name: &str) -> (r: SocketCanChannelBuilder)
        ensures
            r.interface_spec() matches InterfaceSpec::Name(n) && n@ == name@,
    {
        let mut n = String::new();
        n.append(name);
        SocketCanChannelBuilder { interface: InterfaceSpec::Name(n) }
    }

    /// Begin configuring a channel at the given interface index.
    pub fn channel(&self, index: u32) -> (r: SocketCanChannelBuilder)
        ensures
            r.interface_spec() == InterfaceSpec::Index(index),
    {
        SocketCanChannelBuilder { interface: InterfaceSpec::Index(index) }
    }
}

impl Default for SocketCanDriver {
    fn default() -> (r: Self)
        ensures
            r == SocketCanDriver,
    {
        SocketCanDriver
    }
}

impl SocketCanChannelBuilder {
    pub closed spec fn interface_spec(&self) -> InterfaceSpec {
        self.interface
    }

    /// The interface the channel opens on.
    pub fn interface(&self) -> (r: &InterfaceSpec)
        ensures
            *r == self.interface_spec(),
    {
        &self.interface
    }

    /// The interface, for opening the channel.
    pub fn into_interface(self) -> (r: InterfaceSpec)
        ensures
            r == self.interface_spec(),
    {
        self.interface
    }
}

} // verus!
