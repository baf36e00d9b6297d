//! What a finished configuration hands to the tunnel.

use vstd::prelude::*;
use crate::address::SocketAddress;

verus! {

/// The MTU a tunnel uses where none is configured.
pub const DEFAULT_MTU: i32 = 1432;

/// The seconds a binding lives where none are configured.
pub const DEFAULT_CLIENT_TIMEOUT: u32 = 60;

/// The settings of a client.
#[derive(Clone, Copy, Debug)]
pub struct ClientConfiguration {
    pub(crate) server_address: Option<SocketAddress>,
    pub(crate) mtu: Option<i32>,
}

/// The settings of a server.
#[derive(Clone, Copy, Debug)]
pub struct ServerConfiguration {
    pub(crate) mtu: Option<i32>,
    pub(crate) client_timeout: Option<u32>,
}

impl ClientConfiguration {
    /// The server's address, where one is set.
    pub closed spec fn spec_server_address(&self) -> Option<SocketAddress> {
        self.server_address
    }

    /// The MTU, where one is set.
    pub closed spec fn spec_mtu(&self) -> Option<i32> {
        self.mtu
    }

    /// Sets the server's address and leaves the rest as it is.
    pub fn server_address(&mut self, value: SocketAddress) -> (this: &mut Self)
        ensures
            this.spec_server_address() == Some(value),
            this.spec_mtu() == old(self).spec_mtu(),
            *final(self) == *final(this),
    {
        self.server_address = Some(value);
        self
    }

    /// Sets the MTU and leaves the rest as it is.
    pub fn mtu(&mut self, value: i32) -> (this: &mut Self)
        ensures
            this.spec_mtu() == Some(value),
            this.spec_server_address() == old(self).spec_server_address(),
            *final(self) == *final(this),
    {
        self.mtu = Some(value);
        self
    }

    /// The server's address, where one is set.
    pub fn get_server_address(&self) -> (address: Option<SocketAddress>)
        ensures
            address == self.spec_server_address(),
    {
        self.server_address
    }

    /// The MTU that is set, or `DEFAULT_MTU`.
    pub fn mtu_or_default(&self) -> (mtu: i32)
        ensures
            mtu == match self.spec_mtu() {
                Some(value) => value,
                None => DEFAULT_MTU,
            },
    {
        match self.mtu {
            Some(value) => value,
            None => DEFAULT_MTU,
        }
    }
}

impl Default for ClientConfiguration {
    /// The configuration in which nothing is set.
    fn default() -> (configuration: Self)
        ensures
            configuration.spec_server_address() is None,
            configuration.spec_mtu() is None,
    {
        ClientConfiguration { server_address: None, mtu: None }
    }
}

impl ServerConfiguration {
    /// The MTU, where one is set.
    pub closed spec fn spec_mtu(&self) -> Option<i32> {
        self.mtu
    }

    /// The seconds a binding lives, where they are set.
    pub closed spec fn spec_client_timeout(&self) -> Option<u32> {
        self.client_timeout
    }

    /// Sets the MTU and leaves the rest as it is.
    pub fn mtu(&mut self, value: i32) -> (this: &mut Self)
        ensures
            this.spec_mtu() == Some(value),
            this.spec_client_timeout() == old(self).spec_client_timeout(),
            *final(self) == *final(this),
    {
        self.mtu = Some(value);
        self
    }

    /// Sets the seconds a binding lives and leaves the rest as it is.
    pub fn client_timeout(&mut self, value: u32) -> (this: &mut Self)
        ensures
            this.spec_client_timeout() == Some(value),
            this.spec_mtu() == old(self).spec_mtu(),
            *final(self) == *final(this),
    {
        self.client_timeout = Some(value);
        self
    }

    /// The MTU that is set, or `DEFAULT_MTU`.
    pub fn mtu_or_default(&self) -> (mtu: i32)
        ensures
            mtu == match self.spec_mtu() {
                Some(value) => value,
                None => DEFAULT_MTU,
            },
    {
        match self.mtu {
            Some(value) => value,
            None => DEFAULT_MTU,
        }
    }

    /// The seconds a binding lives: those set, or `DEFAULT_CLIENT_TIMEOUT`.
    pub fn client_timeout_or_default(&self) -> (seconds: u32)
        ensures
            seconds == match self.spec_client_timeout() {
                Some(value) => value,
                None => DEFAULT_CLIENT_TIMEOUT,
            },
    {
        match self.client_timeout {
            Some(value) => value,
            None => DEFAULT_CLIENT_TIMEOUT,
        }
    }
}

impl Default for ServerConfiguration {
    /// The configuration in which nothing is set.
    fn default() -> (configuration: Self)
        ensures
            configuration.spec_mtu() is None,
            configuration.spec_client_timeout() is None,
    {
        ServerConfiguration { mtu: None, client_timeout: None }
    }
}

} // verus!
