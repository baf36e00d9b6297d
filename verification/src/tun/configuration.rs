//! The settings of a virtual interface, and the order in which they are
//! applied.

use vstd::prelude::*;
use crate::address::Ipv4Address;

verus! {

/// The settings of a virtual interface. What is not set is left to the
/// system.
#[derive(Clone, Debug)]
pub struct Configuration {
    pub(crate) name: Option<String>,
    pub(crate) address: Option<Ipv4Address>,
    pub(crate) destination: Option<Ipv4Address>,
    pub(crate) broadcast: Option<Ipv4Address>,
    pub(crate) netmask: Option<Ipv4Address>,
    pub(crate) mtu: Option<i32>,
    pub(crate) enabled: bool,
}

/// The settings of a virtual interface, as a value.
pub struct Settings {
    pub name: Option<Seq<char>>,
    pub address: Option<Ipv4Address>,
    pub destination: Option<Ipv4Address>,
    pub broadcast: Option<Ipv4Address>,
    pub netmask: Option<Ipv4Address>,
    pub mtu: Option<i32>,
    pub enabled: bool,
}

/// One setting to apply to a virtual interface.
#[derive(Clone, Copy, Debug, PartialEq, Eq, Structural)]
pub enum Setting {
    Address(Ipv4Address),
    Destination(Ipv4Address),
    Broadcast(Ipv4Address),
    Netmask(Ipv4Address),
    Mtu(i32),
    Enabled(bool),
}

/// The step that sets an address, where one is set.
pub open spec fn optional_step(value: Option<Ipv4Address>, step: spec_fn(Ipv4Address) -> Setting) -> Seq<Setting> {
    match value {
        Some(value) => seq![step(value)],
        None => Seq::empty(),
    }
}

/// The settings to apply, in order: the address, the destination, the
/// broadcast address, the netmask and the MTU, each where it is set, and
/// last whether the interface is up.
pub open spec fn spec_steps(settings: Settings) -> Seq<Setting> {
    optional_step(settings.address, |ip: Ipv4Address| Setting::Address(ip)) + optional_step(
        settings.destination,
        |ip: Ipv4Address| Setting::Destination(ip),
    ) + optional_step(settings.broadcast, |ip: Ipv4Address| Setting::Broadcast(ip)) + optional_step(
        settings.netmask,
        |ip: Ipv4Address| Setting::Netmask(ip),
    ) + (match settings.mtu {
        Some(mtu) => seq![Setting::Mtu(mtu)],
        None => Seq::empty(),
    }) + seq![Setting::Enabled(settings.enabled)]
}

impl View for Configuration {
    type V = Settings;

    closed spec fn view(&self) -> Settings {
        Settings {
            name: match self.name {
                Some(name) => Some(name@),
                None => None,
            },
            address: self.address,
            destination: self.destination,
            broadcast: self.broadcast,
            netmask: self.netmask,
            mtu: self.mtu,
            enabled: self.enabled,
        }
    }
}

impl Configuration {
    /// Sets the interface's name and leaves the rest as it is.
    pub fn name(&mut self, name: &str) -> (this: &mut Self)
        ensures
            this@ == (Settings { name: Some(name@), ..old(self)@ }),
            *final(self) == *final(this),
    {
        self.name = Some(name.to_string());
        self
    }

    /// Sets the interface's address and leaves the rest as it is.
    pub fn address(&mut self, value: Ipv4Address) -> (this: &mut Self)
        ensures
            this@ == (Settings { address: Some(value), ..old(self)@ }),
            *final(self) == *final(this),
    {
        self.address = Some(value);
        self
    }

    /// Sets the address of the other end and leaves the rest as it is.
    pub fn destination(&mut self, value: Ipv4Address) -> (this: &mut Self)
        ensures
            this@ == (Settings { destination: Some(value), ..old(self)@ }),
            *final(self) == *final(this),
    {
        self.destination = Some(value);
        self
    }

    /// Sets the broadcast address and leaves the rest as it is.
    pub fn broadcast(&mut self, value: Ipv4Address) -> (this: &mut Self)
        ensures
            this@ == (Settings { broadcast: Some(value), ..old(self)@ }),
            *final(self) == *final(this),
    {
        self.broadcast = Some(value);
        self
    }

    /// Sets the netmask and leaves the rest as it is.
    pub fn netmask(&mut self, value: Ipv4Address) -> (this: &mut Self)
        ensures
            this@ == (Settings { netmask: Some(value), ..old(self)@ }),
            *final(self) == *final(this),
    {
        self.netmask = Some(value);
        self
    }

    /// Sets the MTU and leaves the rest as it is.
    pub fn mtu(&mut self, value: i32) -> (this: &mut Self)
        ensures
            this@ == (Settings { mtu: Some(value), ..old(self)@ }),
            *final(self) == *final(this),
    {
        self.mtu = Some(value);
        self
    }

    /// Asks for the interface to be up and leaves the rest as it is.
    pub fn up(&mut self) -> (this: &mut Self)
        ensures
            this@ == (Settings { enabled: true, ..old(self)@ }),
            *final(self) == *final(this),
    {
        self.enabled = true;
        self
    }

    /// Asks for the interface to be down and leaves the rest as it is.
    pub fn down(&mut self) -> (this: &mut Self)
        ensures
            this@ == (Settings { enabled: false, ..old(self)@ }),
            *final(self) == *final(this),
    {
        self.enabled = false;
        self
    }

    /// The name that is set, if any.
    pub fn get_name(&self) -> (name: Option<&str>)
        ensures
            match name {
                Some(name) => self@.name == Some(name@),
                None => self@.name is None,
            },
    {
        match &self.name {
            Some(name) => Some(name.as_str()),
            None => None,
        }
    }

    /// The settings to apply to the interface, in the order in which they
    /// are applied.
    pub fn steps(&self) -> (steps: Vec<Setting>)
        ensures
            steps@ == spec_steps(self@),
    {
        let mut steps: Vec<Setting> = Vec::new();
        if let Some(ip) = self.address {
            steps.push(Setting::Address(ip));
        }
        if let Some(ip) = self.destination {
            steps.push(Setting::Destination(ip));
        }
        if let Some(ip) = self.broadcast {
            steps.push(Setting::Broadcast(ip));
        }
        if let Some(ip) = self.netmask {
            steps.push(Setting::Netmask(ip));
        }
        if let Some(mtu) = self.mtu {
            steps.push(Setting::Mtu(mtu));
        }
        steps.push(Setting::Enabled(self.enabled));
        assert(steps@ =~= spec_steps(self@));
        steps
    }
}

impl Default for Configuration {
    /// The configuration in which nothing is set and the interface is down.
    fn default() -> (configuration: Self)
        ensures
            configuration@ == (Settings {
                name: None,
                address: None,
                destination: None,
                broadcast: None,
                netmask: None,
                mtu: None,
                enabled: false,
            }),
    {
        Configuration {
            name: None,
            address: None,
            destination: None,
            broadcast: None,
            netmask: None,
            mtu: None,
            enabled: false,
        }
    }
}

} // verus!
