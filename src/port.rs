use vstd::prelude::*;

verus! {

/// The IP family that a socket operation targets.
#[derive(Clone, Copy, Debug, PartialEq, Eq, Structural)]
pub enum IpVersion {
    V4,
    V6,
}

/// A port number tagged with the IP family it belongs to.
///
/// A port is free or taken on each family independently, so the tag is part
/// of the value. A bare number converts to an IPv4 port.
#[derive(Clone, Copy, Debug, PartialEq, Eq, Structural)]
pub enum Port {
    /// A port for an IPv4 address
    Ipv4(u16),
    /// A port for an IPv6 address
    Ipv6(u16),
}

impl Port {
    /// The family this port belongs to.
    pub open spec fn spec_version(self) -> IpVersion {
        match self {
            Port::Ipv4(_) => IpVersion::V4,
            Port::Ipv6(_) => IpVersion::V6,
        }
    }

    /// The port number, whatever the family.
    pub open spec fn spec_number(self) -> u16 {
        match self {
            Port::Ipv4(n) => n,
            Port::Ipv6(n) => n,
        }
    }

    /// The port with the given number on the given family.
    pub open spec fn spec_on(version: IpVersion, number: u16) -> Port {
        match version {
            IpVersion::V4 => Port::Ipv4(number),
            IpVersion::V6 => Port::Ipv6(number),
        }
    }

    /// Creates a new IPv4 port with the specified value
    pub fn new(port: u16) -> (r: Port)
        ensures
            r == Port::Ipv4(port),
    {
        Port::Ipv4(port)
    }

    /// Creates a new IPv4 port with the specified value
    pub fn ipv4(port: u16) -> (r: Port)
        ensures
            r == Port::Ipv4(port),
    {
        Port::Ipv4(port)
    }

    /// Creates a new IPv6 port with the specified value
    pub fn ipv6(port: u16) -> (r: Port)
        ensures
            r == Port::Ipv6(port),
    {
        Port::Ipv6(port)
    }

    /// Creates the port with the given number on the given family.
    pub fn on(version: IpVersion, number: u16) -> (r: Port)
        ensures
            r == Port::spec_on(version, number),
            r.spec_version() == version,
            r.spec_number() == number,
    {
        match version {
            IpVersion::V4 => Port::Ipv4(number),
            IpVersion::V6 => Port::Ipv6(number),
        }
    }

    /// The family this port belongs to.
    pub fn version(&self) -> (r: IpVersion)
        ensures
            r == self.spec_version(),
    {
        match self {
            Port::Ipv4(_) => IpVersion::V4,
            Port::Ipv6(_) => IpVersion::V6,
        }
    }

    /// The port number, whatever the family.
    pub fn number(&self) -> (r: u16)
        ensures
            r == self.spec_number(),
    {
        match self {
            Port::Ipv4(n) => *n,
            Port::Ipv6(n) => *n,
        }
    }
}

impl From<u16> for Port {
    fn from(port: u16) -> (r: Port) {
        Port::Ipv4(port)
    }
}

impl vstd::std_specs::convert::FromSpecImpl<u16> for Port {
    open spec fn obeys_from_spec() -> bool {
        true
    }

    open spec fn from_spec(port: u16) -> Port {
        Port::Ipv4(port)
    }
}

/// A range of port numbers, walked in ascending order.
///
/// It runs from `start` up to `end`, which belongs to the range only when
/// `inclusive` is set. A range whose end lies before its start is empty.
#[derive(Clone, Copy, Debug, PartialEq, Eq, Structural)]
pub struct PortRange {
    pub start: u16,
    pub end: u16,
    pub inclusive: bool,
}

impl PortRange {
    /// Whether the number `p` lies in the range.
    pub open spec fn contains(self, p: int) -> bool {
        &&& self.start <= p
        &&& if self.inclusive {
            p <= self.end
        } else {
            p < self.end
        }
    }

    /// The ports from `start` up to, but not including, `end`.
    pub fn new(start: u16, end: u16) -> (r: PortRange)
        ensures
            r == (PortRange { start, end, inclusive: false }),
    {
        PortRange { start, end, inclusive: false }
    }

    /// The ports from `start` up to and including `end`.
    pub fn inclusive(start: u16, end: u16) -> (r: PortRange)
        ensures
            r == (PortRange { start, end, inclusive: true }),
    {
        PortRange { start, end, inclusive: true }
    }
}

impl From<core::ops::Range<u16>> for PortRange {
    fn from(range: core::ops::Range<u16>) -> (r: PortRange) {
        PortRange { start: range.start, end: range.end, inclusive: false }
    }
}

impl vstd::std_specs::convert::FromSpecImpl<core::ops::Range<u16>> for PortRange {
    open spec fn obeys_from_spec() -> bool {
        true
    }

    open spec fn from_spec(range: core::ops::Range<u16>) -> PortRange {
        PortRange { start: range.start, end: range.end, inclusive: false }
    }
}

/// A port range tagged with the IP family it is searched on.
///
/// A bare range converts to an IPv4 range.
#[derive(Clone, Copy, Debug, PartialEq, Eq, Structural)]
pub enum Ports {
    /// A port range for an IPv4 address
    Ipv4(PortRange),
    /// A port range for an IPv6 address
    Ipv6(PortRange),
}

impl Ports {
    /// The family this range is searched on.
    pub open spec fn spec_version(self) -> IpVersion {
        match self {
            Ports::Ipv4(_) => IpVersion::V4,
            Ports::Ipv6(_) => IpVersion::V6,
        }
    }

    /// The range of numbers, whatever the family.
    pub open spec fn spec_range(self) -> PortRange {
        match self {
            Ports::Ipv4(r) => r,
            Ports::Ipv6(r) => r,
        }
    }

    /// Creates a new IPv4 port range
    pub fn new(port_range: PortRange) -> (r: Ports)
        ensures
            r == Ports::Ipv4(port_range),
    {
        Self::ipv4(port_range)
    }

    /// Creates a new IPv4 port range
    pub fn ipv4(port_range: PortRange) -> (r: Ports)
        ensures
            r == Ports::Ipv4(port_range),
    {
        Ports::Ipv4(port_range)
    }

    /// Creates a new IPv6 port range
    pub fn ipv6(port_range: PortRange) -> (r: Ports)
        ensures
            r == Ports::Ipv6(port_range),
    {
        Ports::Ipv6(port_range)
    }
}

impl From<PortRange> for Ports {
    fn from(port_range: PortRange) -> (r: Ports) {
        Ports::Ipv4(port_range)
    }
}

impl vstd::std_specs::convert::FromSpecImpl<PortRange> for Ports {
    open spec fn obeys_from_spec() -> bool {
        true
    }

    open spec fn from_spec(port_range: PortRange) -> Ports {
        Ports::Ipv4(port_range)
    }
}

impl From<core::ops::Range<u16>> for Ports {
    fn from(range: core::ops::Range<u16>) -> (r: Ports) {
        Ports::Ipv4(PortRange { start: range.start, end: range.end, inclusive: false })
    }
}

impl vstd::std_specs::convert::FromSpecImpl<core::ops::Range<u16>> for Ports {
    open spec fn obeys_from_spec() -> bool {
        true
    }

    open spec fn from_spec(range: core::ops::Range<u16>) -> Ports {
        Ports::Ipv4(PortRange { start: range.start, end: range.end, inclusive: false })
    }
}

} // verus!
