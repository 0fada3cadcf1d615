use vstd::prelude::*;

use crate::port::{IpVersion, Port, PortRange, Ports};

verus! {

// A `bind` closure tries to bind a listener to the loopback address on the
// port's family and number, releases it at once, and returns the port number
// the listener had (the one asked for, or one the system picked for port 0),
// or `None` when the bind failed. Its outcome depends on the host, so the
// contracts below speak of what a call of it may have returned.

/// A call of `bind` on `port` may have succeeded.
pub open spec fn reported_free<B: Fn(Port) -> Option<u16>>(bind: B, port: Port) -> bool {
    exists|n: u16| call_ensures(bind, (port,), Some(n))
}

/// A call of `bind` on `port` may have failed.
pub open spec fn reported_taken<B: Fn(Port) -> Option<u16>>(bind: B, port: Port) -> bool {
    call_ensures(bind, (port,), None)
}

/// `r` is the outcome of walking `range` upwards on `version` until a port
/// binds: the first port that did, or `None` when every port failed.
pub open spec fn first_free_in<B: Fn(Port) -> Option<u16>>(
    bind: B,
    version: IpVersion,
    range: PortRange,
    r: Option<u16>,
) -> bool {
    match r {
        Some(p) => {
            &&& range.contains(p as int)
            &&& reported_free(bind, Port::spec_on(version, p))
            &&& forall|q: u16|
                range.contains(q as int) && q < p ==> #[trigger] reported_taken(
                    bind,
                    Port::spec_on(version, q),
                )
        },
        None => forall|q: u16|
            range.contains(q as int) ==> #[trigger] reported_taken(bind, Port::spec_on(version, q)),
    }
}

/// Returns whether a port is available on the localhost: whether `bind`
/// succeeded on it. The port's own family is the one probed.
pub fn is_local_port_free<B: Fn(Port) -> Option<u16>>(port: Port, bind: &B) -> (r: bool)
    requires
        call_requires(*bind, (port,)),
    ensures
        r ==> reported_free(*bind, port),
        !r ==> reported_taken(*bind, port),
{
    match bind(port) {
        Some(n) => {
            assert(call_ensures(*bind, (port,), Some(n)));
            true
        },
        None => false,
    }
}

/// Returns whether a port is available on the localhost for IPv4
pub fn is_local_ipv4_port_free<B: Fn(Port) -> Option<u16>>(port: u16, bind: &B) -> (r: bool)
    requires
        call_requires(*bind, (Port::Ipv4(port),)),
    ensures
        r ==> reported_free(*bind, Port::Ipv4(port)),
        !r ==> reported_taken(*bind, Port::Ipv4(port)),
{
    is_local_port_free(Port::Ipv4(port), bind)
}

/// Returns whether a port is available on the localhost for IPv6
pub fn is_local_ipv6_port_free<B: Fn(Port) -> Option<u16>>(port: u16, bind: &B) -> (r: bool)
    requires
        call_requires(*bind, (Port::Ipv6(port),)),
    ensures
        r ==> reported_free(*bind, Port::Ipv6(port)),
        !r ==> reported_taken(*bind, Port::Ipv6(port)),
{
    is_local_port_free(Port::Ipv6(port), bind)
}

/// Walks `range` in ascending order on `version` and returns the first port
/// that binds.
fn first_free_port<B: Fn(Port) -> Option<u16>>(
    version: IpVersion,
    range: PortRange,
    bind: &B,
) -> (r: Option<u16>)
    requires
        forall|p: Port| call_requires(*bind, (p,)),
    ensures
        first_free_in(*bind, version, range, r),
{
    let stop: u32 = if range.inclusive {
        range.end as u32 + 1
    } else {
        range.end as u32
    };
    let mut next: u32 = range.start as u32;
    while next < stop
        invariant
            forall|p: Port| call_requires(*bind, (p,)),
            range.start <= next,
            stop == (if range.inclusive {
                range.end + 1
            } else {
                range.end as int
            }),
            forall|q: u16|
                range.contains(q as int) && q < next ==> #[trigger] reported_taken(
                    *bind,
                    Port::spec_on(version, q),
                ),
        decreases stop - next,
    {
        let number = next as u16;
        let port = Port::on(version, number);
        match bind(port) {
            Some(n) => {
                assert(call_ensures(*bind, (port,), Some(n)));
                return Some(number);
            },
            None => {},
        }
        next = next + 1;
    }
    None
}

/// Returns an available localhost port within the specified range, searched
/// on the range's family: the first port of the range, in ascending order,
/// on which `bind` succeeded.
pub fn free_local_port_in_range<B: Fn(Port) -> Option<u16>>(port_range: Ports, bind: &B) -> (r:
    Option<u16>)
    requires
        forall|p: Port| call_requires(*bind, (p,)),
    ensures
        first_free_in(*bind, port_range.spec_version(), port_range.spec_range(), r),
        r matches Some(p) ==> port_range.spec_range().contains(p as int),
{
    match port_range {
        Ports::Ipv4(range) => free_local_ipv4_port_in_range(range, bind),
        Ports::Ipv6(range) => free_local_ipv6_port_in_range(range, bind),
    }
}

/// Returns an available localhost port within the specified range for IPv4.
pub fn free_local_ipv4_port_in_range<B: Fn(Port) -> Option<u16>>(
    port_range: PortRange,
    bind: &B,
) -> (r: Option<u16>)
    requires
        forall|p: Port| call_requires(*bind, (p,)),
    ensures
        first_free_in(*bind, IpVersion::V4, port_range, r),
{
    first_free_port(IpVersion::V4, port_range, bind)
}

/// Returns an available localhost port within the specified range for IPv6.
pub fn free_local_ipv6_port_in_range<B: Fn(Port) -> Option<u16>>(
    port_range: PortRange,
    bind: &B,
) -> (r: Option<u16>)
    requires
        forall|p: Port| call_requires(*bind, (p,)),
    ensures
        first_free_in(*bind, IpVersion::V6, port_range, r),
{
    first_free_port(IpVersion::V6, port_range, bind)
}

/// Returns an available localhost port for IPv4: the port the system picked
/// when `bind` was asked for IPv4 port 0, or `None` when that bind failed.
pub fn free_local_port<B: Fn(Port) -> Option<u16>>(bind: &B) -> (r: Option<u16>)
    requires
        call_requires(*bind, (Port::Ipv4(0),)),
    ensures
        call_ensures(*bind, (Port::Ipv4(0),), r),
{
    free_local_ipv4_port(bind)
}

/// Returns an available localhost port for IPv4: what `bind` returned for
/// IPv4 port 0.
pub fn free_local_ipv4_port<B: Fn(Port) -> Option<u16>>(bind: &B) -> (r: Option<u16>)
    requires
        call_requires(*bind, (Port::Ipv4(0),)),
    ensures
        call_ensures(*bind, (Port::Ipv4(0),), r),
{
    bind(Port::Ipv4(0))
}

/// Returns an available localhost port for IPv6: what `bind` returned for
/// IPv6 port 0.
pub fn free_local_ipv6_port<B: Fn(Port) -> Option<u16>>(bind: &B) -> (r: Option<u16>)
    requires
        call_requires(*bind, (Port::Ipv6(0),)),
    ensures
        call_ensures(*bind, (Port::Ipv6(0),), r),
{
    bind(Port::Ipv6(0))
}

/// Tries the candidate addresses of an endpoint in the order given, stopping
/// at the first on which `connect` succeeds. Returns whether one did; with no
/// candidates (a name that did not resolve) the endpoint is not reachable.
pub fn is_any_reachable<A, C: Fn(&A) -> bool>(candidates: &Vec<A>, connect: &C) -> (r: bool)
    requires
        forall|i: int| 0 <= i < candidates.len() ==> call_requires(*connect, (&candidates[i],)),
    ensures
        r ==> exists|i: int|
            0 <= i < candidates.len() && call_ensures(*connect, (&candidates[i],), true) && forall|
                j: int,
            | 0 <= j < i ==> call_ensures(*connect, (&candidates[j],), false),
        !r ==> forall|i: int|
            0 <= i < candidates.len() ==> call_ensures(*connect, (&candidates[i],), false),
{
    let mut i: usize = 0;
    while i < candidates.len()
        invariant
            forall|k: int| 0 <= k < candidates.len() ==> call_requires(*connect, (&candidates[k],)),
            0 <= i <= candidates.len(),
            forall|j: int| 0 <= j < i ==> call_ensures(*connect, (&candidates[j],), false),
        decreases candidates.len() - i,
    {
        if connect(&candidates[i]) {
            return true;
        }
        i = i + 1;
    }
    false
}

/// The other IP family.
pub open spec fn other_family(version: IpVersion) -> IpVersion {
    match version {
        IpVersion::V4 => IpVersion::V6,
        IpVersion::V6 => IpVersion::V4,
    }
}

/// `bind` mirrors a host on which listeners hold the ports in `held`: a bind
/// on a numbered port fails exactly when a listener holds that port on that
/// family.
pub open spec fn mirrors_host<B: Fn(Port) -> Option<u16>>(bind: B, held: Set<Port>) -> bool {
    forall|p: Port|
        p.spec_number() != 0 ==> {
            &&& #[trigger] reported_taken(bind, p) <==> held.contains(p)
            &&& reported_free(bind, p) <==> !held.contains(p)
        }
}

/// No other process takes a port between its being handed out for port 0
/// and its being probed by number on the same family.
pub open spec fn hands_out_free_ports<B: Fn(Port) -> Option<u16>>(bind: B) -> bool {
    forall|v: IpVersion, n: u16|
        #[trigger] call_ensures(bind, (Port::spec_on(v, 0),), Some(n)) ==> !reported_taken(
            bind,
            Port::spec_on(v, n),
        )
}

/// A port that a listener holds on one family is reported taken there and,
/// when no listener holds it on the other family, free on that one: the
/// families are probed independently. `free_here` and `free_there` are what
/// `is_local_port_free` returned for the port on each family.
pub proof fn lemma_held_port_taken_on_its_family_only<B: Fn(Port) -> Option<u16>>(
    bind: B,
    held: Set<Port>,
    version: IpVersion,
    number: u16,
    free_here: bool,
    free_there: bool,
)
    requires
        mirrors_host(bind, held),
        number != 0,
        held.contains(Port::spec_on(version, number)),
        !held.contains(Port::spec_on(other_family(version), number)),
        free_here ==> reported_free(bind, Port::spec_on(version, number)),
        !free_here ==> reported_taken(bind, Port::spec_on(version, number)),
        free_there ==> reported_free(bind, Port::spec_on(other_family(version), number)),
        !free_there ==> reported_taken(bind, Port::spec_on(other_family(version), number)),
    ensures
        !free_here,
        free_there,
{
    assert(reported_taken(bind, Port::spec_on(version, number)) <==> held.contains(
        Port::spec_on(version, number),
    ));
    assert(reported_taken(bind, Port::spec_on(other_family(version), number)) <==> held.contains(
        Port::spec_on(other_family(version), number),
    ));
}

/// A port that `free_local_port` found is then reported free by
/// `is_local_port_free` on IPv4, as long as no other process takes it in
/// between. `found` is what `free_local_port` returned and `free` what
/// `is_local_port_free` returned for the port found.
pub proof fn lemma_found_port_is_free<B: Fn(Port) -> Option<u16>>(
    bind: B,
    found: Option<u16>,
    free: bool,
)
    requires
        hands_out_free_ports(bind),
        call_ensures(bind, (Port::Ipv4(0),), found),
        found matches Some(n) ==> (free ==> reported_free(bind, Port::Ipv4(n))) && (!free
            ==> reported_taken(bind, Port::Ipv4(n))),
    ensures
        found matches Some(n) ==> free,
{
    if let Some(n) = found {
        assert(call_ensures(bind, (Port::spec_on(IpVersion::V4, 0),), Some(n)));
    }
}

} // verus!
