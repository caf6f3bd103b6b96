use vstd::prelude::*;

use crate::model::{Family, HostRecord, IpAddress, IpProtocol, SocketAddress};

verus! {

/// The sockets of one family among `ips`, in order, each with `port`.
pub open spec fn family_sockets(ips: Seq<IpAddress>, family: Family, port: u16) -> Seq<
    SocketAddress,
>
    decreases ips.len(),
{
    if ips.len() == 0 {
        Seq::empty()
    } else {
        let rest = family_sockets(ips.drop_last(), family, port);
        if ips.last().family_spec() == family {
            rest.push(SocketAddress { ip: ips.last(), port })
        } else {
            rest
        }
    }
}

/// Every socket kept for a family is of that family.
pub proof fn lemma_family_sockets_family(ips: Seq<IpAddress>, family: Family, port: u16)
    ensures
        forall|i: int|
            0 <= i < family_sockets(ips, family, port).len() ==> (#[trigger] family_sockets(
                ips,
                family,
                port,
            )[i]).family_spec() == family && family_sockets(ips, family, port)[i].port == port,
    decreases ips.len(),
{
    if ips.len() > 0 {
        lemma_family_sockets_family(ips.drop_last(), family, port);
    }
}

/// Resolving a host yields no address at all.
#[derive(Clone, Debug)]
pub struct ResolutionError {
    pub host: String,
}

impl HostRecord {
    /// A record has nothing to probe when both families are empty.
    pub open spec fn is_empty_spec(self) -> bool {
        self.ipv4_sockets@.len() == 0 && self.ipv6_sockets@.len() == 0
    }

    /// Builds the record of `host` from the addresses it resolved to, each
    /// paired with `port`, split by family in resolver order.
    pub fn from_addresses(host: String, port: u16, ips: &Vec<IpAddress>) -> (r: HostRecord)
        ensures
            r.host == host,
            r.port == port,
            r.ipv4_sockets@ == family_sockets(ips@, Family::V4, port),
            r.ipv6_sockets@ == family_sockets(ips@, Family::V6, port),
            forall|i: int|
                0 <= i < r.ipv4_sockets@.len() ==> (#[trigger] r.ipv4_sockets@[i]).family_spec() == Family::V4
                    && r.ipv4_sockets@[i].port == port,
            forall|i: int|
                0 <= i < r.ipv6_sockets@.len() ==> (#[trigger] r.ipv6_sockets@[i]).family_spec() == Family::V6
                    && r.ipv6_sockets@[i].port == port,
    {
        let mut ipv4_sockets: Vec<SocketAddress> = Vec::new();
        let mut ipv6_sockets: Vec<SocketAddress> = Vec::new();
        let mut i: usize = 0;
        while i < ips.len()
            invariant
                i <= ips@.len(),
                ipv4_sockets@ == family_sockets(ips@.subrange(0, i as int), Family::V4, port),
                ipv6_sockets@ == family_sockets(ips@.subrange(0, i as int), Family::V6, port),
            decreases ips@.len() - i,
        {
            let ip = ips[i];
            assert(ips@.subrange(0, i as int + 1).drop_last() =~= ips@.subrange(0, i as int));
            match ip {
                IpAddress::V4(_) => ipv4_sockets.push(SocketAddress::new(ip, port)),
                IpAddress::V6(_) => ipv6_sockets.push(SocketAddress::new(ip, port)),
            }
            i = i + 1;
        }
        assert(ips@.subrange(0, ips@.len() as int) =~= ips@);
        proof {
            lemma_family_sockets_family(ips@, Family::V4, port);
            lemma_family_sockets_family(ips@, Family::V6, port);
        }
        HostRecord { host, port, ipv4_sockets, ipv6_sockets }
    }

    /// True when the host resolved to no address of either family.
    pub fn is_empty(&self) -> (r: bool)
        ensures
            r == self.is_empty_spec(),
    {
        self.ipv4_sockets.len() == 0 && self.ipv6_sockets.len() == 0
    }

    /// The record with the sockets of the unwanted family cleared.
    pub open spec fn filter_spec(self, protocol: IpProtocol) -> (Seq<SocketAddress>, Seq<
        SocketAddress,
    >) {
        match protocol {
            IpProtocol::All => (self.ipv4_sockets@, self.ipv6_sockets@),
            IpProtocol::V4 => (self.ipv4_sockets@, Seq::empty()),
            IpProtocol::V6 => (Seq::empty(), self.ipv6_sockets@),
        }
    }

    /// A record left with no socket of either family is kept as it is: the
    /// run then simply probes nothing for that host.
    pub fn filter_protocol(&self, protocol: IpProtocol) -> (r: HostRecord)
        ensures
            r.host == self.host,
            r.port == self.port,
            (r.ipv4_sockets@, r.ipv6_sockets@) == self.filter_spec(protocol),
    {
        let ipv4_sockets = match protocol {
            IpProtocol::V6 => Vec::new(),
            _ => copy_sockets(&self.ipv4_sockets),
        };
        let ipv6_sockets = match protocol {
            IpProtocol::V4 => Vec::new(),
            _ => copy_sockets(&self.ipv6_sockets),
        };
        HostRecord { host: self.host.clone(), port: self.port, ipv4_sockets, ipv6_sockets }
    }

    /// The destinations probed for this host: IPv4 sockets, then IPv6
    /// sockets, restricted to the families that `protocol` selects.
    pub open spec fn candidates_spec(self, protocol: IpProtocol) -> Seq<SocketAddress> {
        self.filter_spec(protocol).0 + self.filter_spec(protocol).1
    }

    pub fn candidate_sockets(&self, protocol: IpProtocol) -> (r: Vec<SocketAddress>)
        ensures
            r@ == self.candidates_spec(protocol),
    {
        let mut r: Vec<SocketAddress> = Vec::new();
        match protocol {
            IpProtocol::V6 => {},
            _ => append_sockets(&mut r, &self.ipv4_sockets),
        }
        match protocol {
            IpProtocol::V4 => {},
            _ => append_sockets(&mut r, &self.ipv6_sockets),
        }
        proof {
            assert(r@ =~= self.candidates_spec(protocol));
        }
        r
    }
}

fn copy_sockets(v: &Vec<SocketAddress>) -> (r: Vec<SocketAddress>)
    ensures
        r@ == v@,
{
    let mut r: Vec<SocketAddress> = Vec::new();
    append_sockets(&mut r, v);
    assert(r@ =~= v@);
    r
}

fn append_sockets(dst: &mut Vec<SocketAddress>, v: &Vec<SocketAddress>)
    ensures
        final(dst)@ == old(dst)@ + v@,
{
    let ghost start = dst@;
    let mut i: usize = 0;
    while i < v.len()
        invariant
            i <= v@.len(),
            dst@ == start + v@.subrange(0, i as int),
        decreases v@.len() - i,
    {
        dst.push(v[i]);
        assert(v@.subrange(0, i as int + 1) =~= v@.subrange(0, i as int).push(v@[i as int]));
        i = i + 1;
    }
    assert(v@.subrange(0, v@.len() as int) =~= v@);
}

/// Checks that every host resolved to at least one address; the error
/// names the first host that did not.
pub fn check_resolved(hosts: &Vec<HostRecord>) -> (r: Result<(), ResolutionError>)
    ensures
        r is Ok <==> forall|i: int| 0 <= i < hosts@.len() ==> !(#[trigger] hosts@[i]).is_empty_spec(),
        r matches Err(e) ==> exists|i: int|
            0 <= i < hosts@.len() && (#[trigger] hosts@[i]).is_empty_spec() && e.host == hosts@[i].host
                && forall|j: int| 0 <= j < i ==> !(#[trigger] hosts@[j]).is_empty_spec(),
{
    let mut i: usize = 0;
    while i < hosts.len()
        invariant
            i <= hosts@.len(),
            forall|j: int| 0 <= j < i ==> !(#[trigger] hosts@[j]).is_empty_spec(),
        decreases hosts@.len() - i,
    {
        if hosts[i].is_empty() {
            return Err(ResolutionError { host: hosts[i].host.clone() });
        }
        i = i + 1;
    }
    Ok(())
}

/// Filtering a record to IPv4 only leaves its IPv4 sockets exactly as
/// resolved and no IPv6 socket; filtering to IPv6 only is the mirror image.
pub proof fn lemma_filter_keeps_family(h: HostRecord, f: HostRecord, protocol: IpProtocol)
    requires
        (f.ipv4_sockets@, f.ipv6_sockets@) == h.filter_spec(protocol),
    ensures
        protocol == IpProtocol::V4 ==> f.ipv4_sockets@ == h.ipv4_sockets@ && f.ipv6_sockets@.len() == 0,
        protocol == IpProtocol::V6 ==> f.ipv6_sockets@ == h.ipv6_sockets@ && f.ipv4_sockets@.len() == 0,
        protocol == IpProtocol::All ==> f.ipv4_sockets@ == h.ipv4_sockets@ && f.ipv6_sockets@ == h.ipv6_sockets@,
{
}

} // verus!
