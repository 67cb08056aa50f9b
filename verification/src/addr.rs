//! Addresses of local interfaces, and the choice of those that take part in
//! discovery.

use vstd::prelude::*;

verus! {

/// An IPv4 address, as its four octets in network order.
#[derive(Clone, Copy, Debug, PartialEq, Eq, Hash)]
pub struct Ipv4 {
    pub octets: [u8; 4],
}

/// An IPv6 address, as its sixteen octets in network order.
#[derive(Clone, Copy, Debug, PartialEq, Eq, Hash)]
pub struct Ipv6 {
    pub octets: [u8; 16],
}

/// What one local interface reports as its address.
#[derive(Clone, Copy, Debug, PartialEq, Eq)]
pub enum LocalAddr {
    /// The interface has an IPv4 address.
    V4(Ipv4),
    /// The interface has no address, or one of another family.
    Other,
}

impl Ipv4 {
    /// The address lies in one of the private ranges 10.0.0.0/8,
    /// 172.16.0.0/12 or 192.168.0.0/16.
    pub open spec fn spec_is_private(&self) -> bool {
        let a = self.octets[0];
        let b = self.octets[1];
        a == 10 || (a == 172 && 16 <= b && b <= 31) || (a == 192 && b == 168)
    }

    pub fn new(a: u8, b: u8, c: u8, d: u8) -> (ip: Ipv4)
        ensures
            ip.octets@ == seq![a, b, c, d],
    {
        Ipv4 { octets: [a, b, c, d] }
    }

    /// Tells whether two addresses are the same.
    pub fn same(&self, other: &Ipv4) -> (same: bool)
        ensures
            same == (*self == *other),
    {
        let same = self.octets[0] == other.octets[0] && self.octets[1] == other.octets[1]
            && self.octets[2] == other.octets[2] && self.octets[3] == other.octets[3];
        proof {
            if same {
                assert(self.octets =~= other.octets);
            }
        }
        same
    }

    #[verifier::when_used_as_spec(spec_is_private)]
    pub fn is_private(&self) -> (b: bool)
        ensures
            b == self.spec_is_private(),
    {
        let a: u8 = self.octets[0];
        let b: u8 = self.octets[1];
        a == 10 || (a == 172 && 16 <= b && b <= 31) || (a == 192 && b == 168)
    }
}

impl LocalAddr {
    /// The address is a private IPv4 address, the only kind that discovery
    /// runs on.
    pub open spec fn usable(self) -> bool {
        match self {
            LocalAddr::V4(ip) => ip.spec_is_private(),
            LocalAddr::Other => false,
        }
    }

    /// The IPv4 address of a usable entry.
    pub open spec fn ipv4(self) -> Ipv4
        recommends
            self.usable(),
    {
        match self {
            LocalAddr::V4(ip) => ip,
            LocalAddr::Other => arbitrary(),
        }
    }
}

/// The private IPv4 addresses among `candidates`, each once, in the order in
/// which they were first reported.
pub open spec fn private_ipv4_addrs(candidates: Seq<LocalAddr>) -> Seq<Ipv4>
    decreases candidates.len(),
{
    if candidates.len() == 0 {
        Seq::empty()
    } else {
        let before = private_ipv4_addrs(candidates.drop_last());
        let last = candidates.last();
        if last.usable() && !before.contains(last.ipv4()) {
            before.push(last.ipv4())
        } else {
            before
        }
    }
}

/// The chosen addresses form a set: none occurs twice, and an address is
/// among them exactly when it is private and some interface reported it.
pub proof fn private_ipv4_addrs_is_a_set(candidates: Seq<LocalAddr>)
    ensures
        private_ipv4_addrs(candidates).no_duplicates(),
        forall|a: Ipv4| #[trigger]
            private_ipv4_addrs(candidates).contains(a) <==> (candidates.contains(LocalAddr::V4(a))
                && a.spec_is_private()),
    decreases candidates.len(),
{
    if candidates.len() > 0 {
        let rest = candidates.drop_last();
        let last = candidates.last();
        let before = private_ipv4_addrs(rest);
        let chosen = private_ipv4_addrs(candidates);
        private_ipv4_addrs_is_a_set(rest);
        assert forall|a: Ipv4| #[trigger]
            chosen.contains(a) <==> (candidates.contains(LocalAddr::V4(a))
                && a.spec_is_private()) by {
            let reported = LocalAddr::V4(a);
            if candidates.contains(reported) {
                let i = choose|i: int| 0 <= i < candidates.len() && candidates[i] == reported;
                if i < rest.len() {
                    assert(rest[i] == reported);
                }
            }
            if rest.contains(reported) {
                let i = choose|i: int| 0 <= i < rest.len() && rest[i] == reported;
                assert(candidates[i] == reported);
            }
            assert(candidates[candidates.len() - 1] == last);
            if chosen.contains(a) {
                let i = choose|i: int| 0 <= i < chosen.len() && chosen[i] == a;
                if i < before.len() {
                    assert(before[i] == a);
                }
            }
            if before.contains(a) {
                let i = choose|i: int| 0 <= i < before.len() && before[i] == a;
                assert(chosen[i] == a);
            }
            if last.usable() && !before.contains(last.ipv4()) {
                assert(chosen[before.len() as int] == last.ipv4());
            }
        }
    }
}

/// Tells whether `addrs` holds `ip`.
fn holds(addrs: &Vec<Ipv4>, ip: &Ipv4) -> (found: bool)
    ensures
        found == addrs@.contains(*ip),
{
    let mut i: usize = 0;
    while i < addrs.len()
        invariant
            i <= addrs@.len(),
            forall|k: int| 0 <= k < i ==> addrs@[k] != *ip,
        decreases addrs@.len() - i,
    {
        if addrs[i].same(ip) {
            return true;
        }
        i += 1;
    }
    false
}

/// Picks the addresses that discovery runs on out of what the local
/// interfaces report: the set of private IPv4 addresses, each once, in the
/// order in which they were first reported.
pub fn list_ipv4_addrs(candidates: &Vec<LocalAddr>) -> (addrs: Vec<Ipv4>)
    ensures
        addrs@ == private_ipv4_addrs(candidates@),
        addrs@.no_duplicates(),
        forall|a: Ipv4| #[trigger]
            addrs@.contains(a) <==> (candidates@.contains(LocalAddr::V4(a)) && a.spec_is_private()),
{
    let mut addrs: Vec<Ipv4> = Vec::new();
    let mut i: usize = 0;
    while i < candidates.len()
        invariant
            i <= candidates.len(),
            addrs@ == private_ipv4_addrs(candidates@.take(i as int)),
        decreases candidates.len() - i,
    {
        proof {
            assert(candidates@.take(i + 1).drop_last() =~= candidates@.take(i as int));
        }
        match candidates[i] {
            LocalAddr::V4(ip) => {
                if ip.is_private() && !holds(&addrs, &ip) {
                    addrs.push(ip);
                }
            },
            LocalAddr::Other => {},
        }
        i += 1;
    }
    proof {
        assert(candidates@.take(i as int) =~= candidates@);
        private_ipv4_addrs_is_a_set(candidates@);
    }
    addrs
}

} // verus!
