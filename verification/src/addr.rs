//! Selection of a usable IPv4 address from an event's candidate addresses.
//!
//! A resolved advertisement carries a list of candidate addresses. The scan
//! keeps the first IPv4 address that is not link-local and drops the event
//! when none qualifies.

use vstd::prelude::*;
use crate::text::ipv4_string;
use crate::text::ipv4_to_string;

verus! {

/// The four octets of an IPv4 address.
#[derive(Clone, Copy, Debug, PartialEq, Eq, Structural)]
pub struct Ipv4Octets {
    pub a: u8,
    pub b: u8,
    pub c: u8,
    pub d: u8,
}

/// One candidate address of a resolved advertisement: an IPv4 address, or
/// one of another family.
#[derive(Clone, Copy, Debug, PartialEq, Eq, Structural)]
pub enum CandidateAddress {
    V4(Ipv4Octets),
    Other,
}

impl Ipv4Octets {
    /// An address in 169.254.0.0/16, scoped to one network segment.
    pub open spec fn spec_is_link_local(&self) -> bool {
        self.a == 169 && self.b == 254
    }

    /// Whether the address lies in the link-local block 169.254.0.0/16.
    pub fn is_link_local(&self) -> (r: bool)
        ensures
            r == self.spec_is_link_local(),
    {
        self.a == 169 && self.b == 254
    }

    /// The dotted-decimal form of the address.
    pub open spec fn spec_string(&self) -> Seq<char> {
        ipv4_string(self.a, self.b, self.c, self.d)
    }

    /// Renders the address in dotted decimal form.
    pub fn to_dotted_decimal(&self) -> (r: String)
        ensures
            r@ == self.spec_string(),
    {
        ipv4_to_string(self.a, self.b, self.c, self.d)
    }
}

/// A candidate is kept when it is IPv4 and not link-local.
pub open spec fn qualifies(c: CandidateAddress) -> bool {
    match c {
        CandidateAddress::V4(octets) => !octets.spec_is_link_local(),
        CandidateAddress::Other => false,
    }
}

/// The first qualifying candidate, or None when none qualifies.
pub open spec fn first_qualifying(s: Seq<CandidateAddress>) -> Option<Ipv4Octets>
    decreases s.len(),
{
    if s.len() == 0 {
        None
    } else if qualifies(s[0]) {
        match s[0] {
            CandidateAddress::V4(octets) => Some(octets),
            CandidateAddress::Other => None,
        }
    } else {
        first_qualifying(s.skip(1))
    }
}

/// Skipping a prefix without qualifying candidates keeps the selection.
pub proof fn lemma_first_qualifying_skip(s: Seq<CandidateAddress>, i: int)
    requires
        0 <= i <= s.len(),
        forall|j: int| 0 <= j < i ==> !qualifies(s[j]),
    ensures
        first_qualifying(s) == first_qualifying(s.skip(i)),
    decreases i,
{
    if i > 0 {
        lemma_first_qualifying_skip(s.skip(1), i - 1);
        assert(s.skip(1).skip(i - 1) =~= s.skip(i));
    } else {
        assert(s.skip(0) =~= s);
    }
}

/// Selects the first candidate that is IPv4 and not link-local.
#[verifier::loop_isolation(false)]
pub fn select_address(candidates: &Vec<CandidateAddress>) -> (r: Option<Ipv4Octets>)
    ensures
        r == first_qualifying(candidates@),
{
    let n = candidates.len();
    let mut i: usize = 0;
    while i < n
        invariant
            i <= n,
            n == candidates@.len(),
            forall|j: int| 0 <= j < i ==> !qualifies(candidates@[j]),
        decreases n - i,
    {
        match candidates[i] {
            CandidateAddress::V4(octets) => {
                if !octets.is_link_local() {
                    proof {
                        lemma_first_qualifying_skip(candidates@, i as int);
                        assert(candidates@.skip(i as int)[0] == candidates@[i as int]);
                    }
                    return Some(octets);
                }
            },
            CandidateAddress::Other => {},
        }
        i += 1;
    }
    proof {
        lemma_first_qualifying_skip(candidates@, n as int);
        assert(candidates@.skip(n as int) =~= Seq::<CandidateAddress>::empty());
    }
    None
}

} // verus!
