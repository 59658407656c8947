//! The per-session deduplication set of admitted (address, category) pairs.

use vstd::prelude::*;
use crate::text::str_eq;

verus! {

/// One admitted (address, category) pair.
pub struct DedupKey {
    pub ip: String,
    pub service_type: String,
}

/// The set of (address, category) pairs already admitted this session.
pub struct DedupSet {
    keys: Vec<DedupKey>,
}

impl View for DedupSet {
    type V = Set<(Seq<char>, Seq<char>)>;

    closed spec fn view(&self) -> Set<(Seq<char>, Seq<char>)> {
        Set::new(
            |p: (Seq<char>, Seq<char>)|
                exists|i: int|
                    0 <= i < self.keys@.len() && (self.keys@[i].ip@ == p.0
                        && self.keys@[i].service_type@ == p.1),
        )
    }
}

impl DedupSet {
    /// Creates an empty set.
    pub fn new() -> (r: DedupSet)
        ensures
            r@ == Set::<(Seq<char>, Seq<char>)>::empty(),
    {
        let r = DedupSet { keys: Vec::new() };
        proof {
            assert(r@ =~= Set::<(Seq<char>, Seq<char>)>::empty());
        }
        r
    }

    /// Discards every pair.
    pub fn clear(&mut self)
        ensures
            final(self)@ == Set::<(Seq<char>, Seq<char>)>::empty(),
    {
        self.keys.clear();
        proof {
            assert(self@ =~= Set::<(Seq<char>, Seq<char>)>::empty());
        }
    }

    /// Inserts the pair unless it is already present; returns whether it was
    /// newly inserted.
    #[verifier::loop_isolation(false)]
    pub fn insert(&mut self, ip: &str, service_type: &str) -> (newly: bool)
        ensures
            newly == !old(self)@.contains((ip@, service_type@)),
            final(self)@ == old(self)@.insert((ip@, service_type@)),
    {
        let n = self.keys.len();
        let mut i: usize = 0;
        while i < n
            invariant
                i <= n,
                n == self.keys.len(),
                *self == *old(self),
                forall|j: int|
                    0 <= j < i ==> !(self.keys@[j].ip@ == ip@ && self.keys@[j].service_type@
                        == service_type@),
            decreases n - i,
        {
            if str_eq(self.keys[i].ip.as_str(), ip) && str_eq(
                self.keys[i].service_type.as_str(),
                service_type,
            ) {
                proof {
                    assert(old(self)@.contains((ip@, service_type@)));
                    assert(self@ =~= old(self)@.insert((ip@, service_type@)));
                }
                return false;
            }
            i += 1;
        }
        proof {
            assert(!old(self)@.contains((ip@, service_type@)));
        }
        self.keys.push(
            DedupKey { ip: ip.to_owned(), service_type: service_type.to_owned() },
        );
        proof {
            let ghost keys1 = self.keys@;
            let ghost keys0 = old(self).keys@;
            assert forall|p: (Seq<char>, Seq<char>)| self@.contains(p) implies old(self)@.insert(
                (ip@, service_type@),
            ).contains(p) by {
                let w = choose|i: int|
                    0 <= i < keys1.len() && (keys1[i].ip@ == p.0 && keys1[i].service_type@ == p.1);
                if w < keys0.len() {
                    assert(keys0[w] == keys1[w]);
                }
            }
            assert forall|p: (Seq<char>, Seq<char>)|
                old(self)@.insert((ip@, service_type@)).contains(p) implies self@.contains(p) by {
                if p == (ip@, service_type@) {
                    assert(keys1[keys1.len() - 1].ip@ == p.0 && keys1[keys1.len() - 1].service_type@
                        == p.1);
                } else {
                    let w = choose|i: int|
                        0 <= i < keys0.len() && (keys0[i].ip@ == p.0 && keys0[i].service_type@
                            == p.1);
                    assert(keys1[w] == keys0[w]);
                }
            }
            assert(self@ =~= old(self)@.insert((ip@, service_type@)));
        }
        true
    }
}

} // verus!
