//! Dimension slots: a scalar slot holding one value, a set slot holding many,
//! and an optional scalar slot that may be absent.  Each slot answers
//! membership tests against a literal and merges an incoming raw value.

use vstd::prelude::*;

use crate::text::{comma_split, split_commas, str_eq};

verus! {

/// A configuration slot: it can be tested against a literal and it can take
/// in one raw value, merged by the slot's own rule.
pub trait CfgTest {
    /// Whether the slot currently holds the value `q`.
    spec fn holds(&self, q: Seq<char>) -> bool;

    /// Whether the slot would hold `q` after `v` has been put into it.
    spec fn put_holds(&self, v: Seq<char>, q: Seq<char>) -> bool;

    /// Tests the slot against a literal, byte for byte.
    fn test(&self, val: &str) -> (r: bool)
        ensures
            r == self.holds(val@),
    ;

    /// Merges one raw value into the slot.
    fn put(&mut self, val: String)
        ensures
            forall|q: Seq<char>|
                #[trigger] final(self).holds(q) == old(self).put_holds(val@, q),
    ;
}

/// A slot holding at most one value; a later write overwrites an earlier one.
pub struct CfgScalar(pub String);

impl View for CfgScalar {
    type V = Seq<char>;

    open spec fn view(&self) -> Seq<char> {
        self.0@
    }
}

impl CfgTest for CfgScalar {
    open spec fn holds(&self, q: Seq<char>) -> bool {
        self@ == q
    }

    open spec fn put_holds(&self, v: Seq<char>, q: Seq<char>) -> bool {
        q == v
    }

    fn test(&self, val: &str) -> (r: bool)
        ensures
            r == self.holds(val@),
    {
        str_eq(self.0.as_str(), val)
    }

    fn put(&mut self, val: String)
        ensures
            final(self)@ == val@,
    {
        self.0 = val;
    }
}

impl Default for CfgScalar {
    fn default() -> (r: Self)
        ensures
            r@ == Seq::<char>::empty(),
    {
        CfgScalar(String::new())
    }
}

/// An absent optional scalar holds nothing; putting a value makes it present.
impl CfgTest for Option<CfgScalar> {
    open spec fn holds(&self, q: Seq<char>) -> bool {
        match self {
            Some(s) => s@ == q,
            None => false,
        }
    }

    open spec fn put_holds(&self, v: Seq<char>, q: Seq<char>) -> bool {
        q == v
    }

    fn test(&self, val: &str) -> (r: bool)
        ensures
            r == self.holds(val@),
    {
        match self {
            Some(s) => s.test(val),
            None => false,
        }
    }

    fn put(&mut self, val: String)
        ensures
            *final(self) matches Some(s) && s@ == val@,
    {
        *self = Some(CfgScalar(val));
    }
}

/// A slot holding a set of distinct values; an incoming raw value is a
/// comma-delimited list, each element inserted on its own.
pub struct CfgSet(pub Vec<String>);

impl View for CfgSet {
    type V = Set<Seq<char>>;

    open spec fn view(&self) -> Set<Seq<char>> {
        self.0.deep_view().to_set()
    }
}

impl CfgSet {
    /// Inserts one value; inserting a value already held changes nothing.
    pub fn insert(&mut self, val: String)
        ensures
            final(self)@ == old(self)@.insert(val@),
    {
        if !self.test_ref(val.as_str()) {
            self.0.push(val);
            proof {
                broadcast use vstd::seq_lib::lemma_seq_contains_after_push;

                assert(self.0.deep_view() =~= old(self).0.deep_view().push(val@));
                assert(self@ =~= old(self)@.insert(val@));
            }
        } else {
            proof {
                assert(self@ =~= old(self)@.insert(val@));
            }
        }
    }

    fn test_ref(&self, val: &str) -> (r: bool)
        ensures
            r == self@.contains(val@),
    {
        let n = self.0.len();
        let mut i: usize = 0;
        while i < n
            invariant
                n == self.0.len(),
                i <= n,
                forall|j: int| 0 <= j < i ==> self.0.deep_view()[j] != val@,
            decreases n - i,
        {
            if str_eq(self.0[i].as_str(), val) {
                proof {
                    assert(self.0.deep_view()[i as int] == val@);
                }
                return true;
            }
            i += 1;
        }
        proof {
            assert(!self.0.deep_view().contains(val@));
        }
        false
    }
}

impl CfgTest for CfgSet {
    open spec fn holds(&self, q: Seq<char>) -> bool {
        self@.contains(q)
    }

    open spec fn put_holds(&self, v: Seq<char>, q: Seq<char>) -> bool {
        self@.contains(q) || comma_split(v).contains(q)
    }

    fn test(&self, val: &str) -> (r: bool)
        ensures
            r == self.holds(val@),
    {
        self.test_ref(val)
    }

    fn put(&mut self, val: String)
        ensures
            final(self)@ == old(self)@ + comma_split(val@).to_set(),
    {
        let parts = split_commas(val.as_str());
        let n = parts.len();
        let mut i: usize = 0;
        let mut parts = parts;
        proof {
            assert(self@ =~= old(self)@ + comma_split(val@).take(0).to_set());
        }
        while i < n
            invariant
                n == parts.len(),
                i <= n,
                parts.deep_view() == comma_split(val@),
                self@ == old(self)@ + comma_split(val@).take(i as int).to_set(),
            decreases n - i,
        {
            let ghost pre = self@;
            let part = parts[i].clone();
            self.insert(part);
            proof {
                broadcast use vstd::seq_lib::lemma_seq_contains_after_push;

                assert(comma_split(val@).take(i as int).push(parts.deep_view()[i as int])
                    =~= comma_split(val@).take(i + 1));
                assert(self@ =~= old(self)@ + comma_split(val@).take(i + 1).to_set());
            }
            i += 1;
        }
        proof {
            assert(comma_split(val@).take(n as int) =~= comma_split(val@));
            assert(self@ =~= old(self)@ + comma_split(val@).to_set());
        }
    }
}

impl Default for CfgSet {
    fn default() -> (r: Self)
        ensures
            r@ == Set::<Seq<char>>::empty(),
    {
        let r = CfgSet(Vec::new());
        proof {
            assert(r@ =~= Set::<Seq<char>>::empty());
        }
        r
    }
}

} // verus!
