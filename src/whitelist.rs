use crate::error::EscrowError;
use vstd::prelude::*;

verus! {

/// The set of resolver identities that may fund escrows.
pub struct Whitelist {
    ids: Vec<String>,
}

impl View for Whitelist {
    type V = Set<Seq<char>>;

    closed spec fn view(&self) -> Set<Seq<char>> {
        Set::new(|a: Seq<char>| exists|i: int| 0 <= i < self.ids.len() && self.ids[i]@ == a)
    }
}

impl Whitelist {
    /// An empty whitelist.
    pub fn new() -> (r: Whitelist)
        ensures
            r@ == Set::<Seq<char>>::empty(),
    {
        let r = Whitelist { ids: Vec::new() };
        assert(r@ =~= Set::<Seq<char>>::empty());
        r
    }

    /// Whether `id` is a member.
    pub fn contains(&self, id: &String) -> (r: bool)
        ensures
            r == self@.contains(id@),
    {
        let mut i: usize = 0;
        while i < self.ids.len()
            invariant
                i <= self.ids.len(),
                forall|j: int| 0 <= j < i ==> self.ids[j]@ != id@,
            decreases self.ids.len() - i,
        {
            if self.ids[i] == *id {
                return true;
            }
            i = i + 1;
        }
        false
    }

    /// The members, each once.
    pub fn members(&self) -> (r: Vec<String>)
        ensures
            forall|a: Seq<char>| self@.contains(a) <==> exists|i: int| 0 <= i < r.len() && r[i]@ == a,
    {
        let mut r: Vec<String> = Vec::new();
        let mut i: usize = 0;
        while i < self.ids.len()
            invariant
                i <= self.ids.len(),
                r.len() == i,
                forall|j: int| 0 <= j < i ==> #[trigger] r[j]@ == self.ids[j]@,
            decreases self.ids.len() - i,
        {
            r.push(self.ids[i].clone());
            i = i + 1;
        }
        assert forall|a: Seq<char>| self@.contains(a) implies exists|i: int| 0 <= i < r.len() && r[i]@ == a by {
            let k = choose|k: int| 0 <= k < self.ids.len() && self.ids[k]@ == a;
            assert(r[k]@ == a);
        }
        r
    }

    /// Adds `id`; adding a member again changes nothing.
    pub fn insert(&mut self, id: String)
        ensures
            final(self)@ == old(self)@.insert(id@),
    {
        if !self.contains(&id) {
            let ghost prev = self.ids@;
            let ghost a = id@;
            self.ids.push(id);
            assert(self@ =~= old(self)@.insert(a)) by {
                assert(self.ids[prev.len() as int]@ == a);
                assert forall|x: Seq<char>| old(self)@.contains(x) implies self@.contains(x) by {
                    let j = choose|j: int| 0 <= j < prev.len() && prev[j]@ == x;
                    assert(self.ids[j]@ == x);
                }
            }
        } else {
            assert(old(self)@.insert(id@) =~= old(self)@);
        }
    }

    /// Removes `id`; removing a non-member changes nothing.
    pub fn remove(&mut self, id: &String)
        ensures
            final(self)@ == old(self)@.remove(id@),
    {
        let mut kept: Vec<String> = Vec::new();
        let mut i: usize = 0;
        while i < self.ids.len()
            invariant
                i <= self.ids.len(),
                forall|j: int| 0 <= j < kept.len() ==> #[trigger] kept[j]@ != id@,
                forall|j: int|
                    0 <= j < kept.len() ==> exists|k: int| 0 <= k < i && self.ids[k]@ == #[trigger] kept[j]@,
                forall|k: int|
                    0 <= k < i && #[trigger] self.ids[k]@ != id@ ==> exists|j: int|
                        0 <= j < kept.len() && kept[j]@ == self.ids[k]@,
            decreases self.ids.len() - i,
        {
            if self.ids[i] != *id {
                let ghost before = kept@;
                let s = self.ids[i].clone();
                kept.push(s);
                assert forall|k: int| 0 <= k < i + 1 && #[trigger] self.ids[k]@ != id@ implies exists|j: int|
                    0 <= j < kept.len() && kept[j]@ == self.ids[k]@ by {
                    if k < i {
                        let j = choose|j: int| 0 <= j < before.len() && before[j]@ == self.ids[k]@;
                        assert(kept[j]@ == self.ids[k]@);
                    } else {
                        assert(kept[before.len() as int]@ == self.ids[k]@);
                    }
                }
            }
            i = i + 1;
        }
        let ghost prev = *old(self);
        self.ids = kept;
        assert(self@ =~= prev@.remove(id@)) by {
            assert forall|x: Seq<char>| prev@.remove(id@).contains(x) implies self@.contains(x) by {
                let k = choose|k: int| 0 <= k < prev.ids.len() && prev.ids[k]@ == x;
                assert(prev.ids[k]@ != id@);
            }
        }
    }
}

/// Fails with the owner-only error unless `caller` is the owner.
pub fn require_owner(caller: &String, owner_id: &String) -> (r: Result<(), EscrowError>)
    ensures
        r == (if caller@ == owner_id@ { Ok(()) } else { Err(EscrowError::OwnerOnly) }),
{
    if *caller == *owner_id {
        Ok(())
    } else {
        Err(EscrowError::OwnerOnly)
    }
}

/// Fails with the resolver-only error unless `sender_id` is whitelisted.
pub fn require_resolver(resolvers: &Whitelist, sender_id: &String) -> (r: Result<(), EscrowError>)
    ensures
        r == (if resolvers@.contains(sender_id@) { Ok(()) } else { Err(EscrowError::ResolverOnly) }),
{
    if resolvers.contains(sender_id) {
        Ok(())
    } else {
        Err(EscrowError::ResolverOnly)
    }
}

} // verus!
