use vstd::prelude::*;

verus! {

/// One locked swap order.
pub struct Escrow {
    pub resolver_id: String,
    pub recipient_id: String,
    pub token_contract_id: String,
    pub amount: u128,
    pub hashlock: Vec<u8>,
    pub timelock: u64,
}

/// The mathematical value of an [`Escrow`].
pub struct EscrowView {
    pub resolver_id: Seq<char>,
    pub recipient_id: Seq<char>,
    pub token_contract_id: Seq<char>,
    pub amount: u128,
    pub hashlock: Seq<u8>,
    pub timelock: u64,
}

impl View for Escrow {
    type V = EscrowView;

    open spec fn view(&self) -> EscrowView {
        EscrowView {
            resolver_id: self.resolver_id@,
            recipient_id: self.recipient_id@,
            token_contract_id: self.token_contract_id@,
            amount: self.amount,
            hashlock: self.hashlock@,
            timelock: self.timelock,
        }
    }
}

/// The parameters a resolver sends along with the tokens to open an escrow.
pub struct EscrowCreateMsg {
    pub order_hash: String,
    pub hashlock_hex: String,
    pub timelock: u64,
    pub recipient_id: String,
}

/// The mathematical value of an [`EscrowCreateMsg`].
pub struct EscrowCreateMsgView {
    pub order_hash: Seq<char>,
    pub hashlock_hex: Seq<char>,
    pub timelock: u64,
    pub recipient_id: Seq<char>,
}

impl View for EscrowCreateMsg {
    type V = EscrowCreateMsgView;

    open spec fn view(&self) -> EscrowCreateMsgView {
        EscrowCreateMsgView {
            order_hash: self.order_hash@,
            hashlock_hex: self.hashlock_hex@,
            timelock: self.timelock,
            recipient_id: self.recipient_id@,
        }
    }
}

/// A stored escrow together with the order it belongs to.
pub struct StoreEntry {
    pub order_hash: String,
    pub escrow: Escrow,
}

/// The escrows in flight, at most one per order.
pub struct EscrowStore {
    entries: Vec<StoreEntry>,
    contents: Ghost<Map<Seq<char>, EscrowView>>,
}

impl View for EscrowStore {
    type V = Map<Seq<char>, EscrowView>;

    closed spec fn view(&self) -> Map<Seq<char>, EscrowView> {
        self.contents@
    }
}

impl EscrowStore {
    /// Each entry is in the map under its order, orders are unique, and the map holds
    /// nothing else.
    pub closed spec fn wf(&self) -> bool {
        &&& forall|i: int|
            0 <= i < self.entries.len() ==> {
                &&& self.contents@.contains_key(#[trigger] self.entries[i].order_hash@)
                &&& self.contents@[self.entries[i].order_hash@] == self.entries[i].escrow@
            }
        &&& forall|i: int, j: int|
            0 <= i < self.entries.len() && 0 <= j < self.entries.len() && i != j
                ==> #[trigger] self.entries[i].order_hash@ != #[trigger] self.entries[j].order_hash@
        &&& forall|k: Seq<char>|
            #[trigger] self.contents@.contains_key(k) ==> exists|i: int|
                0 <= i < self.entries.len() && self.entries[i].order_hash@ == k
    }

    /// An empty store.
    pub fn new() -> (r: EscrowStore)
        ensures
            r.wf(),
            r@ == Map::<Seq<char>, EscrowView>::empty(),
    {
        EscrowStore { entries: Vec::new(), contents: Ghost(Map::empty()) }
    }

    fn position(&self, order_hash: &String) -> (r: Option<usize>)
        requires
            self.wf(),
        ensures
            r matches Some(i) ==> i < self.entries.len() && self.entries[i as int].order_hash@
                == order_hash@,
            r is None ==> !self@.contains_key(order_hash@),
    {
        let mut i: usize = 0;
        while i < self.entries.len()
            invariant
                self.wf(),
                i <= self.entries.len(),
                forall|j: int| 0 <= j < i ==> self.entries[j].order_hash@ != order_hash@,
            decreases self.entries.len() - i,
        {
            if self.entries[i].order_hash == *order_hash {
                return Some(i);
            }
            i = i + 1;
        }
        proof {
            if self@.contains_key(order_hash@) {
                let j = choose|j: int|
                    0 <= j < self.entries.len() && self.entries[j].order_hash@ == order_hash@;
                assert(self.entries[j].order_hash@ != order_hash@);
            }
        }
        None
    }

    /// Whether an escrow is stored for the order.
    pub fn contains(&self, order_hash: &String) -> (r: bool)
        requires
            self.wf(),
        ensures
            r == self@.contains_key(order_hash@),
    {
        self.position(order_hash).is_some()
    }

    /// The escrow stored for the order, if any.
    pub fn get(&self, order_hash: &String) -> (r: Option<&Escrow>)
        requires
            self.wf(),
        ensures
            r is Some <==> self@.contains_key(order_hash@),
            r matches Some(e) ==> e@ == self@[order_hash@],
    {
        match self.position(order_hash) {
            Some(i) => Some(&self.entries[i].escrow),
            None => None,
        }
    }

    /// Stores a new escrow under an order that has none.
    pub fn insert(&mut self, order_hash: String, escrow: Escrow)
        requires
            old(self).wf(),
            !old(self)@.contains_key(order_hash@),
        ensures
            final(self).wf(),
            final(self)@ == old(self)@.insert(order_hash@, escrow@),
    {
        let ghost k = order_hash@;
        let ghost v = escrow@;
        self.entries.push(StoreEntry { order_hash, escrow });
        self.contents = Ghost(self.contents@.insert(k, v));
        proof {
            let n = self.entries.len() - 1;
            assert(self.entries[n].order_hash@ == k);
            assert forall|i: int, j: int|
                0 <= i < self.entries.len() && 0 <= j < self.entries.len() && i != j
                    implies #[trigger] self.entries[i].order_hash@
                    != #[trigger] self.entries[j].order_hash@ by {
                if i < n && j < n {
                    assert(old(self).entries[i] == self.entries[i]);
                    assert(old(self).entries[j] == self.entries[j]);
                } else if i < n {
                    assert(old(self).entries[i] == self.entries[i]);
                    assert(old(self)@.contains_key(old(self).entries[i].order_hash@));
                } else {
                    assert(old(self).entries[j] == self.entries[j]);
                    assert(old(self)@.contains_key(old(self).entries[j].order_hash@));
                }
            }
            assert forall|i: int| 0 <= i < self.entries.len() implies {
                &&& self.contents@.contains_key(#[trigger] self.entries[i].order_hash@)
                &&& self.contents@[self.entries[i].order_hash@] == self.entries[i].escrow@
            } by {
                if i < n {
                    assert(old(self).entries[i] == self.entries[i]);
                    assert(old(self)@.contains_key(old(self).entries[i].order_hash@));
                }
            }
            assert forall|key: Seq<char>| #[trigger] self.contents@.contains_key(key) implies exists|i: int|
                0 <= i < self.entries.len() && self.entries[i].order_hash@ == key by {
                if key != k {
                    let i = choose|i: int|
                        0 <= i < old(self).entries.len() && old(self).entries[i].order_hash@ == key;
                    assert(old(self).entries[i] == self.entries[i]);
                }
            }
        }
    }

    /// The stored escrows with their orders, each order once.
    pub fn into_entries(self) -> (r: Vec<StoreEntry>)
        requires
            self.wf(),
        ensures
            forall|i: int|
                0 <= i < r.len() ==> {
                    &&& self@.contains_key(#[trigger] r[i].order_hash@)
                    &&& self@[r[i].order_hash@] == r[i].escrow@
                },
            forall|i: int, j: int|
                0 <= i < r.len() && 0 <= j < r.len() && i != j ==> #[trigger] r[i].order_hash@
                    != #[trigger] r[j].order_hash@,
            forall|k: Seq<char>|
                #[trigger] self@.contains_key(k) ==> exists|i: int| 0 <= i < r.len() && r[i].order_hash@ == k,
    {
        self.entries
    }

    /// Takes out the escrow stored for the order, if any.
    pub fn remove(&mut self, order_hash: &String) -> (r: Option<Escrow>)
        requires
            old(self).wf(),
        ensures
            final(self).wf(),
            final(self)@ == old(self)@.remove(order_hash@),
            r is Some <==> old(self)@.contains_key(order_hash@),
            r matches Some(e) ==> e@ == old(self)@[order_hash@],
    {
        match self.position(order_hash) {
            None => {
                assert(old(self)@.remove(order_hash@) =~= old(self)@);
                None
            },
            Some(p) => {
                let ghost k = order_hash@;
                let entry = self.entries.remove(p);
                self.contents = Ghost(self.contents@.remove(k));
                proof {
                    assert forall|i: int| 0 <= i < self.entries.len() implies {
                        &&& self.contents@.contains_key(#[trigger] self.entries[i].order_hash@)
                        &&& self.contents@[self.entries[i].order_hash@] == self.entries[i].escrow@
                    } by {
                        let o = if i < p { i } else { i + 1 };
                        assert(old(self).entries[o] == self.entries[i]);
                        assert(old(self).entries[o].order_hash@ != old(self).entries[p as int].order_hash@);
                        assert(old(self)@.contains_key(old(self).entries[o].order_hash@));
                    }
                    assert forall|i: int, j: int|
                        0 <= i < self.entries.len() && 0 <= j < self.entries.len() && i != j
                            implies #[trigger] self.entries[i].order_hash@
                            != #[trigger] self.entries[j].order_hash@ by {
                        let oi = if i < p { i } else { i + 1 };
                        let oj = if j < p { j } else { j + 1 };
                        assert(old(self).entries[oi] == self.entries[i]);
                        assert(old(self).entries[oj] == self.entries[j]);
                        assert(old(self).entries[oi].order_hash@ != old(self).entries[oj].order_hash@);
                    }
                    assert forall|key: Seq<char>| #[trigger] self.contents@.contains_key(key) implies exists|i: int|
                        0 <= i < self.entries.len() && self.entries[i].order_hash@ == key by {
                        let o = choose|o: int|
                            0 <= o < old(self).entries.len() && old(self).entries[o].order_hash@ == key;
                        assert(o != p);
                        let i = if o < p { o } else { o - 1 };
                        assert(old(self).entries[o] == self.entries[i]);
                    }
                }
                Some(entry.escrow)
            },
        }
    }
}

} // verus!
