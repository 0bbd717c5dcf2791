use crate::codec::{decode_hex, hex_bytes, is_hex_text, keccak256, keccak256_of};
use crate::error::EscrowError;
use crate::escrow::{Escrow, EscrowCreateMsg, EscrowCreateMsgView, EscrowStore, EscrowView};
use crate::whitelist::{require_owner, require_resolver, Whitelist};
use vstd::prelude::*;

verus! {

/// The deposit, in the ledger's smallest unit, that claim and reclaim must carry.
pub const ONE_YOCTO: u128 = 1;

/// Length in bytes of a hashlock.
pub const HASHLOCK_LEN: usize = 32;

/// An outbound request to a token ledger: move `amount` to `receiver_id`.
pub struct TransferRequest {
    pub token_contract_id: String,
    pub receiver_id: String,
    pub amount: u128,
}

/// The mathematical value of a [`TransferRequest`].
pub struct TransferView {
    pub token_contract_id: Seq<char>,
    pub receiver_id: Seq<char>,
    pub amount: u128,
}

impl View for TransferRequest {
    type V = TransferView;

    open spec fn view(&self) -> TransferView {
        TransferView {
            token_contract_id: self.token_contract_id@,
            receiver_id: self.receiver_id@,
            amount: self.amount,
        }
    }
}

/// The value of a call that may end in a transfer request.
pub open spec fn transfer_outcome(r: Result<TransferRequest, EscrowError>) -> Result<TransferView, EscrowError> {
    match r {
        Ok(t) => Ok(t@),
        Err(e) => Err(e),
    }
}

/// The whole state of the contract: its owner, the whitelist and the escrows by order.
pub struct ContractView {
    pub owner_id: Seq<char>,
    pub resolvers: Set<Seq<char>>,
    pub escrows: Map<Seq<char>, EscrowView>,
}

/// Every stored hashlock is a 32-byte digest.
pub open spec fn hashlocks_valid(escrows: Map<Seq<char>, EscrowView>) -> bool {
    forall|k: Seq<char>| #[trigger] escrows.contains_key(k) ==> escrows[k].hashlock.len() == HASHLOCK_LEN
}

/// The hashlock that hex text stands for, when it is exactly 32 bytes of hex.
pub open spec fn hashlock_of(hex: Seq<char>) -> Option<Seq<u8>> {
    if is_hex_text(hex) && hex_bytes(hex).len() == HASHLOCK_LEN {
        Some(hex_bytes(hex))
    } else {
        None
    }
}

/// Adding a resolver: owner only, idempotent.
pub open spec fn add_resolver_step(s: ContractView, caller: Seq<char>, id: Seq<char>) -> (ContractView, Result<(), EscrowError>) {
    if caller != s.owner_id {
        (s, Err(EscrowError::OwnerOnly))
    } else {
        (ContractView { resolvers: s.resolvers.insert(id), ..s }, Ok(()))
    }
}

/// Removing a resolver: owner only, idempotent.
pub open spec fn remove_resolver_step(s: ContractView, caller: Seq<char>, id: Seq<char>) -> (ContractView, Result<(), EscrowError>) {
    if caller != s.owner_id {
        (s, Err(EscrowError::OwnerOnly))
    } else {
        (ContractView { resolvers: s.resolvers.remove(id), ..s }, Ok(()))
    }
}

/// Opening an escrow when ledger `ledger` reports `amount` tokens from `sender`;
/// `msg` is the parsed payload, or nothing when it did not parse.  On success
/// none of the tokens are handed back.
pub open spec fn create_step(
    s: ContractView,
    ledger: Seq<char>,
    sender: Seq<char>,
    amount: u128,
    msg: Option<EscrowCreateMsgView>,
) -> (ContractView, Result<u128, EscrowError>) {
    if !s.resolvers.contains(sender) {
        (s, Err(EscrowError::ResolverOnly))
    } else {
        match msg {
            None => (s, Err(EscrowError::InvalidMsgFormat)),
            Some(m) => if s.escrows.contains_key(m.order_hash) {
                (s, Err(EscrowError::EscrowExists))
            } else {
                match hashlock_of(m.hashlock_hex) {
                    None => (s, Err(EscrowError::InvalidHexFormat)),
                    Some(h) => {
                        let e = EscrowView {
                            resolver_id: sender,
                            recipient_id: m.recipient_id,
                            token_contract_id: ledger,
                            amount,
                            hashlock: h,
                            timelock: m.timelock,
                        };
                        (ContractView { escrows: s.escrows.insert(m.order_hash, e), ..s }, Ok(0))
                    },
                }
            },
        }
    }
}

/// Settling a claim once the digest of the secret is known: the escrow goes, and
/// its amount goes to the recipient.
pub open spec fn settle_claim_step(s: ContractView, order: Seq<char>, digest: Seq<u8>) -> (ContractView, Result<TransferView, EscrowError>) {
    if !s.escrows.contains_key(order) {
        (s, Err(EscrowError::EscrowNotFound))
    } else if digest != s.escrows[order].hashlock {
        (s, Err(EscrowError::InvalidSecret))
    } else {
        let e = s.escrows[order];
        (
            ContractView { escrows: s.escrows.remove(order), ..s },
            Ok(TransferView { token_contract_id: e.token_contract_id, receiver_id: e.recipient_id, amount: e.amount }),
        )
    }
}

/// Claiming an escrow with a hex secret whose Keccak-256 digest must match the hashlock.
pub open spec fn claim_step(s: ContractView, deposit: u128, order: Seq<char>, secret_hex: Seq<char>) -> (ContractView, Result<TransferView, EscrowError>) {
    if deposit != ONE_YOCTO {
        (s, Err(EscrowError::WrongDeposit))
    } else if !s.escrows.contains_key(order) {
        (s, Err(EscrowError::EscrowNotFound))
    } else if !is_hex_text(secret_hex) {
        (s, Err(EscrowError::InvalidHexFormat))
    } else {
        settle_claim_step(s, order, keccak256_of(hex_bytes(secret_hex)))
    }
}

/// Reclaiming an expired escrow: only its resolver, only after the timelock; the
/// amount goes back to the resolver.
pub open spec fn reclaim_step(s: ContractView, deposit: u128, caller: Seq<char>, now: u64, order: Seq<char>) -> (ContractView, Result<TransferView, EscrowError>) {
    if deposit != ONE_YOCTO {
        (s, Err(EscrowError::WrongDeposit))
    } else if !s.escrows.contains_key(order) {
        (s, Err(EscrowError::EscrowNotFound))
    } else if now <= s.escrows[order].timelock {
        (s, Err(EscrowError::TimelockNotExpired))
    } else if caller != s.escrows[order].resolver_id {
        (s, Err(EscrowError::ResolverOnly))
    } else {
        let e = s.escrows[order];
        (
            ContractView { escrows: s.escrows.remove(order), ..s },
            Ok(TransferView { token_contract_id: e.token_contract_id, receiver_id: e.resolver_id, amount: e.amount }),
        )
    }
}

/// The escrow contract: an owner, a whitelist of resolvers and the open escrows.
pub struct Contract {
    pub owner_id: String,
    pub resolvers: Whitelist,
    pub escrows: EscrowStore,
}

impl View for Contract {
    type V = ContractView;

    open spec fn view(&self) -> ContractView {
        ContractView { owner_id: self.owner_id@, resolvers: self.resolvers@, escrows: self.escrows@ }
    }
}

fn bytes_equal(a: &Vec<u8>, b: &Vec<u8>) -> (r: bool)
    ensures
        r == (a@ == b@),
{
    if a.len() != b.len() {
        return false;
    }
    let mut i: usize = 0;
    while i < a.len()
        invariant
            a.len() == b.len(),
            i <= a.len(),
            forall|j: int| 0 <= j < i ==> a@[j] == b@[j],
        decreases a.len() - i,
    {
        if a[i] != b[i] {
            return false;
        }
        i = i + 1;
    }
    assert(a@ =~= b@);
    true
}

impl Contract {
    /// The store is well formed and every stored hashlock is 32 bytes.
    pub open spec fn wf(&self) -> bool {
        self.escrows.wf() && hashlocks_valid(self@.escrows)
    }

    /// Sets up the contract for `owner_id`; fails if state already exists.
    pub fn new(owner_id: String, state_exists: bool) -> (r: Result<Contract, EscrowError>)
        ensures
            state_exists ==> r == Err::<Contract, EscrowError>(EscrowError::AlreadyInitialized),
            !state_exists ==> (r matches Ok(c) && c.wf() && c@ == (ContractView {
                owner_id: owner_id@,
                resolvers: Set::empty(),
                escrows: Map::empty(),
            })),
    {
        if state_exists {
            return Err(EscrowError::AlreadyInitialized);
        }
        Ok(Contract { owner_id, resolvers: Whitelist::new(), escrows: EscrowStore::new() })
    }

    /// Whitelists `resolver_id`; only the owner may.
    pub fn add_resolver(&mut self, caller: &String, resolver_id: String) -> (r: Result<(), EscrowError>)
        requires
            old(self).wf(),
        ensures
            final(self).wf(),
            (final(self)@, r) == add_resolver_step(old(self)@, caller@, resolver_id@),
    {
        require_owner(caller, &self.owner_id)?;
        self.resolvers.insert(resolver_id);
        Ok(())
    }

    /// Takes `resolver_id` off the whitelist; only the owner may.
    pub fn remove_resolver(&mut self, caller: &String, resolver_id: String) -> (r: Result<(), EscrowError>)
        requires
            old(self).wf(),
        ensures
            final(self).wf(),
            (final(self)@, r) == remove_resolver_step(old(self)@, caller@, resolver_id@),
    {
        require_owner(caller, &self.owner_id)?;
        self.resolvers.remove(&resolver_id);
        Ok(())
    }

    /// Whether `resolver_id` is whitelisted.
    pub fn is_resolver(&self, resolver_id: &String) -> (r: bool)
        ensures
            r == self@.resolvers.contains(resolver_id@),
    {
        self.resolvers.contains(resolver_id)
    }

    /// The escrow open for the order, if any.
    pub fn get_escrow(&self, order_hash: &String) -> (r: Option<&Escrow>)
        requires
            self.wf(),
        ensures
            r is Some <==> self@.escrows.contains_key(order_hash@),
            r matches Some(e) ==> e@ == self@.escrows[order_hash@],
    {
        self.escrows.get(order_hash)
    }

    /// Settles a claim on the order given the digest of the presented secret.
    pub fn claim_with_digest(&mut self, order_hash: &String, digest: &Vec<u8>) -> (r: Result<TransferRequest, EscrowError>)
        requires
            old(self).wf(),
        ensures
            final(self).wf(),
            (final(self)@, transfer_outcome(r)) == settle_claim_step(old(self)@, order_hash@, digest@),
    {
        match self.escrows.get(order_hash) {
            None => return Err(EscrowError::EscrowNotFound),
            Some(e) => {
                if !bytes_equal(digest, &e.hashlock) {
                    return Err(EscrowError::InvalidSecret);
                }
            },
        }
        let ghost before = self@;
        match self.escrows.remove(order_hash) {
            Some(e) => {
                proof {
                    assert(hashlocks_valid(self@.escrows)) by {
                        assert forall|k: Seq<char>| #[trigger] self@.escrows.contains_key(k) implies self@.escrows[k].hashlock.len() == HASHLOCK_LEN by {
                            assert(before.escrows.contains_key(k));
                        }
                    }
                }
                Ok(TransferRequest { token_contract_id: e.token_contract_id, receiver_id: e.recipient_id, amount: e.amount })
            },
            None => Err(EscrowError::EscrowNotFound),
        }
    }

    /// Claims the order's escrow for its recipient by presenting the hex secret.
    pub fn claim(&mut self, attached_deposit: u128, order_hash: &String, secret_hex: &String) -> (r: Result<TransferRequest, EscrowError>)
        requires
            old(self).wf(),
        ensures
            final(self).wf(),
            (final(self)@, transfer_outcome(r)) == claim_step(old(self)@, attached_deposit, order_hash@, secret_hex@),
    {
        if attached_deposit != ONE_YOCTO {
            return Err(EscrowError::WrongDeposit);
        }
        if !self.escrows.contains(order_hash) {
            return Err(EscrowError::EscrowNotFound);
        }
        let secret = match decode_hex(secret_hex) {
            Ok(b) => b,
            Err(_) => return Err(EscrowError::InvalidHexFormat),
        };
        let digest = keccak256(&secret);
        self.claim_with_digest(order_hash, &digest)
    }

    /// Returns the order's escrow to its resolver once the timelock has passed.
    pub fn reclaim(&mut self, attached_deposit: u128, caller: &String, now: u64, order_hash: &String) -> (r: Result<TransferRequest, EscrowError>)
        requires
            old(self).wf(),
        ensures
            final(self).wf(),
            (final(self)@, transfer_outcome(r)) == reclaim_step(old(self)@, attached_deposit, caller@, now, order_hash@),
    {
        if attached_deposit != ONE_YOCTO {
            return Err(EscrowError::WrongDeposit);
        }
        match self.escrows.get(order_hash) {
            None => return Err(EscrowError::EscrowNotFound),
            Some(e) => {
                if now <= e.timelock {
                    return Err(EscrowError::TimelockNotExpired);
                }
                if *caller != e.resolver_id {
                    return Err(EscrowError::ResolverOnly);
                }
            },
        }
        let ghost before = self@;
        match self.escrows.remove(order_hash) {
            Some(e) => {
                proof {
                    assert(hashlocks_valid(self@.escrows)) by {
                        assert forall|k: Seq<char>| #[trigger] self@.escrows.contains_key(k) implies self@.escrows[k].hashlock.len() == HASHLOCK_LEN by {
                            assert(before.escrows.contains_key(k));
                        }
                    }
                }
                Ok(TransferRequest { token_contract_id: e.token_contract_id, receiver_id: e.resolver_id, amount: e.amount })
            },
            None => Err(EscrowError::EscrowNotFound),
        }
    }

    /// Opens an escrow when the token ledger `ledger_id` reports `amount` tokens sent
    /// by `sender_id`; `msg` is the parsed payload, or `None` when it did not parse.
    /// Returns the amount to hand back to the sender, always none.
    pub fn ft_on_transfer(
        &mut self,
        ledger_id: &String,
        sender_id: String,
        amount: u128,
        msg: Option<EscrowCreateMsg>,
    ) -> (r: Result<u128, EscrowError>)
        requires
            old(self).wf(),
        ensures
            final(self).wf(),
            (final(self)@, r) == create_step(
                old(self)@,
                ledger_id@,
                sender_id@,
                amount,
                match msg { Some(m) => Some(m@), None => None },
            ),
    {
        require_resolver(&self.resolvers, &sender_id)?;
        let m = match msg {
            Some(m) => m,
            None => return Err(EscrowError::InvalidMsgFormat),
        };
        if self.escrows.contains(&m.order_hash) {
            return Err(EscrowError::EscrowExists);
        }
        let hashlock = match decode_hex(&m.hashlock_hex) {
            Ok(b) => b,
            Err(_) => return Err(EscrowError::InvalidHexFormat),
        };
        if hashlock.len() != HASHLOCK_LEN {
            return Err(EscrowError::InvalidHexFormat);
        }
        let escrow = Escrow {
            resolver_id: sender_id,
            recipient_id: m.recipient_id,
            token_contract_id: ledger_id.clone(),
            amount,
            hashlock,
            timelock: m.timelock,
        };
        let ghost before = self@;
        let ghost ev = escrow@;
        self.escrows.insert(m.order_hash, escrow);
        proof {
            assert(hashlocks_valid(self@.escrows)) by {
                assert forall|k: Seq<char>| #[trigger] self@.escrows.contains_key(k) implies self@.escrows[k].hashlock.len() == HASHLOCK_LEN by {
                    if k != m.order_hash@ {
                        assert(before.escrows.contains_key(k));
                    }
                }
            }
        }
        Ok(0)
    }
}

} // verus!
