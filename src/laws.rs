use crate::codec::{hex_bytes, is_hex_text, keccak256_of};
use crate::contract::{
    claim_step, create_step, reclaim_step, remove_resolver_step, ContractView, TransferView, HASHLOCK_LEN,
    ONE_YOCTO,
};
use crate::error::EscrowError;
use crate::escrow::{EscrowCreateMsgView, EscrowView};
use vstd::prelude::*;

verus! {

/// Opening an escrow with valid inputs leaves the sender whitelisted and stores a
/// record whose fields are exactly the inputs, except that the token ledger is the
/// one that reported the transfer.
pub proof fn lemma_create_records_input(
    s: ContractView,
    ledger: Seq<char>,
    sender: Seq<char>,
    amount: u128,
    m: EscrowCreateMsgView,
)
    requires
        s.resolvers.contains(sender),
        !s.escrows.contains_key(m.order_hash),
        is_hex_text(m.hashlock_hex),
        hex_bytes(m.hashlock_hex).len() == HASHLOCK_LEN,
    ensures
        ({
            let (t, r) = create_step(s, ledger, sender, amount, Some(m));
            &&& r == Ok::<u128, EscrowError>(0)
            &&& t.resolvers.contains(sender)
            &&& t.escrows.contains_key(m.order_hash)
            &&& t.escrows[m.order_hash] == (EscrowView {
                resolver_id: sender,
                recipient_id: m.recipient_id,
                token_contract_id: ledger,
                amount,
                hashlock: hex_bytes(m.hashlock_hex),
                timelock: m.timelock,
            })
        }),
{
}

/// A second opening for an order that already has an escrow fails with
/// escrow-exists and leaves the first record as it was.
pub proof fn lemma_duplicate_order_refused(
    s: ContractView,
    ledger: Seq<char>,
    sender: Seq<char>,
    amount: u128,
    m: EscrowCreateMsgView,
    ledger2: Seq<char>,
    sender2: Seq<char>,
    amount2: u128,
    m2: EscrowCreateMsgView,
)
    requires
        create_step(s, ledger, sender, amount, Some(m)).1 is Ok,
        create_step(s, ledger, sender, amount, Some(m)).0.resolvers.contains(sender2),
        m2.order_hash == m.order_hash,
    ensures
        ({
            let t = create_step(s, ledger, sender, amount, Some(m)).0;
            create_step(t, ledger2, sender2, amount2, Some(m2)) == (t, Err::<u128, EscrowError>(
                EscrowError::EscrowExists,
            ))
        }),
{
}

/// A claim with the secret behind the hashlock succeeds and pays the recipient;
/// any further claim on the same order fails with escrow-not-found.
pub proof fn lemma_claim_succeeds_once(
    s: ContractView,
    order: Seq<char>,
    secret_hex: Seq<char>,
    later_secret_hex: Seq<char>,
)
    requires
        s.escrows.contains_key(order),
        is_hex_text(secret_hex),
        keccak256_of(hex_bytes(secret_hex)) == s.escrows[order].hashlock,
    ensures
        ({
            let (t, r) = claim_step(s, ONE_YOCTO, order, secret_hex);
            &&& r == Ok::<TransferView, EscrowError>(
                TransferView {
                    token_contract_id: s.escrows[order].token_contract_id,
                    receiver_id: s.escrows[order].recipient_id,
                    amount: s.escrows[order].amount,
                },
            )
            &&& !t.escrows.contains_key(order)
            &&& claim_step(t, ONE_YOCTO, order, later_secret_hex) == (t, Err::<TransferView, EscrowError>(
                EscrowError::EscrowNotFound,
            ))
        }),
{
}

/// A claim with a secret whose digest is not the hashlock fails with invalid-secret
/// and changes nothing.
pub proof fn lemma_wrong_secret_refused(s: ContractView, order: Seq<char>, secret_hex: Seq<char>)
    requires
        s.escrows.contains_key(order),
        is_hex_text(secret_hex),
        keccak256_of(hex_bytes(secret_hex)) != s.escrows[order].hashlock,
    ensures
        claim_step(s, ONE_YOCTO, order, secret_hex) == (s, Err::<TransferView, EscrowError>(
            EscrowError::InvalidSecret,
        )),
{
}

/// Until the timelock has passed a reclaim fails with timelock-not-expired; after
/// it, a caller other than the resolver is refused, and the resolver gets the
/// amount back and the record is gone.
pub proof fn lemma_reclaim_rules(s: ContractView, order: Seq<char>, caller: Seq<char>, now: u64)
    requires
        s.escrows.contains_key(order),
    ensures
        now <= s.escrows[order].timelock ==> reclaim_step(s, ONE_YOCTO, caller, now, order) == (s, Err::<
            TransferView,
            EscrowError,
        >(EscrowError::TimelockNotExpired)),
        now > s.escrows[order].timelock && caller != s.escrows[order].resolver_id ==> reclaim_step(
            s,
            ONE_YOCTO,
            caller,
            now,
            order,
        ) == (s, Err::<TransferView, EscrowError>(EscrowError::ResolverOnly)),
        now > s.escrows[order].timelock && caller == s.escrows[order].resolver_id ==> ({
            let (t, r) = reclaim_step(s, ONE_YOCTO, caller, now, order);
            &&& r == Ok::<TransferView, EscrowError>(
                TransferView {
                    token_contract_id: s.escrows[order].token_contract_id,
                    receiver_id: s.escrows[order].resolver_id,
                    amount: s.escrows[order].amount,
                },
            )
            &&& t.escrows == s.escrows.remove(order)
        }),
{
}

/// Taking a resolver off the whitelist changes no outcome of a claim or a reclaim:
/// the whitelist is consulted only when an escrow is opened.
pub proof fn lemma_whitelist_removal_keeps_escrows(
    s: ContractView,
    owner: Seq<char>,
    resolver: Seq<char>,
    deposit: u128,
    order: Seq<char>,
    secret_hex: Seq<char>,
    caller: Seq<char>,
    now: u64,
)
    requires
        remove_resolver_step(s, owner, resolver).1 is Ok,
    ensures
        ({
            let t = remove_resolver_step(s, owner, resolver).0;
            &&& claim_step(t, deposit, order, secret_hex).1 == claim_step(s, deposit, order, secret_hex).1
            &&& claim_step(t, deposit, order, secret_hex).0.escrows == claim_step(
                s,
                deposit,
                order,
                secret_hex,
            ).0.escrows
            &&& reclaim_step(t, deposit, caller, now, order).1 == reclaim_step(
                s,
                deposit,
                caller,
                now,
                order,
            ).1
            &&& reclaim_step(t, deposit, caller, now, order).0.escrows == reclaim_step(
                s,
                deposit,
                caller,
                now,
                order,
            ).0.escrows
        }),
{
}

} // verus!
