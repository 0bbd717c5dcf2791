use fusion_escrow::contract::ONE_YOCTO;
use fusion_escrow::{Contract, EscrowCreateMsg, EscrowError, TransferRequest};

fn s(v: &str) -> String {
    v.to_string()
}

fn hashlock_hex_of(secret: &[u8]) -> String {
    hex::encode(near_sdk::env::keccak256_array(secret))
}

const NOW: u64 = 1_700_000_000_000_000_000;

fn setup() -> Contract {
    let mut c = Contract::new(s("owner"), false).unwrap();
    c.add_resolver(&s("owner"), s("resolver")).unwrap();
    c
}

fn create_msg(order: &str, secret: &[u8], timelock: u64, recipient: &str) -> EscrowCreateMsg {
    EscrowCreateMsg {
        order_hash: s(order),
        hashlock_hex: hashlock_hex_of(secret),
        timelock,
        recipient_id: s(recipient),
    }
}

fn open_o1(c: &mut Contract) {
    let msg = create_msg("o1", b"s3cr3t", NOW + 3600, "bob");
    let r = c.ft_on_transfer(&s("token"), s("resolver"), 100, Some(msg));
    assert_eq!(r, Ok(0));
}

fn assert_transfer(t: &TransferRequest, ledger: &str, receiver: &str, amount: u128) {
    assert_eq!(t.token_contract_id, ledger);
    assert_eq!(t.receiver_id, receiver);
    assert_eq!(t.amount, amount);
}

#[test]
fn test_fusion_contract_basic() {
    let result = Contract::new(s("owner"), false);
    assert!(result.is_ok(), "Contract initialization should succeed");
    let mut c = result.unwrap();

    let result = c.add_resolver(&s("owner"), s("resolver"));
    assert!(result.is_ok(), "Adding resolver should succeed");

    let is_resolver = c.is_resolver(&s("resolver"));
    assert!(is_resolver, "Resolver should be whitelisted");

    let result = c.remove_resolver(&s("owner"), s("resolver"));
    assert!(result.is_ok(), "Removing resolver should succeed");

    let is_resolver = c.is_resolver(&s("resolver"));
    assert!(!is_resolver, "Resolver should be removed");
}

#[test]
fn initialize_twice_fails() {
    assert_eq!(Contract::new(s("owner"), true).err(), Some(EscrowError::AlreadyInitialized));
}

#[test]
fn only_owner_administers_whitelist() {
    let mut c = setup();
    assert_eq!(c.add_resolver(&s("mallory"), s("x")), Err(EscrowError::OwnerOnly));
    assert!(!c.is_resolver(&s("x")));
    assert_eq!(c.remove_resolver(&s("mallory"), s("resolver")), Err(EscrowError::OwnerOnly));
    assert!(c.is_resolver(&s("resolver")));
}

#[test]
fn whitelist_changes_are_idempotent() {
    let mut c = setup();
    assert_eq!(c.add_resolver(&s("owner"), s("resolver")), Ok(()));
    assert!(c.is_resolver(&s("resolver")));
    assert_eq!(c.remove_resolver(&s("owner"), s("resolver")), Ok(()));
    assert!(!c.is_resolver(&s("resolver")));
    assert_eq!(c.remove_resolver(&s("owner"), s("resolver")), Ok(()));
    assert!(!c.is_resolver(&s("resolver")));
}

#[test]
fn create_records_the_input() {
    let mut c = setup();
    open_o1(&mut c);
    assert!(c.is_resolver(&s("resolver")));
    let e = c.get_escrow(&s("o1")).unwrap();
    assert_eq!(e.resolver_id, "resolver");
    assert_eq!(e.recipient_id, "bob");
    assert_eq!(e.token_contract_id, "token");
    assert_eq!(e.amount, 100);
    assert_eq!(e.hashlock, near_sdk::env::keccak256_array(b"s3cr3t").to_vec());
    assert_eq!(e.timelock, NOW + 3600);
}

#[test]
fn create_decodes_upper_case_hashlock() {
    let mut c = setup();
    let mut msg = create_msg("o1", b"s3cr3t", NOW, "bob");
    msg.hashlock_hex = msg.hashlock_hex.to_uppercase();
    assert_eq!(c.ft_on_transfer(&s("token"), s("resolver"), 5, Some(msg)), Ok(0));
    let e = c.get_escrow(&s("o1")).unwrap();
    assert_eq!(e.hashlock, near_sdk::env::keccak256_array(b"s3cr3t").to_vec());
}

#[test]
fn create_by_non_resolver_fails() {
    let mut c = setup();
    let msg = create_msg("o1", b"s3cr3t", NOW, "bob");
    assert_eq!(c.ft_on_transfer(&s("token"), s("stranger"), 100, Some(msg)), Err(EscrowError::ResolverOnly));
    assert!(c.get_escrow(&s("o1")).is_none());
}

#[test]
fn create_with_unparsed_msg_fails() {
    let mut c = setup();
    assert_eq!(c.ft_on_transfer(&s("token"), s("resolver"), 100, None), Err(EscrowError::InvalidMsgFormat));
}

#[test]
fn create_with_bad_hashlock_fails() {
    let mut c = setup();
    let mut msg = create_msg("o1", b"s3cr3t", NOW, "bob");
    msg.hashlock_hex = s("zz");
    assert_eq!(c.ft_on_transfer(&s("token"), s("resolver"), 100, Some(msg)), Err(EscrowError::InvalidHexFormat));
    let mut msg = create_msg("o1", b"s3cr3t", NOW, "bob");
    msg.hashlock_hex = s("abc");
    assert_eq!(c.ft_on_transfer(&s("token"), s("resolver"), 100, Some(msg)), Err(EscrowError::InvalidHexFormat));
    let mut msg = create_msg("o1", b"s3cr3t", NOW, "bob");
    msg.hashlock_hex = s("abcd");
    assert_eq!(c.ft_on_transfer(&s("token"), s("resolver"), 100, Some(msg)), Err(EscrowError::InvalidHexFormat));
    assert!(c.get_escrow(&s("o1")).is_none());
}

#[test]
fn create_twice_for_one_order_fails() {
    let mut c = setup();
    open_o1(&mut c);
    let msg = create_msg("o1", b"other", NOW + 7, "carol");
    assert_eq!(c.ft_on_transfer(&s("token2"), s("resolver"), 5, Some(msg)), Err(EscrowError::EscrowExists));
    let e = c.get_escrow(&s("o1")).unwrap();
    assert_eq!(e.recipient_id, "bob");
    assert_eq!(e.token_contract_id, "token");
    assert_eq!(e.amount, 100);
    assert_eq!(e.timelock, NOW + 3600);
}

#[test]
fn claim_with_secret_pays_recipient() {
    let mut c = setup();
    open_o1(&mut c);
    assert!(c.get_escrow(&s("o1")).is_some());
    let t = c.claim(ONE_YOCTO, &s("o1"), &hex::encode("s3cr3t")).unwrap();
    assert_transfer(&t, "token", "bob", 100);
    assert!(c.get_escrow(&s("o1")).is_none());
}

#[test]
fn claim_succeeds_only_once() {
    let mut c = setup();
    open_o1(&mut c);
    assert!(c.claim(ONE_YOCTO, &s("o1"), &hex::encode("s3cr3t")).is_ok());
    assert_eq!(c.claim(ONE_YOCTO, &s("o1"), &hex::encode("s3cr3t")).err(), Some(EscrowError::EscrowNotFound));
}

#[test]
fn claim_with_wrong_secret_keeps_escrow() {
    let mut c = setup();
    open_o1(&mut c);
    assert_eq!(c.claim(ONE_YOCTO, &s("o1"), &hex::encode("guess")).err(), Some(EscrowError::InvalidSecret));
    assert!(c.get_escrow(&s("o1")).is_some());
}

#[test]
fn claim_with_hashlock_itself_is_refused() {
    let mut c = setup();
    open_o1(&mut c);
    let hashlock = hashlock_hex_of(b"s3cr3t");
    assert_eq!(c.claim(ONE_YOCTO, &s("o1"), &hashlock).err(), Some(EscrowError::InvalidSecret));
}

#[test]
fn claim_guards() {
    let mut c = setup();
    open_o1(&mut c);
    assert_eq!(c.claim(0, &s("o1"), &hex::encode("s3cr3t")).err(), Some(EscrowError::WrongDeposit));
    assert_eq!(c.claim(2, &s("o1"), &hex::encode("s3cr3t")).err(), Some(EscrowError::WrongDeposit));
    assert_eq!(c.claim(ONE_YOCTO, &s("o2"), &hex::encode("s3cr3t")).err(), Some(EscrowError::EscrowNotFound));
    assert_eq!(c.claim(ONE_YOCTO, &s("o1"), &s("not hex")).err(), Some(EscrowError::InvalidHexFormat));
    assert!(c.get_escrow(&s("o1")).is_some());
}

#[test]
fn claim_with_digest_settles() {
    let mut c = setup();
    open_o1(&mut c);
    let wrong = vec![0u8; 32];
    assert_eq!(c.claim_with_digest(&s("o1"), &wrong).err(), Some(EscrowError::InvalidSecret));
    let digest = near_sdk::env::keccak256_array(b"s3cr3t").to_vec();
    let t = c.claim_with_digest(&s("o1"), &digest).unwrap();
    assert_transfer(&t, "token", "bob", 100);
    assert_eq!(c.claim_with_digest(&s("o1"), &digest).err(), Some(EscrowError::EscrowNotFound));
}

#[test]
fn reclaim_after_expiry_returns_funds() {
    let mut c = setup();
    open_o1(&mut c);
    let t = c.reclaim(ONE_YOCTO, &s("resolver"), NOW + 3601, &s("o1")).unwrap();
    assert_transfer(&t, "token", "resolver", 100);
    assert!(c.get_escrow(&s("o1")).is_none());
}

#[test]
fn reclaim_rules() {
    let mut c = setup();
    open_o1(&mut c);
    assert_eq!(c.reclaim(0, &s("resolver"), NOW + 3601, &s("o1")).err(), Some(EscrowError::WrongDeposit));
    assert_eq!(c.reclaim(ONE_YOCTO, &s("resolver"), NOW + 3601, &s("o2")).err(), Some(EscrowError::EscrowNotFound));
    assert_eq!(c.reclaim(ONE_YOCTO, &s("resolver"), NOW, &s("o1")).err(), Some(EscrowError::TimelockNotExpired));
    assert_eq!(c.reclaim(ONE_YOCTO, &s("resolver"), NOW + 3600, &s("o1")).err(), Some(EscrowError::TimelockNotExpired));
    assert_eq!(c.reclaim(ONE_YOCTO, &s("bob"), NOW + 3601, &s("o1")).err(), Some(EscrowError::ResolverOnly));
    assert!(c.get_escrow(&s("o1")).is_some());
    assert!(c.reclaim(ONE_YOCTO, &s("resolver"), NOW + 3601, &s("o1")).is_ok());
    assert_eq!(c.reclaim(ONE_YOCTO, &s("resolver"), NOW + 3601, &s("o1")).err(), Some(EscrowError::EscrowNotFound));
}

#[test]
fn removed_resolver_keeps_open_escrows() {
    let mut c = setup();
    open_o1(&mut c);
    let msg = create_msg("o2", b"other", NOW + 10, "carol");
    assert_eq!(c.ft_on_transfer(&s("token"), s("resolver"), 7, Some(msg)), Ok(0));
    c.remove_resolver(&s("owner"), s("resolver")).unwrap();
    let t = c.claim(ONE_YOCTO, &s("o1"), &hex::encode("s3cr3t")).unwrap();
    assert_transfer(&t, "token", "bob", 100);
    let t = c.reclaim(ONE_YOCTO, &s("resolver"), NOW + 11, &s("o2")).unwrap();
    assert_transfer(&t, "token", "resolver", 7);
    let msg = create_msg("o3", b"x", NOW, "bob");
    assert_eq!(c.ft_on_transfer(&s("token"), s("resolver"), 1, Some(msg)), Err(EscrowError::ResolverOnly));
}

#[test]
fn error_messages() {
    assert_eq!(EscrowError::OwnerOnly.code(), "E001");
    assert_eq!(EscrowError::InvalidHexFormat.code(), "E010");
    assert_eq!(EscrowError::WrongDeposit.message(), "E008: Requires exactly 1 yoctoNEAR attached deposit");
}
