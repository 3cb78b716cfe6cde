use borsh::BorshSerialize;
use solana_cli::error::Error;
use solana_cli::proposal::{parse_identity, serialize_proposal, ProposalRecord};

const MIN_RELAYS: usize = 3;
const MAX_RELAYS: usize = 100;

fn relays(n: usize) -> Vec<[u8; 32]> {
    (0..n).map(|i| [i as u8 + 1; 32]).collect()
}

#[test]
fn too_few_relays_is_rejected() {
    let r = ProposalRecord::new(5, relays(MIN_RELAYS - 1), 1000, MIN_RELAYS, MAX_RELAYS);
    assert!(matches!(r, Err(Error::RelayCount(n)) if n == MIN_RELAYS - 1));
    let s = serialize_proposal(5, relays(MIN_RELAYS - 1), 1000, MIN_RELAYS, MAX_RELAYS);
    assert!(matches!(s, Err(Error::RelayCount(_))));
}

#[test]
fn too_many_relays_is_rejected() {
    let r = ProposalRecord::new(5, relays(MAX_RELAYS + 1), 1000, MIN_RELAYS, MAX_RELAYS);
    assert!(matches!(r, Err(Error::RelayCount(n)) if n == MAX_RELAYS + 1));
}

#[test]
fn bounds_are_accepted() {
    assert!(ProposalRecord::new(1, relays(MIN_RELAYS), 2, MIN_RELAYS, MAX_RELAYS).is_ok());
    assert!(ProposalRecord::new(1, relays(MAX_RELAYS), 2, MIN_RELAYS, MAX_RELAYS).is_ok());
}

#[test]
fn encoding_layout() {
    let record = ProposalRecord::new(0x01020304, relays(3), 0x0a0b0c0d, MIN_RELAYS, MAX_RELAYS).unwrap();
    let bytes = record.serialize();
    assert_eq!(bytes.len(), 4 + 4 + 3 * 32 + 4);
    assert_eq!(&bytes[0..4], &[4, 3, 2, 1]);
    assert_eq!(&bytes[4..8], &[3, 0, 0, 0]);
    assert_eq!(&bytes[8..40], &[1u8; 32]);
    assert_eq!(&bytes[72..104], &[3u8; 32]);
    assert_eq!(&bytes[104..108], &[0x0d, 0x0c, 0x0b, 0x0a]);
}

#[test]
fn encoding_matches_borsh() {
    let set = relays(7);
    let bytes = serialize_proposal(42, set.clone(), 99, MIN_RELAYS, MAX_RELAYS).unwrap();
    let expected = (42u32, set, 99u32).try_to_vec().unwrap();
    assert_eq!(bytes, expected);
}

#[test]
fn identity_from_hex() {
    let text = "00ff10Ab".repeat(8);
    let id = parse_identity(&text).unwrap();
    assert_eq!(&id[0..4], &[0x00, 0xff, 0x10, 0xab]);
    assert_eq!(id[31], 0xab);
}

#[test]
fn identity_rejects_bad_text() {
    assert!(matches!(parse_identity("abc"), Err(Error::InvalidHex(_))));
    assert!(matches!(parse_identity(&"zz".repeat(32)), Err(Error::InvalidHex(_))));
    assert!(matches!(parse_identity(&"ab".repeat(31)), Err(Error::InvalidIdentityLength(31))));
    assert!(matches!(parse_identity(""), Err(Error::InvalidIdentityLength(0))));
}

#[test]
fn limits_come_from_the_caller() {
    assert!(ProposalRecord::new(1, relays(1), 2, 1, 1).is_ok());
    assert!(matches!(ProposalRecord::new(1, relays(2), 2, 1, 1), Err(Error::RelayCount(2))));
    assert!(matches!(serialize_proposal(1, relays(0), 2, 1, 4), Err(Error::RelayCount(0))));
}
