use blockchain::digest::compute_digest;
use blockchain::{Block, Blockchain, Timestamp, VerifyError};
use chrono::{DateTime, Utc};
use std::collections::hash_map::DefaultHasher;
use std::hash::{Hash, Hasher};

fn by_hand(data: &str, secs: i64, nanos: u32, previous: u64) -> u64 {
    let mut state = DefaultHasher::new();
    data.hash(&mut state);
    let instant: Option<DateTime<Utc>> = DateTime::from_timestamp(secs, nanos);
    instant.hash(&mut state);
    state.write(&previous.to_le_bytes());
    state.finish()
}

#[test]
fn timestamp_keeps_its_parts() {
    let t = Timestamp::new(-5, 999_999_999);
    assert_eq!(t.secs, -5);
    assert_eq!(t.nanos, 999_999_999);
    assert_eq!(t, Timestamp { secs: -5, nanos: 999_999_999 });
}

#[test]
fn digest_is_what_the_hasher_gives() {
    let t = Timestamp::new(1_431_648_000, 250);
    assert_eq!(
        compute_digest("2. Block", t, 77),
        by_hand("2. Block", 1_431_648_000, 250, 77)
    );
    assert_eq!(
        compute_digest("", Timestamp::new(0, 0), 0),
        by_hand("", 0, 0, 0)
    );
    assert_eq!(
        compute_digest("x", Timestamp::new(-86_400, 1), u64::MAX),
        by_hand("x", -86_400, 1, u64::MAX)
    );
}

#[test]
fn digest_of_an_instant_that_has_no_date() {
    let never = Timestamp::new(i64::MAX, 0);
    assert!(DateTime::from_timestamp(i64::MAX, 0).is_none());
    assert_eq!(
        compute_digest("late", never, 3),
        by_hand("late", i64::MAX, 0, 3)
    );
    assert_eq!(compute_digest("late", never, 3), compute_digest("late", never, 3));
    assert_ne!(compute_digest("late", never, 3), compute_digest("late", never, 4));
}

#[test]
fn digest_reads_the_payload() {
    let t = Timestamp::new(1_000, 0);
    assert_ne!(compute_digest("a", t, 1), compute_digest("b", t, 1));
    assert_ne!(compute_digest("", t, 1), compute_digest("a", t, 1));
}

#[test]
fn digest_reads_the_instant() {
    let data = "same";
    let base = compute_digest(data, Timestamp::new(1_000, 0), 1);
    assert_ne!(base, compute_digest(data, Timestamp::new(1_001, 0), 1));
    assert_ne!(base, compute_digest(data, Timestamp::new(1_000, 1), 1));
    assert_ne!(
        compute_digest(data, Timestamp::new(1_000, 0), 1),
        compute_digest("", Timestamp::new(1_000, 0), 1)
    );
}

#[test]
fn digest_reads_the_predecessor() {
    let t = Timestamp::new(1_000, 0);
    assert_ne!(compute_digest("a", t, 1), compute_digest("a", t, 2));
    assert_ne!(compute_digest("a", t, 0), compute_digest("a", t, 1 << 56));
}

#[test]
fn digest_ignores_the_stored_hash() {
    let t = Timestamp::new(42, 7);
    let mut block = Block::with_timestamp("payload", t);
    let open = block.calculate_hash();
    block.hash = open;
    assert_eq!(block.calculate_hash(), open);
    block.hash = 12345;
    assert_eq!(block.calculate_hash(), open);
    assert_eq!(open, compute_digest("payload", t, 0));
}

#[test]
fn block_with_timestamp_is_open() {
    let t = Timestamp::new(42, 7);
    let block = Block::with_timestamp("payload", t);
    assert_eq!(block.timestamp, t);
    assert_eq!(block.hash, 0);
    assert_eq!(block.previous_block_hash, 0);
    assert_eq!(block.data, "payload");
}

#[test]
fn equal_blocks_have_equal_digests() {
    let t = Timestamp::new(1_700_000_000, 123_456_789);
    let a = Block::with_timestamp("twin", t);
    let b = Block::with_timestamp("twin", t);
    assert_eq!(a.calculate_hash(), b.calculate_hash());
}

#[test]
fn ledger_at_a_fixed_instant() {
    let t = Timestamp::new(1_700_000_000, 5);
    let mut blockchain = Blockchain::with_timestamp(t);
    assert_eq!(blockchain.len(), 1);
    let genesis = *blockchain.block(0).unwrap();
    assert_eq!(genesis.data, "Genesis block");
    assert_eq!(genesis.timestamp, t);
    assert_eq!(genesis.previous_block_hash, 0);
    assert_eq!(genesis.hash, by_hand("Genesis block", 1_700_000_000, 5, 0));

    let later = Timestamp::new(1_700_000_001, 0);
    blockchain.push(Block::with_timestamp("2. Block", later));
    let second = *blockchain.block(1).unwrap();
    assert_eq!(second.previous_block_hash, genesis.hash);
    assert_eq!(
        second.hash,
        by_hand("2. Block", 1_700_000_001, 0, genesis.hash)
    );
    assert_eq!(blockchain.verify(), Ok(()));
}

#[test]
fn changed_timestamp_is_found() {
    let mut blockchain = Blockchain::with_timestamp(Timestamp::new(10, 0));
    blockchain.push(Block::with_timestamp("one", Timestamp::new(11, 0)));
    blockchain.push(Block::with_timestamp("two", Timestamp::new(12, 0)));
    let mut block = *blockchain.block(2).unwrap();
    block.timestamp = Timestamp::new(13, 0);
    assert!(blockchain.overwrite(2, block));
    assert_eq!(blockchain.verify(), Err(VerifyError::InsideBlock(2)));
}

#[test]
fn block_new_reads_the_clock() {
    let block = Block::new("now");
    assert!(block.timestamp.secs >= 0);
    assert!(block.timestamp.nanos < 2_000_000_000);
    assert!(DateTime::from_timestamp(block.timestamp.secs, block.timestamp.nanos).is_some());
}
