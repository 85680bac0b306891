//! Messages that the game server sends: the latest block and an invoice.
use vstd::prelude::*;

verus! {

/// The latest block of the chain, as the server reports it.
pub struct BlockData {
    /// The block hash, in hexadecimal: 64 characters in a valid message.
    pub hash: String,
    /// The block height: from 0 to 1,000,000 in a valid message.
    pub height: i32,
}

/// A Lightning invoice to pay, as the server sends it.
pub struct InvoiceData {
    /// The invoice text.
    pub invoice: String,
}

/// Number of characters in a block hash.
pub const HASH_LENGTH: u64 = 64;

/// Lowest block height a message may carry.
pub const MIN_HEIGHT: i32 = 0;

/// Highest block height a message may carry.
pub const MAX_HEIGHT: i32 = 1_000_000;

/// The rules that `BlockData` breaks, if any.
pub struct BlockDataErrors {
    /// The hash does not have `HASH_LENGTH` characters.
    pub hash: bool,
    /// The height is not within `MIN_HEIGHT..=MAX_HEIGHT`.
    pub height: bool,
}

/// The length check of the `validator` crate: `validator::validate_length`
/// with only `equal` given. Its source counts the characters of a string and
/// compares them with `equal`; the contract says so.
#[verifier::external_body]
fn validate_length_equal(value: &String, equal: u64) -> (r: bool)
    ensures
        r == (value@.len() == equal),
{
    validator::validate_length(value, None, None, Some(equal))
}

/// The range check of the `validator` crate: `validator::validate_range`.
/// Its source fails a value above `max` or below `min`, where given, and
/// passes any other; the contract says so.
#[verifier::external_body]
fn validate_range_i32(value: i32, min: Option<i32>, max: Option<i32>) -> (r: bool)
    ensures
        r == ((max matches Some(m) ==> value <= m) && (min matches Some(m) ==> value >= m)),
{
    validator::validate_range(value, min, max)
}

/// Whether a block message follows its rules: a hash of `HASH_LENGTH`
/// characters and a height within `MIN_HEIGHT..=MAX_HEIGHT`.
pub open spec fn spec_block_data_valid(hash: Seq<char>, height: i32) -> bool {
    hash.len() == HASH_LENGTH && MIN_HEIGHT <= height <= MAX_HEIGHT
}

/// A block message is valid exactly when its hash has 64 characters and its
/// height lies from 0 to 1,000,000: a height above 1,000,000, or below 0, is
/// refused whatever the hash.
pub proof fn lemma_block_data_rules(hash: Seq<char>, height: i32)
    ensures
        spec_block_data_valid(hash, height) <==> (hash.len() == 64 && 0 <= height
            && height <= 1_000_000),
        height > 1_000_000 ==> !spec_block_data_valid(hash, height),
        height < 0 ==> !spec_block_data_valid(hash, height),
        hash.len() != 64 ==> !spec_block_data_valid(hash, height),
{
}

impl BlockData {
    /// Checks the message against its rules and lists the ones it breaks.
    pub fn validate(&self) -> (r: Result<(), BlockDataErrors>)
        ensures
            r is Ok <==> spec_block_data_valid(self.hash@, self.height),
            r is Ok ==> self.hash@.len() == 64 && 0 <= self.height <= 1_000_000,
            (self.hash@.len() == 64 && 0 <= self.height <= 1_000_000) ==> r is Ok,
            (self.height > 1_000_000 || self.height < 0) ==> (r matches Err(e) && e.height),
            self.hash@.len() != 64 ==> (r matches Err(e) && e.hash),
            r matches Err(e) ==> (e.hash <==> self.hash@.len() != HASH_LENGTH) && (e.height <==> !(
            MIN_HEIGHT <= self.height <= MAX_HEIGHT)),
    {
        let hash_ok = validate_length_equal(&self.hash, HASH_LENGTH);
        let height_ok = validate_range_i32(self.height, Some(MIN_HEIGHT), Some(MAX_HEIGHT));
        if hash_ok && height_ok {
            Ok(())
        } else {
            Err(BlockDataErrors { hash: !hash_ok, height: !height_ok })
        }
    }
}

} // verus!
