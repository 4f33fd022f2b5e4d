//! Random ids, random picks and shuffles, and the reading of ids.
use vstd::prelude::*;
use rand::seq::SliceRandom;

verus! {

/// The error of the `uuid` crate.
#[verifier::external_type_specification]
#[verifier::external_body]
pub struct ExUuidError(uuid::Error);

/// Whether a 128-bit value is a version-4 UUID: version field 4, variant
/// field RFC 4122.
pub open spec fn is_v4_uuid(id: u128) -> bool {
    &&& (id >> 76u128) & 0xfu128 == 4u128
    &&& (id >> 62u128) & 0x3u128 == 2u128
}

/// A fresh random UUID (`uuid::Uuid::new_v4`), as its 128-bit value. The
/// crate sets the version field to 4 and the variant field to RFC 4122;
/// the other bits are random.
#[verifier::external_body]
pub(crate) fn new_uuid() -> (res: u128)
    ensures
        is_v4_uuid(res),
{
    uuid::Uuid::new_v4().as_u128()
}

/// What `uuid::Uuid::try_parse` reads from a text: a UUID, given as its
/// 128-bit value, or nothing when the text is not one.
pub uninterp spec fn uuid_text_value(s: Seq<char>) -> Option<u128>;

/// Reads a UUID from a text (`uuid::Uuid::try_parse`), as its 128-bit value;
/// named by `uuid_text_value`.
#[verifier::external_body]
fn try_parse_uuid(s: &str) -> (res: Result<u128, uuid::Error>)
    ensures
        res is Ok <==> uuid_text_value(s@) is Some,
        res matches Ok(v) ==> uuid_text_value(s@) == Some(v),
{
    match uuid::Uuid::try_parse(s) {
        Ok(u) => Ok(u.as_u128()),
        Err(e) => Err(e),
    }
}

/// Reads a custom id as a UUID.
pub fn parse_custom_id(s: &str) -> (res: Option<u128>)
    ensures
        res == uuid_text_value(s@),
{
    match try_parse_uuid(s) {
        Ok(v) => Some(v),
        Err(_) => None,
    }
}

/// Picks `n` characters of `pool` at random (`SliceRandom::choose_multiple`
/// with the thread's generator): `n` of them, or all when the pool holds
/// fewer, each position of the pool picked at most once, in random order.
#[verifier::external_body]
pub(crate) fn choose_chars(pool: &Vec<char>, n: usize) -> (res: Vec<char>)
    ensures
        res@.len() == (if n < pool@.len() {
            n as int
        } else {
            pool@.len() as int
        }),
        res@.to_multiset().subset_of(pool@.to_multiset()),
{
    pool.as_slice().choose_multiple(&mut rand::thread_rng(), n).cloned().collect()
}

/// Puts the ids in a random order (`SliceRandom::shuffle` with the thread's
/// generator): the same ids, each as often as before.
#[verifier::external_body]
pub(crate) fn shuffle_ids(v: &mut Vec<u64>)
    ensures
        final(v)@.to_multiset() == old(v)@.to_multiset(),
        final(v)@.len() == old(v)@.len(),
{
    v.as_mut_slice().shuffle(&mut rand::thread_rng());
}

} // verus!
