//! Request metadata as the transport holds it, and the few operations on it
//! that the interceptor needs.
//!
//! The map and its values belong to `tonic`. Verus sees neither from the
//! inside: what they hold is named here, and every operation on them is a
//! thin call whose contract is taken on trust from `tonic` 0.6 and the
//! header map of `http` 0.2 beneath it.

use vstd::prelude::*;
use tonic::metadata::{Ascii, MetadataMap, MetadataValue};
use tonic::metadata::errors::InvalidMetadataValueBytes;

verus! {

/// `tonic::metadata::MetadataMap`, carried through as an opaque value.
#[verifier::external_type_specification]
#[verifier::external_body]
pub struct ExMetadataMap(MetadataMap);

/// `tonic::metadata::errors::InvalidMetadataValueBytes`, the refusal of
/// `MetadataValue::from_shared`.
#[verifier::external_type_specification]
#[verifier::external_body]
pub struct ExInvalidMetadataValueBytes(InvalidMetadataValueBytes);

/// An ASCII metadata value of `tonic` (`MetadataValue<Ascii>`).
///
/// The encoding parameter of `MetadataValue` is bound by a trait that
/// `tonic` does not export, so the type cannot be declared to Verus as it
/// stands; it is held here instead.
#[verifier::external_body]
pub struct AsciiValue {
    inner: MetadataValue<Ascii>,
}

/// What a metadata map holds: under each key that is present, the values
/// stored for it as raw bytes, in the order in which they were added.
pub uninterp spec fn metadata_entries(map: MetadataMap) -> Map<Seq<char>, Seq<Seq<u8>>>;

/// The bytes that an ASCII metadata value holds.
pub uninterp spec fn ascii_value_bytes(value: AsciiValue) -> Seq<u8>;

/// The number of distinct keys below which a map can always take one more.
///
/// The header map under `MetadataMap` never grows beyond 32768 slots and
/// asks for more room at a load of one fifth at the earliest, so with fewer
/// keys than this an insertion cannot overflow it.
pub const KEY_LIMIT: usize = 6554;

/// A key made of 1 to 32 lower-case ASCII letters. Every such key is a valid
/// ASCII metadata key (it is a valid header name and does not end in `-bin`).
pub open spec fn plain_key(key: Seq<char>) -> bool {
    &&& 0 < key.len() <= 32
    &&& forall|i: int| 0 <= i < key.len() ==> 'a' <= #[trigger] key[i] <= 'z'
}

/// A byte that a metadata value may hold: a tab, or anything from 32 up
/// except 127.
pub open spec fn value_byte_ok(b: u8) -> bool {
    b == 9 || (b >= 32 && b != 127)
}

/// Every byte of `bytes` may stand in a metadata value.
pub open spec fn value_bytes_ok(bytes: Seq<u8>) -> bool {
    forall|i: int| 0 <= i < bytes.len() ==> value_byte_ok(#[trigger] bytes[i])
}

/// The map can take a key that it does not hold yet.
pub open spec fn has_room(map: MetadataMap) -> bool {
    metadata_entries(map).dom().len() < KEY_LIMIT
}

/// `MetadataValue::<Ascii>::from_shared`: the bytes are accepted exactly when
/// each of them is a tab or at least 32 and not 127 (the test that `http`
/// applies to a header value), and the value then holds those bytes.
#[verifier::external_body]
pub(crate) fn ascii_value_from_bytes(bytes: Vec<u8>) -> (r: Result<
    AsciiValue,
    InvalidMetadataValueBytes,
>)
    ensures
        r is Ok <==> value_bytes_ok(bytes@),
        r matches Ok(value) ==> ascii_value_bytes(value) == bytes@,
{
    MetadataValue::from_shared(bytes.into()).map(|inner| AsciiValue { inner })
}

/// `MetadataMap::keys_len`: the number of distinct keys in the map.
#[verifier::external_body]
pub(crate) fn metadata_key_count(map: &MetadataMap) -> (n: usize)
    ensures
        n == metadata_entries(*map).dom().len(),
{
    map.keys_len()
}

/// `MetadataMap::contains_key` with a string key: whether any value is stored
/// under the key.
#[verifier::external_body]
pub(crate) fn metadata_contains_key(map: &MetadataMap, key: &str) -> (present: bool)
    requires
        plain_key(key@),
    ensures
        present == metadata_entries(*map).dom().contains(key@),
{
    map.contains_key(key)
}

/// `MetadataMap::insert` with a static string key: afterwards the key holds
/// the new value and nothing else, and every other key is as it was.
///
/// The call panics on a key that is not a valid ASCII metadata key and when
/// the map cannot grow; `requires` leaves both out.
#[verifier::external_body]
pub(crate) fn metadata_insert(map: &mut MetadataMap, key: &'static str, value: AsciiValue)
    requires
        plain_key(key@),
        has_room(*old(map)),
    ensures
        metadata_entries(*final(map)) == metadata_entries(*old(map)).insert(
            key@,
            seq![ascii_value_bytes(value)],
        ),
{
    map.insert(key, value.inner);
}

} // verus!
