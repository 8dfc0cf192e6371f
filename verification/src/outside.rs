//! The calls into outside crates, each behind a contract that the crate's code or
//! documentation shows. Nothing here is proved: the rest of the library relies on it.
use rand::RngExt;
use std::hash::{Hash, Hasher};
use vstd::prelude::*;

verus! {

/// Whether a 128-bit value (a UUID's bytes read big-endian) is a version-7 UUID of the
/// RFC 4122 variant: its version nibble (bits 76 to 79) is 7 and its variant bits
/// (bits 62 and 63) are `10`.
pub open spec fn is_v7_uuid(id: u128) -> bool {
    (id >> 76u32) & 0xfu128 == 7u128 && (id >> 62u32) & 0x3u128 == 2u128
}

/// A fresh time-ordered identifier from `uuid::Uuid::now_v7`, as its 128-bit value
/// (`as_u128`, the bytes read big-endian). Its time and random bits depend on the
/// clock and on chance; the contract claims only what every outcome shares: the
/// version nibble 7 and the variant bits `10` (`encode_unix_timestamp_millis` sets both).
#[verifier::external_body]
pub(crate) fn new_job_id() -> (id: u128)
    ensures
        is_v7_uuid(id),
{
    uuid::Uuid::now_v7().as_u128()
}

/// Calls `uuid::Uuid::now_v7` and writes the identifier with `to_string`. The
/// identifier depends on the clock and on chance; the contract claims only that its
/// hyphenated text is 36 characters long.
#[verifier::external_body]
pub(crate) fn fresh_node_name() -> (s: String)
    ensures
        s@.len() == 36,
{
    uuid::Uuid::now_v7().to_string()
}

#[verifier::external_type_specification]
#[verifier::external_body]
pub struct ExJsonError(serde_json::Error);

/// The JSON text that `serde_json::to_string` writes for a list of strings.
pub uninterp spec fn json_string_array(items: Seq<Seq<char>>) -> Seq<char>;

/// Calls `serde_json::to_string` on a list of strings. A list of strings always
/// serializes (the serde_json documentation names a failing `Serialize` impl and
/// non-string map keys as the only causes of failure), so the call succeeds, and its
/// text is named by `json_string_array`.
#[verifier::external_body]
pub(crate) fn tags_to_json(tags: &Vec<String>) -> (r: Result<String, serde_json::Error>)
    ensures
        r is Ok,
        r matches Ok(s) ==> s@ == json_string_array(tags.deep_view()),
{
    serde_json::to_string(tags)
}

/// The 64-bit XXH3 hash, with seed 0, of a sequence of bytes.
pub uninterp spec fn xxh3_64(input: Seq<u8>) -> u64;

/// Hashes the UTF-8 bytes of `first` then of `second` with `twox_hash::XxHash3_64`
/// (seed 0, two `write` calls, then `finish`), and reads the result as an `i64` (as
/// `as i64` does). Streaming writes hash the concatenation of what is written, so
/// the result is named by `xxh3_64` of the concatenated bytes.
#[verifier::external_body]
pub fn xxh3_64_pair(first: &str, second: &str) -> (h: i64)
    ensures
        h == xxh3_64(vstd::utf8::encode_utf8(first@) + vstd::utf8::encode_utf8(second@)) as i64,
{
    let mut hasher = twox_hash::XxHash3_64::with_seed(0);
    hasher.write(first.as_bytes());
    hasher.write(second.as_bytes());
    hasher.finish() as i64
}

/// Hashes, with `twox_hash::XxHash3_64` (seed 0), the UTF-8 bytes of four texts and
/// then a sequence of bytes, in five `write` calls, then `finish`, read as an `i64`.
/// As with `xxh3_64_pair`, the result is named by `xxh3_64` of the concatenation.
#[verifier::external_body]
pub fn xxh3_64_lock(a: &str, b: &str, c: &str, d: &str, bytes: &[u8]) -> (h: i64)
    ensures
        h == xxh3_64(vstd::utf8::encode_utf8(a@) + vstd::utf8::encode_utf8(b@) + vstd::utf8::encode_utf8(c@)
            + vstd::utf8::encode_utf8(d@) + bytes@) as i64,
{
    let mut hasher = twox_hash::XxHash3_64::with_seed(0);
    hasher.write(a.as_bytes());
    hasher.write(b.as_bytes());
    hasher.write(c.as_bytes());
    hasher.write(d.as_bytes());
    hasher.write(bytes);
    hasher.finish() as i64
}

/// What a hasher has been given after `Hash::hash` of a string on a hasher that had
/// been given `writes`: the standard library's documentation does not spell out the
/// bytes it feeds in, only that equal strings feed equal input.
pub uninterp spec fn str_hash_writes(writes: Seq<Seq<u8>>, s: Seq<char>) -> Seq<Seq<u8>>;

/// Feeds a string into a `DefaultHasher` with `<str as Hash>::hash`. The contract
/// names what the hasher then holds by `str_hash_writes` of what it held before and
/// of the string; it says nothing more of those bytes.
#[verifier::external_body]
pub(crate) fn hash_str(s: &str, hasher: &mut std::collections::hash_map::DefaultHasher)
    ensures
        final(hasher)@ == str_hash_writes(old(hasher)@, s@),
{
    s.hash(hasher);
}

/// What `serde_json::from_value` makes of the JSON value that a text holds, read as a
/// `uuid::Uuid`: the UUID's 128-bit value, or the text of the error.
pub uninterp spec fn uuid_from_json(text: Seq<char>) -> Result<u128, Seq<char>>;

/// Reads JSON text into a `serde_json::Value` (`serde_json::from_str`), then reads a
/// `uuid::Uuid` from that value (`serde_json::from_value`), and gives its 128-bit value
/// (`as_u128`) or the text that the error displays (`to_string`). Both depend on the
/// text alone, and are named by `uuid_from_json`.
#[verifier::external_body]
pub(crate) fn parse_uuid_json(text: &str) -> (r: Result<u128, String>)
    ensures
        r matches Ok(v) ==> (uuid_from_json(text@) matches Ok(w) && w == v),
        r matches Err(m) ==> (uuid_from_json(text@) matches Err(d) && d == m@),
{
    let parsed = serde_json::from_str::<serde_json::Value>(text)
        .and_then(serde_json::from_value::<uuid::Uuid>);
    match parsed {
        Ok(u) => Ok(u.as_u128()),
        Err(e) => Err(e.to_string()),
    }
}

/// A random number below `bound`, from `rand::rng().random_range(0..bound)`. It
/// depends on chance; the contract claims only the range (which `random_range`
/// guarantees; it panics on an empty range, which `requires` leaves out).
#[verifier::external_body]
pub(crate) fn random_below(bound: u64) -> (r: u64)
    requires
        bound > 0,
    ensures
        r < bound,
{
    rand::rng().random_range(0..bound)
}

} // verus!
