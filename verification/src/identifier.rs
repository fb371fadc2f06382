//! Universally unique identifiers, held as their 128-bit value.
use vstd::prelude::*;

verus! {

/// A UUID, held as its 128-bit big-endian value.
pub type Uuid = u128;

/// The version number held in bits 76 to 79 of a UUID.
pub open spec fn uuid_version(id: u128) -> u128 {
    (id >> 76u128) & 0xfu128
}

/// The variant bits held in bits 62 and 63 of a UUID.
pub open spec fn uuid_variant(id: u128) -> u128 {
    (id >> 62u128) & 0x3u128
}

/// What `uuid::Uuid::parse_str` gives for a text: the UUID's value, or the
/// text of the error it reports.
pub uninterp spec fn uuid_parse(text: Seq<char>) -> Result<u128, Seq<char>>;

/// Creates a random UUID with `uuid::Uuid::new_v4`.
///
/// Trusted: the value is random, so only what the crate's source fixes of every
/// outcome is claimed: the version number is 4 and the variant bits are `10`
/// (the source masks the random bits with these before returning). The crate
/// panics when the operating system's random source fails.
#[verifier::external_body]
pub(crate) fn new_v4_uuid() -> (id: u128)
    ensures
        uuid_version(id) == 4,
        uuid_variant(id) == 2,
{
    ::uuid::Uuid::new_v4().as_u128()
}

/// Parses a UUID with `uuid::Uuid::parse_str`, which accepts the simple,
/// hyphenated, URN and braced forms of hexadecimal digits.
///
/// Trusted: the result, the value or the text of the reported error, is
/// claimed to be `uuid_parse` of the input text, a function of that text alone.
#[verifier::external_body]
pub(crate) fn parse_uuid_text(text: &str) -> (r: Result<u128, String>)
    ensures
        match r {
            Ok(id) => uuid_parse(text@) == Ok::<u128, Seq<char>>(id),
            Err(e) => uuid_parse(text@) == Err::<u128, Seq<char>>(e@),
        },
{
    match ::uuid::Uuid::parse_str(text) {
        Ok(id) => Ok(id.as_u128()),
        Err(e) => Err(e.to_string()),
    }
}

} // verus!
