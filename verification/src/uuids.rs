use vstd::prelude::*;

verus! {

/// What reading a string as a UUID gives: the 128-bit number that the bytes of the UUID
/// make, or the message that says why the string is no UUID.
pub uninterp spec fn uuid_reading(text: Seq<char>) -> Result<u128, Seq<char>>;

/// `Uuid::parse_str` of the `uuid` crate, then `Uuid::as_u128` on what it accepts and the
/// message of the error on what it refuses.
#[verifier::external_body]
pub(crate) fn read_uuid(text: &str) -> (r: Result<u128, String>)
    ensures
        match r {
            Ok(v) => uuid_reading(text@) == Ok::<u128, Seq<char>>(v),
            Err(m) => uuid_reading(text@) == Err::<u128, Seq<char>>(m@),
        },
{
    match uuid::Uuid::parse_str(text) {
        Ok(id) => Ok(id.as_u128()),
        Err(e) => Err(e.to_string()),
    }
}

} // verus!
