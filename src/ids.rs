use vstd::prelude::*;

verus! {

/// The canonical text of the identifier whose 128-bit value is `v`.
pub uninterp spec fn uuid_text(v: u128) -> Seq<char>;

/// The identifier that the text `s` denotes, if it denotes one.
pub uninterp spec fn uuid_parse(s: Seq<char>) -> Option<u128>;

/// Relies on uuid's `Display` for `Uuid`: the lower-case hyphenated form,
/// which is 36 characters long.
#[verifier::external_body]
pub(crate) fn format_uuid(v: u128) -> (r: String)
    ensures
        r@ == uuid_text(v),
        r@.len() == 36,
{
    uuid::Uuid::from_u128(v).to_string()
}

/// Relies on `uuid::Uuid::parse_str`: which texts denote an identifier, and which one.
#[verifier::external_body]
pub(crate) fn parse_uuid(s: &str) -> (r: Option<u128>)
    ensures
        r == uuid_parse(s@),
{
    uuid::Uuid::parse_str(s).ok().map(|u| u.as_u128())
}

} // verus!
