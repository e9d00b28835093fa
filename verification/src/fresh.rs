//! Fresh random identifiers.
use vstd::prelude::*;

verus! {

/// Whether `c` is a lower-case hexadecimal digit.
pub open spec fn is_lower_hex(c: char) -> bool {
    ('0' <= c && c <= '9') || ('a' <= c && c <= 'f')
}

/// Whether `s` has the hyphenated form of a UUID: 36 characters, hyphens at
/// positions 8, 13, 18 and 23, lower-case hexadecimal digits everywhere else.
pub open spec fn is_uuid_text(s: Seq<char>) -> bool {
    &&& s.len() == 36
    &&& forall|i: int|
        0 <= i < 36 ==> if i == 8 || i == 13 || i == 18 || i == 23 {
            #[trigger] s[i] == '-'
        } else {
            is_lower_hex(s[i])
        }
}

/// Whether `s` is the text of a version 4 UUID: the hyphenated form, with the
/// version digit `4` at position 14 and the variant digit (`8`, `9`, `a` or `b`)
/// at position 19.
pub open spec fn is_v4_uuid_text(s: Seq<char>) -> bool {
    &&& is_uuid_text(s)
    &&& s[14] == '4'
    &&& (s[19] == '8' || s[19] == '9' || s[19] == 'a' || s[19] == 'b')
}

/// A new random (version 4) UUID as text: `uuid::Uuid::new_v4`, which sets the
/// version and variant bits of random bits, written by the `Display` impl of
/// `Uuid`, which gives the hyphenated lower-case form. The random bits are not
/// stated: two calls may give any two such texts.
#[verifier::external_body]
pub(crate) fn uuid_v4_text() -> (r: String)
    ensures
        is_v4_uuid_text(r@),
{
    uuid::Uuid::new_v4().to_string()
}

/// `prefix` followed by a fresh UUID.
pub(crate) fn prefixed_fresh(prefix: &str) -> (r: String)
    ensures
        r@.len() == prefix@.len() + 36,
        r@.subrange(0, prefix@.len() as int) == prefix@,
        is_v4_uuid_text(r@.subrange(prefix@.len() as int, r@.len() as int)),
{
    let id = uuid_v4_text();
    let r = String::from_str(prefix).concat(id.as_str());
    assert(r@.subrange(0, prefix@.len() as int) =~= prefix@);
    assert(r@.subrange(prefix@.len() as int, r@.len() as int) =~= id@);
    r
}

} // verus!
