use vstd::prelude::*;

verus! {

/// The last `n` hexadecimal digits of `v`, the most significant first, in
/// lower case.
pub open spec fn hex(v: nat, n: nat) -> Seq<char>
    decreases n,
{
    if n == 0 {
        Seq::empty()
    } else {
        hex(v / 16, (n - 1) as nat).push("0123456789abcdef"@[(v % 16) as int])
    }
}

/// The text of an identifier in its usual form: its thirty-two hexadecimal
/// digits in groups of eight, four, four, four and twelve, with hyphens
/// between the groups.
pub open spec fn hyphenated_text(id: u128) -> Seq<char> {
    let digits = hex(id as nat, 32);
    digits.subrange(0, 8) + "-"@ + digits.subrange(8, 12) + "-"@ + digits.subrange(12, 16) + "-"@
        + digits.subrange(16, 20) + "-"@ + digits.subrange(20, 32)
}

/// Writes the identifier out as text. Trusted: the result is what
/// `uuid::Uuid::from_u128(id).hyphenated()` displays, which is the value in
/// lower-case hexadecimal digits, grouped by hyphens.
#[verifier::external_body]
pub(crate) fn identifier_text(id: u128) -> (r: String)
    ensures
        r@ == hyphenated_text(id),
{
    uuid::Uuid::from_u128(id).hyphenated().to_string()
}

/// Mints an identifier. Trusted: the value of `uuid::Uuid::new_v4()`, which
/// is drawn at random, so nothing is said of it.
#[verifier::external_body]
pub(crate) fn random_identifier() -> (id: u128) {
    uuid::Uuid::new_v4().as_u128()
}

} // verus!
