use vstd::prelude::*;
use vstd::arithmetic::power::pow;

verus! {

/// The lowercase hexadecimal digit of a value below 16.
pub open spec fn hex_digit(v: int) -> char {
    if v < 10 {
        (('0' as int) + v) as char
    } else {
        (('a' as int) + v - 10) as char
    }
}

/// The `n`-th hexadecimal digit of the id, the most significant first.
pub open spec fn nibble(id: u128, n: int) -> int {
    (id as int / pow(16, (31 - n) as nat)) % 16
}

/// Positions of the hyphens in the text of an id.
pub open spec fn is_hyphen_position(k: int) -> bool {
    k == 8 || k == 13 || k == 18 || k == 23
}

/// Which hexadecimal digit stands at position `k` of the text of an id.
pub open spec fn digit_index(k: int) -> int {
    if k < 8 {
        k
    } else if k < 13 {
        k - 1
    } else if k < 18 {
        k - 2
    } else if k < 23 {
        k - 3
    } else {
        k - 4
    }
}

/// The text of an id: its 32 hexadecimal digits in lowercase, most
/// significant first, in groups of 8, 4, 4, 4 and 12 joined by hyphens.
pub open spec fn id_text(id: u128) -> Seq<char> {
    Seq::new(
        36,
        |k: int|
            if is_hyphen_position(k) {
                '-'
            } else {
                hex_digit(nibble(id, digit_index(k)))
            },
    )
}

/// `uuid::Uuid`'s display form (hyphenated, lowercase) of the id with the
/// given 128-bit value in big-endian order (`Uuid::from_u128`).
#[verifier::external_body]
pub(crate) fn id_to_string(id: u128) -> (r: String)
    ensures
        r@ == id_text(id),
{
    uuid::Uuid::from_u128(id).to_string()
}

/// The version field of an id (bits 76 to 79 of its 128-bit value).
pub open spec fn id_version(id: u128) -> int {
    (id as int / 0x10000000000000000000) % 16
}

/// The variant field of an id (bits 62 and 63 of its 128-bit value).
pub open spec fn id_variant(id: u128) -> int {
    (id as int / 0x4000000000000000) % 4
}

/// A new random id from `uuid::Uuid::new_v4`, as its 128-bit value. Its source
/// masks random bits so that the version field is 4 and the variant bits are
/// `10` (RFC 4122); the other bits come from a random source and are not stated.
#[verifier::external_body]
pub(crate) fn new_random_id() -> (r: u128)
    ensures
        id_version(r) == 4,
        id_variant(r) == 2,
{
    uuid::Uuid::new_v4().as_u128()
}

} // verus!
