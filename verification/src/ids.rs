//! Identifiers: 128-bit values in the integer form of a UUID.

use vstd::prelude::*;

verus! {

/// Two to the power 76: the weight of the version digit.
pub const VERSION_WEIGHT: u128 = 0x1_0000_0000_0000_0000_000;

/// Two to the power 62: the weight of the two variant bits.
pub const VARIANT_WEIGHT: u128 = 0x4000_0000_0000_0000;

/// The nil identifier.
pub const NIL: u128 = 0;

/// Whether `id` has the layout of a random (version 4) UUID: the version
/// digit is 4 and the two variant bits are `10`.
pub open spec fn is_random_layout(id: u128) -> bool {
    (id / VERSION_WEIGHT) % 16 == 4 && (id / VARIANT_WEIGHT) % 4 == 2
}

/// The hexadecimal digit, in lower case, of a value below 16.
pub open spec fn hex_digit(value: int) -> char {
    if value < 10 {
        ('0' as int + value) as char
    } else {
        ('a' as int + value - 10) as char
    }
}

/// Sixteen to the power `n`.
pub open spec fn pow16(n: nat) -> int
    decreases n,
{
    if n == 0 {
        1
    } else {
        16 * pow16((n - 1) as nat)
    }
}

/// The `k`-th of the 32 hexadecimal digits of `id`, the most significant
/// first.
pub open spec fn digit_at(id: u128, k: int) -> char {
    hex_digit((id as int / pow16((31 - k) as nat)) % 16)
}

/// The canonical text of an identifier: 32 lower-case hexadecimal digits,
/// the most significant first, in groups of 8, 4, 4, 4 and 12 joined by
/// hyphens.
pub open spec fn hyphenated(id: u128) -> Seq<char> {
    Seq::new(
        36,
        |i: int|
            if i == 8 || i == 13 || i == 18 || i == 23 {
                '-'
            } else if i < 8 {
                digit_at(id, i)
            } else if i < 13 {
                digit_at(id, i - 1)
            } else if i < 18 {
                digit_at(id, i - 2)
            } else if i < 23 {
                digit_at(id, i - 3)
            } else {
                digit_at(id, i - 4)
            },
    )
}

/// `uuid::Uuid::new_v4`, as an integer: a fresh identifier from the system's
/// random source. Whatever value comes back, its version digit is 4 and its
/// variant bits are `10`.
#[verifier::external_body]
pub(crate) fn random_id() -> (id: u128)
    ensures
        is_random_layout(id),
{
    uuid::Uuid::new_v4().as_u128()
}

/// `uuid::Uuid::to_string` of the identifier with the integer value `id`:
/// its hyphenated lower-case form.
#[verifier::external_body]
pub(crate) fn id_text(id: u128) -> (text: String)
    ensures
        text@ == hyphenated(id),
{
    uuid::Uuid::from_u128(id).to_string()
}

/// Chooses the identifier of a point: the one that is already known, else
/// the fresh one.
pub fn resolve_id(known: Option<u128>, fresh: u128) -> (id: u128)
    ensures
        id == match known {
            Some(k) => k,
            None => fresh,
        },
{
    match known {
        Some(k) => k,
        None => fresh,
    }
}

} // verus!
