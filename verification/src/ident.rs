//! Identifiers of events, tickets and users: 128-bit values in the layout of
//! a UUID. New ones are drawn by the `uuid` crate, which also prints them.

use uuid::Uuid;
use vstd::prelude::*;

verus! {

/// The bits of a UUID that hold its version and its variant.
pub const VERSION_VARIANT_MASK: u128 = 0x0000_0000_0000_F000_C000_0000_0000_0000;

/// Those bits in a random (version 4, RFC 4122 variant) UUID.
pub const RANDOM_UUID_BITS: u128 = 0x0000_0000_0000_4000_8000_0000_0000_0000;

/// Whether `id` is marked as a random UUID.
pub open spec fn is_random_id(id: u128) -> bool {
    id & VERSION_VARIANT_MASK == RANDOM_UUID_BITS
}

/// The lower-case hexadecimal digit for `n` in `0..16`.
pub open spec fn hex_digit(n: int) -> char {
    if n < 10 {
        ('0' as int + n) as char
    } else {
        ('a' as int + (n - 10)) as char
    }
}

/// The `k`-th of the 32 hexadecimal digits of `id`, most significant first.
pub open spec fn nibble(id: u128, k: int) -> int {
    ((id as int) / vstd::arithmetic::power::pow(16, (31 - k) as nat)) % 16
}

/// How many hyphens stand before position `i` of the hyphenated form.
pub open spec fn hyphens_before(i: int) -> int {
    if i < 8 {
        0
    } else if i < 13 {
        1
    } else if i < 18 {
        2
    } else if i < 23 {
        3
    } else {
        4
    }
}

/// The hyphenated form of `id`: 32 lower-case hexadecimal digits in groups
/// of 8, 4, 4, 4 and 12, as in `a1a2a3a4-b1b2-c1c2-d1d2-d3d4d5d6d7d8`.
pub open spec fn hyphenated(id: u128) -> Seq<char> {
    Seq::new(
        36,
        |i: int|
            if i == 8 || i == 13 || i == 18 || i == 23 {
                '-'
            } else {
                hex_digit(nibble(id, i - hyphens_before(i)))
            },
    )
}

/// Calls `uuid::Uuid::new_v4` and returns the value of `as_u128`. Trusted:
/// whatever the random bits, the version and variant bits are those of a
/// random UUID. The draw panics if the operating system has no random numbers
/// to give.
#[verifier::external_body]
fn random_uuid() -> (id: u128)
    ensures
        is_random_id(id),
{
    Uuid::new_v4().as_u128()
}

/// Calls `uuid::Uuid::from_u128` and then the UUID's `Display` impl
/// (`to_string`). Trusted: the text is the lower-case hyphenated form.
#[verifier::external_body]
fn print_uuid(id: u128) -> (s: String)
    ensures
        s@ == hyphenated(id),
{
    Uuid::from_u128(id).to_string()
}

/// A fresh random identifier.
pub fn fresh_id() -> (id: u128)
    ensures
        is_random_id(id),
{
    random_uuid()
}

/// The hyphenated text of `id`.
pub fn id_text(id: u128) -> (s: String)
    ensures
        s@ == hyphenated(id),
        s@.len() == 36,
{
    print_uuid(id)
}

} // verus!
