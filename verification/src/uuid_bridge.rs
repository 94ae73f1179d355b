//! The calls this library makes into the `uuid` crate. A UUID is held as
//! the `u128` whose big-endian bytes are the UUID's bytes, as
//! `uuid::Uuid::as_u128` gives it.
use vstd::arithmetic::power::pow;
use vstd::prelude::*;

use crate::api::UserId;

verus! {

/// The lowercase hexadecimal digit for a value below sixteen.
pub open spec fn hex_digit(n: int) -> char {
    if n < 10 {
        (n + 48) as char
    } else {
        (n + 87) as char
    }
}

/// The `i`-th hexadecimal digit of a 128-bit value, most significant first.
pub open spec fn nibble(id: u128, i: int) -> int {
    (id as int / pow(16, (31 - i) as nat)) % 16
}

/// The hyphenated lowercase text of a UUID: its 32 hexadecimal digits, most
/// significant first, in groups of 8, 4, 4, 4 and 12 joined by hyphens.
pub open spec fn uuid_text(id: u128) -> Seq<char> {
    Seq::new(
        36,
        |j: int|
            if j == 8 || j == 13 || j == 18 || j == 23 {
                '-'
            } else {
                let k = if j < 8 {
                    j
                } else if j < 13 {
                    j - 1
                } else if j < 18 {
                    j - 2
                } else if j < 23 {
                    j - 3
                } else {
                    j - 4
                };
                hex_digit(nibble(id, k))
            },
    )
}

/// Calls `uuid::Uuid::nil()`, the all-zero UUID, read with `as_u128`.
#[verifier::external_body]
pub(crate) fn nil_user_id() -> (id: UserId)
    ensures
        id == 0,
{
    uuid::Uuid::nil().as_u128()
}

/// Formats `uuid::Uuid::from_u128(id)` with its `Display` impl, which writes
/// the hyphenated lowercase form.
#[verifier::external_body]
pub(crate) fn uuid_hyphenated(id: UserId) -> (text: String)
    ensures
        text@ == uuid_text(id),
{
    uuid::Uuid::from_u128(id).to_string()
}

} // verus!
