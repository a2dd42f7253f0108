//! Identifiers and the clock: the outside calls that mint ids, write them as text, and read
//! the time.
use vstd::prelude::*;

verus! {

/// The nil identifier: `uuid::Uuid::nil()` (all 128 bits zero) taken as an integer.
#[verifier::external_body]
pub fn nil_id() -> (id: u128)
    ensures
        id == 0,
{
    uuid::Uuid::nil().as_u128()
}

/// The current time in microseconds since the Unix epoch (`chrono::Utc::now()`).
/// Nothing is stated of the value: it depends on the moment of the call.
#[verifier::external_body]
pub fn now_micros() -> i64 {
    chrono::Utc::now().timestamp_micros()
}

/// The lowercase hexadecimal digit of `d` (below 16).
pub open spec fn hex_digit(d: nat) -> char {
    if d < 10 { (48 + d) as char } else { (87 + d) as char }
}

/// The `n` lowest hexadecimal digits of `x`, the most significant first.
pub open spec fn hex_digits(x: nat, n: nat) -> Seq<char>
    decreases n,
{
    if n == 0 {
        seq![]
    } else {
        hex_digits(x / 16, (n - 1) as nat).push(hex_digit(x % 16))
    }
}

/// The hyphenated text of an id: its 32 lowercase hexadecimal digits, the most significant
/// first, in groups of 8, 4, 4, 4 and 12.
pub open spec fn id_text_of(id: u128) -> Seq<char> {
    let h = hex_digits(id as nat, 32);
    h.subrange(0, 8) + seq!['-'] + h.subrange(8, 12) + seq!['-'] + h.subrange(12, 16) + seq!['-']
        + h.subrange(16, 20) + seq!['-'] + h.subrange(20, 32)
}

/// The text of an id: `uuid::Uuid::from_u128(id).to_string()`. The id's bytes are taken
/// most significant first, and `Display` writes the hyphenated lowercase form
/// (`67e55044-10b1-426f-9247-bb680e5fe0c8`), which is what the contract states.
#[verifier::external_body]
pub fn id_text(id: u128) -> (r: String)
    ensures
        r@ == id_text_of(id),
{
    uuid::Uuid::from_u128(id).to_string()
}

} // verus!
