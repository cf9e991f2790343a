use vstd::prelude::*;

verus! {

/// Identifier of a post: the 128 bits of a UUID, most significant first.
#[derive(Clone, Copy, Debug, PartialEq, Eq, Structural)]
pub struct PostId {
    pub value: u128,
}

/// The lowercase hexadecimal digit for `d < 16`.
pub open spec fn hex_char(d: nat) -> char {
    seq!['0', '1', '2', '3', '4', '5', '6', '7', '8', '9', 'a', 'b', 'c', 'd', 'e', 'f'][d as int]
}

/// The `n` lowest hexadecimal digits of `v`, most significant first.
pub open spec fn hex_digits(v: nat, n: nat) -> Seq<char>
    decreases n,
{
    if n == 0 {
        seq![]
    } else {
        hex_digits(v / 16, (n - 1) as nat).push(hex_char(v % 16))
    }
}

/// The hyphenated form of a UUID: groups of 8, 4, 4, 4 and 12 digits.
pub open spec fn hyphenated(v: u128) -> Seq<char> {
    let v = v as nat;
    hex_digits(v / 0x1_0000_0000_0000_0000_0000_0000, 8) + seq!['-']
        + hex_digits(v / 0x1_0000_0000_0000_0000_0000, 4) + seq!['-']
        + hex_digits(v / 0x1_0000_0000_0000_0000, 4) + seq!['-']
        + hex_digits(v / 0x1_0000_0000_0000, 4) + seq!['-']
        + hex_digits(v, 12)
}

/// Relies on `uuid::Uuid::now_v7`: a fresh identifier ordered by creation
/// time. It depends on the clock and on random bits; what holds of every
/// such id is its version digit, 7.
#[verifier::external_body]
pub(crate) fn generate_id() -> (r: PostId)
    ensures
        (r.value / 0x1000_0000_0000_0000_0000) % 16 == 7,
{
    PostId { value: uuid::Uuid::now_v7().as_u128() }
}

/// Relies on `uuid::Uuid::from_u128` and the `Display` of `uuid::Uuid`,
/// which writes the lowercase hyphenated form of the big-endian bytes.
#[verifier::external_body]
pub(crate) fn id_text(id: PostId) -> (r: String)
    ensures
        r@ == hyphenated(id.value),
{
    uuid::Uuid::from_u128(id.value).to_string()
}

} // verus!
