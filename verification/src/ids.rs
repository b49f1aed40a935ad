//! Identifiers: UUIDs, held as one big-endian number each.
pub mod laws;

use vstd::arithmetic::power::pow;
use vstd::prelude::*;

verus! {

/// Identifier of a room.
#[derive(Clone, Copy, Debug, PartialEq, Eq, PartialOrd, Ord, Hash, Structural)]
pub struct RoomId(pub u128);

/// Identifier of a participant.
#[derive(Clone, Copy, Debug, PartialEq, Eq, PartialOrd, Ord, Hash, Structural)]
pub struct ParticipantId(pub u128);

/// Identifier of a transport.
#[derive(Clone, Copy, Debug, PartialEq, Eq, PartialOrd, Ord, Hash, Structural)]
pub struct TransportId(pub u128);

/// Identifier of a producer.
#[derive(Clone, Copy, Debug, PartialEq, Eq, PartialOrd, Ord, Hash, Structural)]
pub struct ProducerId(pub u128);

/// Identifier of a consumer.
#[derive(Clone, Copy, Debug, PartialEq, Eq, PartialOrd, Ord, Hash, Structural)]
pub struct ConsumerId(pub u128);

/// `value` is laid out as a random UUID: version 4, RFC 4122 variant.
pub open spec fn is_random_uuid(value: u128) -> bool {
    &&& (value >> 76u128) & 0xf == 4
    &&& (value >> 62u128) & 0x3 == 2
}

/// The lower-case hexadecimal digit for `value`.
pub open spec fn hex_digit(value: int) -> char {
    if value < 10 {
        (48 + value) as char
    } else {
        (87 + value) as char
    }
}

/// The hexadecimal digit of `value` that has `below` digits to its right.
pub open spec fn hex_digit_at(value: u128, below: nat) -> char {
    hex_digit(value as int / pow(16, below) % 16)
}

/// The text of a UUID: 32 lower-case hexadecimal digits, the most significant first, in groups
/// of 8, 4, 4, 4 and 12 with hyphens between them.
pub open spec fn uuid_text(value: u128) -> Seq<char> {
    Seq::new(8, |i: int| hex_digit_at(value, (31 - i) as nat)) + seq!['-'] + Seq::new(
        4,
        |i: int| hex_digit_at(value, (23 - i) as nat),
    ) + seq!['-'] + Seq::new(4, |i: int| hex_digit_at(value, (19 - i) as nat)) + seq!['-']
        + Seq::new(4, |i: int| hex_digit_at(value, (15 - i) as nat)) + seq!['-'] + Seq::new(
        12,
        |i: int| hex_digit_at(value, (11 - i) as nat),
    )
}

/// Calls `uuid::Uuid::new_v4` and takes the UUID as one big-endian number.
///
/// All that is claimed of the number is what `new_v4` sets after drawing random bits: version 4
/// and the RFC 4122 variant. `new_v4` panics where the operating system hands out no random
/// bytes; no argument decides that.
#[verifier::external_body]
fn random_uuid() -> (value: u128)
    ensures
        is_random_uuid(value),
{
    uuid::Uuid::new_v4().as_u128()
}

/// Calls `uuid::Uuid::from_u128` and formats the UUID with its `Display` impl, which writes the
/// hyphenated lower-case form.
#[verifier::external_body]
fn format_uuid(value: u128) -> (text: String)
    ensures
        text@ == uuid_text(value),
{
    uuid::Uuid::from_u128(value).to_string()
}

impl ParticipantId {
    /// A new random identifier.
    pub fn new() -> (id: ParticipantId)
        ensures
            is_random_uuid(id.0),
    {
        ParticipantId(random_uuid())
    }

    /// The identifier as text, such as `936da01f-9abd-4d9d-80c7-02af85c822a8`.
    pub fn to_string(&self) -> (text: String)
        ensures
            text@ == uuid_text(self.0),
    {
        format_uuid(self.0)
    }
}

} // verus!
