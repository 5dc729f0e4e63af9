//! Whether a report may be submitted, and if not, why.

use vstd::prelude::*;

verus! {

/// A set of reasons why the dialog's contents are invalid, one bit each.
#[derive(Debug, Clone, Copy, PartialEq, Eq, Structural)]
pub struct InvalidStateFlags {
    pub bits: u8,
}

/// The bit for an invalid email address.
pub const EMAIL_ADDRESS_BIT: u8 = 0b00000001;

/// The bit for a report that is too short or too long.
pub const CHARACTER_COUNT_BIT: u8 = 0b00000010;

impl InvalidStateFlags {
    /// All bits of `other` are set in `self`.
    pub open spec fn includes(self, other: InvalidStateFlags) -> bool {
        self.bits & other.bits == other.bits
    }

    /// No flag.
    pub fn empty() -> (result: Self)
        ensures
            result.bits == 0,
    {
        InvalidStateFlags { bits: 0 }
    }

    /// The flag for an invalid email address.
    pub fn email_address() -> (result: Self)
        ensures
            result.bits == EMAIL_ADDRESS_BIT,
    {
        InvalidStateFlags { bits: EMAIL_ADDRESS_BIT }
    }

    /// The flag for a report that is too short or too long.
    pub fn character_count() -> (result: Self)
        ensures
            result.bits == CHARACTER_COUNT_BIT,
    {
        InvalidStateFlags { bits: CHARACTER_COUNT_BIT }
    }

    /// Whether no flag is set.
    pub fn is_empty(&self) -> (result: bool)
        ensures
            result == (self.bits == 0),
    {
        self.bits == 0
    }

    /// Whether every flag of `other` is set.
    pub fn contains(&self, other: InvalidStateFlags) -> (result: bool)
        ensures
            result == self.includes(other),
    {
        self.bits & other.bits == other.bits
    }

    /// Sets every flag of `other`.
    pub fn insert(&mut self, other: InvalidStateFlags)
        ensures
            final(self).bits == old(self).bits | other.bits,
    {
        self.bits = self.bits | other.bits;
    }
}

/// Why a report cannot be submitted.
#[derive(Debug, Clone, Copy, PartialEq, Eq, Structural)]
pub enum CannotSubmitReason {
    InvalidState { flags: InvalidStateFlags },
    AwaitingSubmission,
}

/// Whether a report can be submitted.
#[derive(Debug, Clone, Copy, PartialEq, Eq, Structural)]
pub enum SubmissionState {
    CanSubmit,
    CannotSubmit { reason: CannotSubmitReason },
}

/// The state of a dialog with a valid (or not) email address and a valid (or not) character count.
pub open spec fn assessed_state(
    valid_email_address: bool,
    valid_character_count: bool,
) -> SubmissionState {
    if valid_email_address && valid_character_count {
        SubmissionState::CanSubmit
    } else {
        SubmissionState::CannotSubmit {
            reason: CannotSubmitReason::InvalidState {
                flags: InvalidStateFlags {
                    bits: if valid_email_address {
                        CHARACTER_COUNT_BIT
                    } else if valid_character_count {
                        EMAIL_ADDRESS_BIT
                    } else {
                        EMAIL_ADDRESS_BIT | CHARACTER_COUNT_BIT
                    },
                },
            },
        }
    }
}

/// Judges a dialog by its email address and its character count.
pub fn assess(valid_email_address: bool, valid_character_count: bool) -> (result: SubmissionState)
    ensures
        result == assessed_state(valid_email_address, valid_character_count),
{
    proof {
        assert(0u8 | 1u8 == 1u8 && 0u8 | 2u8 == 2u8 && 1u8 | 2u8 != 0u8) by (bit_vector);
    }
    let mut flags = InvalidStateFlags::empty();
    if !valid_email_address {
        flags.insert(InvalidStateFlags::email_address());
    }
    if !valid_character_count {
        flags.insert(InvalidStateFlags::character_count());
    }
    if flags.is_empty() {
        SubmissionState::CanSubmit
    } else {
        SubmissionState::CannotSubmit { reason: CannotSubmitReason::InvalidState { flags } }
    }
}

/// Bit `k` of a set of flags.
pub open spec fn has_bit(bits: u8, k: u8) -> bool {
    (bits >> k) & 1 == 1
}

/// One set of flags includes another exactly if it has every bit of it.
pub proof fn law_includes_bitwise(a: InvalidStateFlags, b: InvalidStateFlags)
    ensures
        a.includes(b) <==> {
            &&& has_bit(b.bits, 0) ==> has_bit(a.bits, 0)
            &&& has_bit(b.bits, 1) ==> has_bit(a.bits, 1)
            &&& has_bit(b.bits, 2) ==> has_bit(a.bits, 2)
            &&& has_bit(b.bits, 3) ==> has_bit(a.bits, 3)
            &&& has_bit(b.bits, 4) ==> has_bit(a.bits, 4)
            &&& has_bit(b.bits, 5) ==> has_bit(a.bits, 5)
            &&& has_bit(b.bits, 6) ==> has_bit(a.bits, 6)
            &&& has_bit(b.bits, 7) ==> has_bit(a.bits, 7)
        },
{
    let x = a.bits;
    let y = b.bits;
    assert((x & y == y) <==> {
        &&& (y >> 0) & 1 == 1 ==> (x >> 0) & 1 == 1
        &&& (y >> 1) & 1 == 1 ==> (x >> 1) & 1 == 1
        &&& (y >> 2) & 1 == 1 ==> (x >> 2) & 1 == 1
        &&& (y >> 3) & 1 == 1 ==> (x >> 3) & 1 == 1
        &&& (y >> 4) & 1 == 1 ==> (x >> 4) & 1 == 1
        &&& (y >> 5) & 1 == 1 ==> (x >> 5) & 1 == 1
        &&& (y >> 6) & 1 == 1 ==> (x >> 6) & 1 == 1
        &&& (y >> 7) & 1 == 1 ==> (x >> 7) & 1 == 1
    }) by (bit_vector);
}

/// The two flags are two different single bits: the lowest for the email address, the next for the
/// character count.
pub proof fn law_flags_are_distinct()
    ensures
        EMAIL_ADDRESS_BIT == 1,
        CHARACTER_COUNT_BIT == 2,
        !(InvalidStateFlags { bits: EMAIL_ADDRESS_BIT }).includes(
            InvalidStateFlags { bits: CHARACTER_COUNT_BIT },
        ),
        !(InvalidStateFlags { bits: CHARACTER_COUNT_BIT }).includes(
            InvalidStateFlags { bits: EMAIL_ADDRESS_BIT },
        ),
{
    assert(1u8 & 2u8 == 0u8 && 2u8 & 1u8 == 0u8) by (bit_vector);
}

/// The judgement of a dialog allows submission exactly if both parts are valid. Otherwise it gives
/// the lowest bit exactly if the email address is invalid, the next exactly if the character count
/// is, and no other bit; and it never says that a submission is under way.
pub proof fn law_assessed_state(valid_email_address: bool, valid_character_count: bool)
    ensures
        ({
            let state = assessed_state(valid_email_address, valid_character_count);
            let bits = state->reason->flags.bits;
            &&& state is CanSubmit <==> valid_email_address && valid_character_count
            &&& state is CannotSubmit ==> {
                &&& state->reason is InvalidState
                &&& has_bit(bits, 0) <==> !valid_email_address
                &&& has_bit(bits, 1) <==> !valid_character_count
                &&& bits <= 3
            }
        }),
{
    assert((1u8 | 2u8) == 3u8) by (bit_vector);
    assert((1u8 >> 0u8) & 1 == 1 && (1u8 >> 1u8) & 1 == 0 && (2u8 >> 0u8) & 1 == 0 && (2u8 >> 1u8) & 1
        == 1 && (3u8 >> 0u8) & 1 == 1 && (3u8 >> 1u8) & 1 == 1) by (bit_vector);
}

} // verus!
