//! Identifiers and timestamps.

use vstd::prelude::*;

verus! {

/// A point in time, in UTC: the nanoseconds since the Unix epoch.
#[derive(Clone, Copy, Debug, PartialEq, Eq, Structural)]
pub struct Timestamp {
    pub nanos: i64,
}

impl Timestamp {
    /// Not later than `other`.
    pub open spec fn spec_le(self, other: Timestamp) -> bool {
        self.nanos <= other.nanos
    }

    /// Earlier than `other`.
    pub open spec fn spec_lt(self, other: Timestamp) -> bool {
        self.nanos < other.nanos
    }

    /// The point in time that lies `nanos` nanoseconds after the epoch.
    pub fn from_nanos(nanos: i64) -> (t: Timestamp)
        ensures
            t.nanos == nanos,
    {
        Timestamp { nanos }
    }

    /// The point in time that a reading of the clock stands for. A reading
    /// is the number of nanoseconds since the epoch, or nothing where the time
    /// is too late for that number to be counted in 64 bits; such a time is
    /// given as the latest time that can be counted.
    pub open spec fn of_reading(reading: Option<i64>) -> Timestamp {
        match reading {
            Some(nanos) => Timestamp { nanos },
            None => Timestamp { nanos: i64::MAX },
        }
    }

    /// The point in time that a reading of the clock stands for.
    pub fn from_reading(reading: Option<i64>) -> (t: Timestamp)
        ensures
            t == Timestamp::of_reading(reading),
    {
        match reading {
            Some(nanos) => Timestamp { nanos },
            None => Timestamp { nanos: i64::MAX },
        }
    }

    /// True when `self` is not later than `other`.
    pub fn le(&self, other: &Timestamp) -> (r: bool)
        ensures
            r == self.spec_le(*other),
    {
        self.nanos <= other.nanos
    }

    /// True when `self` is earlier than `other`.
    pub fn lt(&self, other: &Timestamp) -> (r: bool)
        ensures
            r == self.spec_lt(*other),
    {
        self.nanos < other.nanos
    }
}

/// Draws a random (version 4) identifier with `uuid::Uuid::new_v4` and hands
/// it out as its 128-bit value. Nothing is claimed of the value drawn. The
/// call panics only where the system gives no random bytes.
#[verifier::external_body]
pub(crate) fn fresh_id() -> (id: u128) {
    uuid::Uuid::new_v4().as_u128()
}

/// Reads the clock with `std::time::SystemTime::now`, takes the time read as
/// a `chrono::DateTime<chrono::Utc>` and gives it in nanoseconds since the
/// epoch, as `timestamp_nanos_opt` counts them: nothing where that number
/// does not fit. Nothing is claimed of the time read. A clock that reads a
/// time before the epoch is read as well; only a time that no
/// `chrono::DateTime` can hold, more than 262,000 years from the epoch,
/// makes the conversion panic.
#[verifier::external_body]
pub(crate) fn clock_nanos() -> (nanos: Option<i64>) {
    chrono::DateTime::<chrono::Utc>::from(std::time::SystemTime::now()).timestamp_nanos_opt()
}

/// The present time: what the reading of the clock stands for. Nothing is
/// known of what the clock reads, so nothing is claimed of the time given;
/// `Timestamp::from_reading` says which time each reading gives.
pub fn now() -> (t: Timestamp) {
    Timestamp::from_reading(clock_nanos())
}

/// The hexadecimal digit, in lower case, of a value below sixteen.
pub open spec fn hex_digit(value: int) -> char {
    "0123456789abcdef"@[value]
}

/// The place among the 32 hexadecimal digits of an identifier that is written
/// at position `p` of its text, hyphens counted.
pub open spec fn digit_place(p: int) -> int {
    if p < 8 {
        p
    } else if p < 13 {
        p - 1
    } else if p < 18 {
        p - 2
    } else if p < 23 {
        p - 3
    } else {
        p - 4
    }
}

/// The digit of `id` at place `k`, the most significant digit being place 0.
pub open spec fn digit_at(id: u128, k: int) -> int {
    ((id >> ((4 * (31 - k)) as u128)) & 0xf) as int
}

/// The canonical text of an identifier: its 32 hexadecimal digits in lower
/// case, most significant first, in groups of 8, 4, 4, 4 and 12 digits with a
/// hyphen between the groups.
pub open spec fn id_text(id: u128) -> Seq<char> {
    Seq::new(
        36,
        |p: int|
            if p == 8 || p == 13 || p == 18 || p == 23 {
                '-'
            } else {
                hex_digit(digit_at(id, digit_place(p)))
            },
    )
}

/// The canonical text of an identifier holds hyphens and hexadecimal
/// digits only; so it holds no slash.
pub proof fn lemma_id_text_chars(id: u128)
    ensures
        id_text(id).len() == 36,
        forall|p: int| 0 <= p < 36 ==> (#[trigger] id_text(id)[p]) != '/',
{
    reveal_strlit("0123456789abcdef");
    let digits = "0123456789abcdef"@;
    assert(digits.len() == 16);
    assert forall|d: int| 0 <= d < 16 implies #[trigger] digits[d] != '/' by {
        if d == 0 {
        } else if d == 1 {
        } else if d == 2 {
        } else if d == 3 {
        } else if d == 4 {
        } else if d == 5 {
        } else if d == 6 {
        } else if d == 7 {
        } else if d == 8 {
        } else if d == 9 {
        } else if d == 10 {
        } else if d == 11 {
        } else if d == 12 {
        } else if d == 13 {
        } else if d == 14 {
        } else {
        }
    }
    assert forall|p: int| 0 <= p < 36 implies (#[trigger] id_text(id)[p]) != '/' by {
        if !(p == 8 || p == 13 || p == 18 || p == 23) {
            let shift = ((4 * (31 - digit_place(p))) as u128);
            assert((id >> shift) & 0xf < 16) by (bit_vector);
            assert(0 <= digit_at(id, digit_place(p)) < 16);
        }
    }
}

/// The identifier that `uuid::Uuid::parse_str` reads from a text, if it
/// reads one.
pub uninterp spec fn text_id(text: Seq<char>) -> Option<u128>;

/// Reads an identifier with `uuid::Uuid::parse_str`, which takes the
/// hyphenated, the simple, the URN and the braced form, and hands it out as
/// its 128-bit value.
#[verifier::external_body]
pub(crate) fn parse_id(text: &str) -> (id: Option<u128>)
    ensures
        id == text_id(text@),
{
    uuid::Uuid::parse_str(text).ok().map(|u| u.as_u128())
}

/// Writes an identifier in its canonical text with `uuid::Uuid::from_u128`
/// and the `to_string` of `uuid::Uuid`, which prints the hyphenated lower-case
/// form of the big-endian value. `uuid::Uuid::parse_str` reads that form back
/// as the identifier written.
#[verifier::external_body]
pub(crate) fn id_to_string(id: u128) -> (text: String)
    ensures
        text@ == id_text(id),
        text_id(text@) == Some(id),
{
    uuid::Uuid::from_u128(id).to_string()
}

} // verus!
