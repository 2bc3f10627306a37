//! Instants in UTC, held as seconds and nanoseconds since the Unix epoch, with
//! their RFC 3339 text.

use vstd::prelude::*;

verus! {

/// The first second that chrono's `DateTime<Utc>` can hold (January 1 of the
/// year -262143, 00:00:00 UTC).
pub const MIN_SECONDS: i64 = -8334601315200;

/// The last second that chrono's `DateTime<Utc>` can hold (December 31 of the
/// year 262142, 23:59:59 UTC).
pub const MAX_SECONDS: i64 = 8210266876799;

/// The first second of the year 0 (0000-01-01T00:00:00Z).
pub const FIRST_FOUR_DIGIT_SECOND: i64 = -62167219200;

/// The last second of the year 9999 (9999-12-31T23:59:59Z).
pub const LAST_FOUR_DIGIT_SECOND: i64 = 253402300799;

/// What `DateTime::<Utc>::from_timestamp(secs, nanos)` accepts: a second in
/// the calendar range, and a nanosecond part under one second, or under two
/// seconds on the last second of a minute (a leap second).
pub open spec fn representable(secs: int, nanos: int) -> bool {
    &&& MIN_SECONDS <= secs <= MAX_SECONDS
    &&& 0 <= nanos
    &&& (nanos < 1_000_000_000 || (nanos < 2_000_000_000 && secs % 60 == 59))
}

/// Instants whose RFC 3339 text reads back as the same instant: those chrono
/// holds whose year has four digits (0 to 9999), leap seconds included.
pub open spec fn rfc3339_exact(secs: int, nanos: int) -> bool {
    &&& FIRST_FOUR_DIGIT_SECOND <= secs <= LAST_FOUR_DIGIT_SECOND
    &&& representable(secs, nanos)
}

/// The text that chrono's `DateTime::<Utc>::to_rfc3339` writes for the
/// instant `secs` seconds and `nanos` nanoseconds after the epoch.
pub uninterp spec fn rfc3339_of(secs: i64, nanos: u32) -> Seq<char>;

/// What chrono's `DateTime::parse_from_rfc3339` reads from `text`, as the
/// seconds and nanoseconds of the same instant in UTC, or `None` where it
/// refuses the text.
pub uninterp spec fn rfc3339_read(text: Seq<char>) -> Option<(i64, u32)>;

/// The RFC 3339 text that chrono writes for a timestamp.
pub open spec fn timestamp_text(t: Timestamp) -> Seq<char> {
    rfc3339_of(t.seconds(), t.subsec_nanos())
}

/// Whether chrono reads `text` as the instant `t`.
pub open spec fn reads_as(text: Seq<char>, t: Timestamp) -> bool {
    rfc3339_read(text) == Some((t.seconds(), t.subsec_nanos()))
}

/// What holds of every reading of the system clock: not before the epoch and
/// not inside a leap second.
pub open spec fn clock_reading(t: Timestamp) -> bool {
    0 <= t.seconds() && t.subsec_nanos() < 1_000_000_000
}

/// Whether the RFC 3339 text of `t` reads back as `t`.
pub open spec fn exact_text(t: Timestamp) -> bool {
    rfc3339_exact(t.seconds() as int, t.subsec_nanos() as int)
}

/// Reads the system clock through chrono's `Utc::now`. What it returns depends
/// on the clock alone; the contract claims only that it is a time that
/// chrono holds, after the epoch and not inside a leap second. (chrono panics
/// where the system clock is set before the Unix epoch.)
#[verifier::external_body]
fn clock_now() -> (res: (i64, u32))
    ensures
        representable(res.0 as int, res.1 as int),
        0 <= res.0,
        res.1 < 1_000_000_000,
{
    let now = chrono::Utc::now();
    (now.timestamp(), now.timestamp_subsec_nanos())
}

/// Writes an instant with chrono's `DateTime::<Utc>::from_timestamp` and
/// `to_rfc3339`. The contract claims that the text is the named result
/// `rfc3339_of` of the two numbers; the form of that text is left unsaid.
#[verifier::external_body]
fn format_rfc3339(secs: i64, nanos: u32) -> (res: String)
    requires
        representable(secs as int, nanos as int),
    ensures
        res@ == rfc3339_of(secs, nanos),
{
    chrono::DateTime::<chrono::Utc>::from_timestamp(secs, nanos).unwrap().to_rfc3339()
}

/// Reads a text with chrono's `DateTime::parse_from_rfc3339` and takes the
/// instant in UTC (`with_timezone(&Utc)`, then `timestamp` and
/// `timestamp_subsec_nanos`). The contract claims that the result is the named
/// result `rfc3339_read` of the text; that an instant read is one chrono holds,
/// as chrono documents that `from_timestamp` takes back what these two give;
/// and that the text `to_rfc3339` writes for an instant with a four-digit year
/// reads back as that instant (a leap second is written as second 60, which
/// `parse_from_rfc3339` reads as second 59 plus one second of nanoseconds). Which texts chrono accepts
/// otherwise is left unsaid.
#[verifier::external_body]
fn parse_rfc3339(text: &str) -> (res: Option<(i64, u32)>)
    ensures
        res == rfc3339_read(text@),
        res matches Some(p) ==> representable(p.0 as int, p.1 as int),
        forall|secs: i64, nanos: u32|
            rfc3339_exact(secs as int, nanos as int) && text@ == #[trigger] rfc3339_of(secs, nanos)
                ==> res == Some((secs, nanos)),
{
    match chrono::DateTime::parse_from_rfc3339(text) {
        Ok(t) => {
            let utc = t.with_timezone(&chrono::Utc);
            Some((utc.timestamp(), utc.timestamp_subsec_nanos()))
        },
        Err(_) => None,
    }
}

/// An instant in UTC that chrono can hold: whole seconds since the Unix epoch
/// and the nanoseconds past them.
#[derive(Clone, Copy, Debug)]
pub struct Timestamp {
    secs: i64,
    nanos: u32,
}

impl Timestamp {
    #[verifier::type_invariant]
    spec fn holds_instant(self) -> bool {
        representable(self.secs as int, self.nanos as int)
    }

    /// Seconds since the Unix epoch.
    pub closed spec fn seconds(self) -> i64 {
        self.secs
    }

    /// Nanoseconds past `seconds`.
    pub closed spec fn subsec_nanos(self) -> u32 {
        self.nanos
    }

    /// Two timestamps with the same seconds and nanoseconds are the same.
    pub proof fn lemma_eq(a: Timestamp, b: Timestamp)
        requires
            a.seconds() == b.seconds(),
            a.subsec_nanos() == b.subsec_nanos(),
        ensures
            a == b,
    {
    }

    /// The instant `secs` seconds and `nanos` nanoseconds after the epoch, or
    /// `None` where chrono cannot hold it.
    pub fn new(secs: i64, nanos: u32) -> (res: Option<Timestamp>)
        ensures
            res is Some <==> representable(secs as int, nanos as int),
            res matches Some(t) ==> t.seconds() == secs && t.subsec_nanos() == nanos,
    {
        if secs < MIN_SECONDS || secs > MAX_SECONDS {
            return None;
        }
        // The last second of a minute, counted without a negative remainder.

        let last_of_minute = if secs >= 0 {
            secs % 60 == 59
        } else {
            (-(secs + 1)) % 60 == 0
        };
        if nanos < 1_000_000_000 || (nanos < 2_000_000_000 && last_of_minute) {
            Some(Timestamp { secs, nanos })
        } else {
            None
        }
    }

    /// Seconds since the Unix epoch.
    pub fn secs(&self) -> (res: i64)
        ensures
            res == self.seconds(),
    {
        self.secs
    }

    /// Nanoseconds past the whole second.
    pub fn nanos(&self) -> (res: u32)
        ensures
            res == self.subsec_nanos(),
    {
        self.nanos
    }

    /// The current time of the system clock.
    pub fn now() -> (res: Timestamp)
        ensures
            clock_reading(res),
    {
        let (secs, nanos) = clock_now();
        Timestamp { secs, nanos }
    }

    /// The RFC 3339 text of this instant, as chrono writes it.
    pub fn to_rfc3339(&self) -> (res: String)
        ensures
            res@ == timestamp_text(*self),
    {
        proof {
            use_type_invariant(self);
        }
        format_rfc3339(self.secs, self.nanos)
    }

    /// The instant that an RFC 3339 text names, as chrono reads it, or `None`
    /// where chrono refuses the text. The text that `to_rfc3339` writes for an
    /// instant with a four-digit year, leap seconds included, reads back as that
    /// instant.
    pub fn parse_rfc3339(text: &str) -> (res: Option<Timestamp>)
        ensures
            res is Some <==> rfc3339_read(text@) is Some,
            res matches Some(t) ==> reads_as(text@, t),
            forall|t: Timestamp| exact_text(t) && text@ == #[trigger] timestamp_text(t) ==> res == Some(t),
    {
        let parsed = parse_rfc3339(text);
        proof {
            assert forall|t: Timestamp| exact_text(t) && text@ == #[trigger] timestamp_text(t) implies parsed
                == Some((t.secs, t.nanos)) by {
                assert(text@ == rfc3339_of(t.secs, t.nanos));
            }
        }
        match parsed {
            Some((secs, nanos)) => Some(Timestamp { secs, nanos }),
            None => None,
        }
    }
}

} // verus!
