use vstd::prelude::*;

verus! {

/// First second that RFC 3339 can write: 0000-01-01T00:00:00Z.
pub const MIN_SECS: i64 = -62_167_219_200;

/// Last second that RFC 3339 can write: 9999-12-31T23:59:59Z.
pub const MAX_SECS: i64 = 253_402_300_799;

pub const NANOS_PER_SEC: u32 = 1_000_000_000;

/// No two instants lie more milliseconds apart than this.
pub const MAX_SPAN_MS: i64 = 400_000_000_000_000;

/// An instant in UTC: whole seconds since the Unix epoch and the nanoseconds
/// into that second.  Every value lies in the range that RFC 3339 can write.
#[derive(Clone, Copy, Debug, PartialEq, Eq, Structural)]
pub struct Timestamp {
    secs: i64,
    nanos: u32,
}

/// `a / b` rounded toward zero, for a positive `b`.
pub open spec fn trunc_div(a: int, b: int) -> int {
    if a >= 0 {
        a / b
    } else {
        -((-a) / b)
    }
}

/// `x` moved into `lo..=hi`.
pub open spec fn clamp(x: int, lo: int, hi: int) -> int {
    if x < lo {
        lo
    } else if x > hi {
        hi
    } else {
        x
    }
}

/// Whole milliseconds from the instant `start` to the instant `end`, both in
/// nanoseconds since the epoch, rounded toward zero.
pub open spec fn millis_between(start: int, end: int) -> int {
    trunc_div(end - start, 1_000_000)
}

impl View for Timestamp {
    type V = int;

    /// Nanoseconds since the Unix epoch.
    closed spec fn view(&self) -> int {
        self.secs * 1_000_000_000 + self.nanos
    }
}

impl Timestamp {
    #[verifier::type_invariant]
    spec fn in_range(self) -> bool {
        MIN_SECS <= self.secs <= MAX_SECS && self.nanos < NANOS_PER_SEC
    }

    /// The instant `secs` seconds and `nanos` nanoseconds after the epoch.
    /// Seconds outside the range are moved to its nearest end, and a
    /// nanosecond count of a full second or more (a leap second, as some
    /// clocks report it) counts as the last nanosecond of its second.
    pub fn from_parts(secs: i64, nanos: u32) -> (t: Timestamp)
        ensures
            t@ == clamp(secs as int, MIN_SECS as int, MAX_SECS as int) * 1_000_000_000 + clamp(
                nanos as int,
                0,
                999_999_999,
            ),
            t.spec_secs() == clamp(secs as int, MIN_SECS as int, MAX_SECS as int),
            t.spec_subsec_nanos() == clamp(nanos as int, 0, 999_999_999),
    {
        let s: i64 = if secs < MIN_SECS {
            MIN_SECS
        } else if secs > MAX_SECS {
            MAX_SECS
        } else {
            secs
        };
        let n: u32 = if nanos >= NANOS_PER_SEC {
            NANOS_PER_SEC - 1
        } else {
            nanos
        };
        Timestamp { secs: s, nanos: n }
    }

    pub closed spec fn spec_secs(&self) -> int {
        self.secs as int
    }

    pub closed spec fn spec_subsec_nanos(&self) -> int {
        self.nanos as int
    }

    /// Whole seconds since the epoch.
    pub fn secs(&self) -> (s: i64)
        ensures
            s == self.spec_secs(),
            MIN_SECS <= s <= MAX_SECS,
            self@ == s * 1_000_000_000 + self.spec_subsec_nanos(),
    {
        proof {
            use_type_invariant(self);
        }
        self.secs
    }

    /// Nanoseconds into the second.
    pub fn subsec_nanos(&self) -> (n: u32)
        ensures
            n == self.spec_subsec_nanos(),
            n < NANOS_PER_SEC,
    {
        proof {
            use_type_invariant(self);
        }
        self.nanos
    }

    /// True when `self` is not later than `other`.
    pub fn le(&self, other: &Timestamp) -> (b: bool)
        ensures
            b == (self@ <= other@),
    {
        proof {
            use_type_invariant(self);
            use_type_invariant(other);
        }
        self.secs < other.secs || (self.secs == other.secs && self.nanos <= other.nanos)
    }

    /// True when `self` is earlier than `other`.
    pub fn lt(&self, other: &Timestamp) -> (b: bool)
        ensures
            b == (self@ < other@),
    {
        proof {
            use_type_invariant(self);
            use_type_invariant(other);
        }
        self.secs < other.secs || (self.secs == other.secs && self.nanos < other.nanos)
    }

    /// Whole milliseconds from `self` to `later`, rounded toward zero;
    /// negative when `later` is the earlier of the two.
    pub fn millis_until(&self, later: &Timestamp) -> (ms: i64)
        ensures
            ms == millis_between(self@, later@),
            -MAX_SPAN_MS <= ms <= MAX_SPAN_MS,
    {
        proof {
            use_type_invariant(self);
            use_type_invariant(later);
        }
        let ds: i128 = later.secs as i128 - self.secs as i128;
        let dn: i128 = later.nanos as i128 - self.nanos as i128;
        let diff: i128 = ds * 1_000_000_000 + dn;
        assert(diff == later@ - self@);
        if diff >= 0 {
            let q: i128 = diff / 1_000_000;
            q as i64
        } else {
            let q: i128 = (-diff) / 1_000_000;
            (-q) as i64
        }
    }

    /// The instant `secs` seconds after `self`, held to the range.
    pub fn plus_seconds(&self, secs: i64) -> (t: Timestamp)
        ensures
            t.spec_secs() == clamp(self.spec_secs() + secs, MIN_SECS as int, MAX_SECS as int),
            t.spec_subsec_nanos() == self.spec_subsec_nanos(),
    {
        proof {
            use_type_invariant(self);
        }
        let s: i128 = self.secs as i128 + secs as i128;
        let c: i64 = if s < MIN_SECS as i128 {
            MIN_SECS
        } else if s > MAX_SECS as i128 {
            MAX_SECS
        } else {
            s as i64
        };
        Timestamp { secs: c, nanos: self.nanos }
    }
}

/// The text that RFC 3339 gives the instant `nanos` nanoseconds after the
/// epoch, as chrono writes it.
pub uninterp spec fn rfc3339_text(nanos: int) -> Seq<char>;

/// The instant that chrono reads from an RFC 3339 text, as seconds and
/// nanoseconds; `None` where the text is not RFC 3339.
pub uninterp spec fn rfc3339_parsed(text: Seq<char>) -> Option<(i64, u32)>;

/// The calendar day of an instant in UTC, written `YYYY-MM-DD`.
pub uninterp spec fn day_text(nanos: int) -> Seq<char>;

/// The hour of an instant in UTC, written `YYYY-MM-DDTHH:00`.
pub uninterp spec fn hour_text(nanos: int) -> Seq<char>;

/// `chrono::Utc::now`, as seconds since the epoch and nanoseconds into the
/// second.  Nothing is claimed of the reading.
#[verifier::external_body]
fn system_time() -> (r: (i64, u32)) {
    let t = chrono::Utc::now();
    (t.timestamp(), t.timestamp_subsec_nanos())
}

/// The current instant.
pub fn now() -> Timestamp {
    let (secs, nanos) = system_time();
    Timestamp::from_parts(secs, nanos)
}

/// `chrono::DateTime::to_rfc3339` on the instant built by
/// `DateTime::from_timestamp`: the result is the RFC 3339 text of `t`.
/// For an instant of a year with four digits, chrono writes the date, the
/// time with every nanosecond that is not zero, and the offset; its
/// `parse_from_rfc3339` reads the same instant back from that text.
#[verifier::external_body]
pub(crate) fn to_rfc3339(t: &Timestamp) -> (s: String)
    ensures
        s@ == rfc3339_text(t@),
        rfc3339_parsed(s@) == Some((t.spec_secs() as i64, t.spec_subsec_nanos() as u32)),
{
    chrono::DateTime::from_timestamp(t.secs, t.nanos).map(|d| d.to_rfc3339()).unwrap_or_default()
}

/// The RFC 3339 text of an instant, from which [`parse_rfc3339`] reads the
/// instant back.
pub fn rfc3339(t: &Timestamp) -> (s: String)
    ensures
        s@ == rfc3339_text(t@),
        rfc3339_parsed(s@) == Some((t.spec_secs() as i64, t.spec_subsec_nanos() as u32)),
{
    to_rfc3339(t)
}

/// `chrono::DateTime::parse_from_rfc3339`, read in UTC: the seconds and
/// nanoseconds of the instant that the text names.
#[verifier::external_body]
fn rfc3339_parts(text: &str) -> (r: Option<(i64, u32)>)
    ensures
        r == rfc3339_parsed(text@),
{
    chrono::DateTime::parse_from_rfc3339(text).ok().map(
        |d| (d.timestamp(), d.timestamp_subsec_nanos()),
    )
}

/// The instant that an RFC 3339 text names, held to the range of
/// [`Timestamp`]; `None` where the text is not RFC 3339.
pub fn parse_rfc3339(text: &str) -> (r: Option<Timestamp>)
    ensures
        match rfc3339_parsed(text@) {
            Some((secs, nanos)) => r.is_some() && r.unwrap().spec_secs() == clamp(
                secs as int,
                MIN_SECS as int,
                MAX_SECS as int,
            ) && r.unwrap().spec_subsec_nanos() == clamp(nanos as int, 0, 999_999_999),
            None => r.is_none(),
        },
{
    match rfc3339_parts(text) {
        Some((secs, nanos)) => Some(Timestamp::from_parts(secs, nanos)),
        None => None,
    }
}

/// The instant that an RFC 3339 text names; `None` where the text is not
/// RFC 3339, or names an instant outside the range of [`Timestamp`].
pub fn parse_rfc3339_exact(text: &str) -> (r: Option<Timestamp>)
    ensures
        match rfc3339_parsed(text@) {
            Some((secs, nanos)) => if MIN_SECS <= secs <= MAX_SECS && nanos < NANOS_PER_SEC {
                r.is_some() && r.unwrap().spec_secs() == secs && r.unwrap().spec_subsec_nanos()
                    == nanos
            } else {
                r.is_none()
            },
            None => r.is_none(),
        },
{
    match rfc3339_parts(text) {
        Some((secs, nanos)) => if MIN_SECS <= secs && secs <= MAX_SECS && nanos < NANOS_PER_SEC {
            Some(Timestamp::from_parts(secs, nanos))
        } else {
            None
        },
        None => None,
    }
}

/// `chrono`'s `format("%Y-%m-%d")` on the instant: its calendar day in UTC.
#[verifier::external_body]
pub(crate) fn day_key(t: &Timestamp) -> (s: String)
    ensures
        s@ == day_text(t@),
{
    chrono::DateTime::from_timestamp(t.secs, t.nanos).map(
        |d| d.format("%Y-%m-%d").to_string(),
    ).unwrap_or_default()
}

/// `chrono`'s `format("%Y-%m-%dT%H:00")` on the instant: its hour in UTC.
#[verifier::external_body]
pub(crate) fn hour_key(t: &Timestamp) -> (s: String)
    ensures
        s@ == hour_text(t@),
{
    chrono::DateTime::from_timestamp(t.secs, t.nanos).map(
        |d| d.format("%Y-%m-%dT%H:00").to_string(),
    ).unwrap_or_default()
}

} // verus!
