use vstd::prelude::*;

verus! {

/// Earliest instant the library handles: 0001-01-01T00:00:00Z, in seconds since the Unix epoch.
pub const MIN_INSTANT: i64 = -62135596800;

/// Latest instant the library handles: 9999-12-31T23:59:59Z.
pub const MAX_INSTANT: i64 = 253402300799;

pub open spec fn valid_instant(t: int) -> bool {
    MIN_INSTANT <= t <= MAX_INSTANT
}

/// Whether the IANA database bundled with chrono-tz holds a zone of this exact name.
pub uninterp spec fn is_iana_zone(name: Seq<char>) -> bool;

/// Seconds that the named zone is ahead of UTC at the given instant.
pub uninterp spec fn zone_offset(name: Seq<char>, utc: int) -> int;

/// The earliest instant whose wall-clock reading in the named zone is `local`, if any.
pub uninterp spec fn earliest_instant(name: Seq<char>, local: int) -> Option<int>;

/// The display form of an instant in the named zone: date, time and zone abbreviation.
pub uninterp spec fn rendering_of(name: Seq<char>, utc: int) -> Seq<char>;

/// Relies on chrono-tz's `FromStr for Tz`: an exact lookup of the name in its zone table.
#[verifier::external_body]
fn zone_is_known(name: &str) -> (r: bool)
    ensures
        r == is_iana_zone(name@),
{
    name.parse::<chrono_tz::Tz>().is_ok()
}

/// Relies on chrono-tz's `TimeZone::offset_from_utc_datetime` for `Tz`, read through
/// `FixedOffset::local_minus_utc`, which chrono keeps strictly within one day. The zone is
/// looked up by name as in `zone_is_known`, which succeeds on a name it accepted; chrono's
/// `DateTime::from_timestamp` accepts every instant of the supported range.
#[verifier::external_body]
pub(crate) fn offset_at(name: &str, utc: i64) -> (r: i32)
    requires
        is_iana_zone(name@),
        valid_instant(utc as int),
    ensures
        r == zone_offset(name@, utc as int),
        -86400 < r < 86400,
{
    let tz: chrono_tz::Tz = name.parse().unwrap();
    let at = chrono::DateTime::from_timestamp(utc, 0).unwrap().naive_utc();
    chrono::Offset::fix(&chrono::TimeZone::offset_from_utc_datetime(&tz, &at)).local_minus_utc()
}

/// Relies on chrono-tz's `TimeZone::from_local_datetime` for `Tz` and chrono's
/// `MappedLocalTime::earliest`: the instant it gives is `local` less the offset of the span that
/// holds `local`, so it reads as `local` in the zone; none is given where `local` falls in a
/// gap. The zone is looked up by name as in `zone_is_known`.
#[verifier::external_body]
pub(crate) fn earliest_at_local(name: &str, local: i64) -> (r: Option<i64>)
    requires
        is_iana_zone(name@),
        MIN_INSTANT - 86400 <= local <= MAX_INSTANT + 86400,
    ensures
        match r {
            Some(u) => earliest_instant(name@, local as int) == Some(u as int) && u
                + zone_offset(name@, u as int) == local,
            None => earliest_instant(name@, local as int) is None,
        },
{
    let tz: chrono_tz::Tz = name.parse().unwrap();
    let at = chrono::DateTime::from_timestamp(local, 0).unwrap().naive_utc();
    match chrono::TimeZone::from_local_datetime(&tz, &at).earliest() {
        Some(d) => Some(d.timestamp()),
        None => None,
    }
}

/// Relies on chrono's `Display` for `DateTime<Tz>`: `YYYY-MM-DD hh:mm:ss` and the zone's
/// abbreviation, for the instant converted with `DateTime::with_timezone`. The zone is looked
/// up by name as in `zone_is_known`. Neither the date and time nor an abbreviation of the
/// zone table holds a line break.
#[verifier::external_body]
pub(crate) fn render_at(name: &str, utc: i64) -> (r: String)
    requires
        is_iana_zone(name@),
        valid_instant(utc as int),
    ensures
        r@ == rendering_of(name@, utc as int),
        forall|i: int| 0 <= i < r@.len() ==> r@[i] != '\n',
{
    let tz: chrono_tz::Tz = name.parse().unwrap();
    chrono::DateTime::from_timestamp(utc, 0).unwrap().with_timezone(&tz).to_string()
}

/// The name of a timezone of the IANA database. Only a validated name is ever held.
pub struct TimezoneId {
    name: String,
}

impl View for TimezoneId {
    type V = Seq<char>;

    closed spec fn view(&self) -> Seq<char> {
        self.name@
    }
}

impl TimezoneId {
    #[verifier::type_invariant]
    spec fn known(&self) -> bool {
        is_iana_zone(self.name@)
    }

    /// Accepts exactly the names of the IANA database, as written there.
    pub fn parse(name: &str) -> (r: Option<TimezoneId>)
        ensures
            r is Some <==> is_iana_zone(name@),
            r matches Some(z) ==> z@ == name@,
    {
        if zone_is_known(name) {
            Some(TimezoneId { name: name.to_owned() })
        } else {
            None
        }
    }

    pub fn as_str(&self) -> (r: &str)
        ensures
            r@ == self@,
            is_iana_zone(r@),
    {
        proof {
            use_type_invariant(self);
        }
        self.name.as_str()
    }
}

impl Clone for TimezoneId {
    fn clone(&self) -> (r: TimezoneId)
        ensures
            r@ == self@,
    {
        proof {
            use_type_invariant(self);
        }
        TimezoneId { name: self.name.clone() }
    }
}

} // verus!
