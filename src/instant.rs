use vstd::prelude::*;

use crate::resolver::ResolvedTime;
use crate::zone::{
    earliest_at_local, earliest_instant, is_iana_zone, offset_at, render_at, rendering_of,
    valid_instant, zone_offset, TimezoneId, MAX_INSTANT, MIN_INSTANT,
};

verus! {

pub const SECONDS_PER_DAY: i64 = 86400;

/// An absolute instant together with the zone it is read in and its wall-clock reading there,
/// both in seconds since the Unix epoch.
pub struct InstantModel {
    pub utc: int,
    pub local: int,
    pub zone: Seq<char>,
}

/// The wall-clock reading is the instant shifted by the zone's offset at that instant.
pub open spec fn consistent(a: InstantModel) -> bool {
    &&& valid_instant(a.utc)
    &&& is_iana_zone(a.zone)
    &&& a.local == a.utc + zone_offset(a.zone, a.utc)
}

/// The wall-clock reading of the start of the local day that holds `local`.
pub open spec fn start_of_day(local: int) -> int {
    local - local % (SECONDS_PER_DAY as int)
}

/// The wall-clock reading of `hour:minute` on today's date in `zone`, today being the local
/// date there at instant `now`.
pub open spec fn anchor_reading(zone: Seq<char>, now: int, hour: int, minute: int) -> int {
    start_of_day(now + zone_offset(zone, now)) + hour * 3600 + minute * 60
}

/// The instant that reads `hour:minute` today in `zone`; the earliest one where the clock was
/// turned back, none where it was turned forward past that reading.
pub open spec fn anchored(zone: Seq<char>, now: int, hour: int, minute: int) -> Option<
    InstantModel,
> {
    let local = anchor_reading(zone, now, hour, minute);
    match earliest_instant(zone, local) {
        Some(u) => if valid_instant(u) {
            Some(InstantModel { utc: u, local, zone })
        } else {
            None
        },
        None => None,
    }
}

/// The same instant, read in `target`.
pub open spec fn projected(a: InstantModel, target: Seq<char>) -> InstantModel {
    InstantModel { utc: a.utc, local: a.utc + zone_offset(target, a.utc), zone: target }
}

/// A time of day anchored to a date in a timezone.
pub struct AnchoredInstant {
    utc: i64,
    local: i64,
    zone: TimezoneId,
}

impl View for AnchoredInstant {
    type V = InstantModel;

    closed spec fn view(&self) -> InstantModel {
        InstantModel { utc: self.utc as int, local: self.local as int, zone: self.zone@ }
    }
}

pub open spec fn anchored_view(r: Option<AnchoredInstant>) -> Option<InstantModel> {
    match r {
        Some(a) => Some(a@),
        None => None,
    }
}

impl AnchoredInstant {
    #[verifier::type_invariant]
    spec fn reading_matches(&self) -> bool {
        consistent(self@)
    }

    /// Seconds since the Unix epoch.
    pub fn utc_seconds(&self) -> (r: i64)
        ensures
            r == self@.utc,
            consistent(self@),
    {
        proof {
            use_type_invariant(self);
        }
        self.utc
    }

    /// The wall-clock reading in the instant's own zone, as seconds since the epoch.
    pub fn local_seconds(&self) -> (r: i64)
        ensures
            r == self@.local,
            consistent(self@),
    {
        proof {
            use_type_invariant(self);
        }
        self.local
    }

    pub fn zone(&self) -> (r: &TimezoneId)
        ensures
            r@ == self@.zone,
    {
        &self.zone
    }

    /// The same absolute instant read in `target`.
    pub fn project(&self, target: &TimezoneId) -> (r: AnchoredInstant)
        ensures
            r@ == projected(self@, target@),
            consistent(r@),
    {
        proof {
            use_type_invariant(self);
        }
        let name = target.as_str();
        let offset = offset_at(name, self.utc);
        AnchoredInstant { utc: self.utc, local: self.utc + offset as i64, zone: target.clone() }
    }

    /// The instant rendered in its own zone.
    pub fn render(&self) -> (r: String)
        ensures
            r@ == rendering_of(self@.zone, self@.utc),
            forall|i: int| 0 <= i < r@.len() ==> r@[i] != '\n',
    {
        proof {
            use_type_invariant(self);
        }
        render_at(self.zone.as_str(), self.utc)
    }
}

/// Anchors a time of day to today's date in `zone`, "today" being the date there at `now_utc`.
/// Nothing comes back where the zone skips that reading today.
pub fn anchor(time: &ResolvedTime, zone: &TimezoneId, now_utc: i64) -> (r: Option<AnchoredInstant>)
    requires
        valid_instant(now_utc as int),
    ensures
        anchored_view(r) == anchored(zone@, now_utc as int, time@.0, time@.1),
        r matches Some(a) ==> consistent(a@),
{
    let name = zone.as_str();
    let hour = time.hour();
    let minute = time.minute();
    let offset = offset_at(name, now_utc);
    let reading: i64 = now_utc + offset as i64;
    // shifted by whole days onto non-negative values, where `%` needs no care with signs
    let shift: i64 = SECONDS_PER_DAY * 800000;
    let into_day: i64 = ((reading + shift) as u64 % 86400u64) as i64;
    proof {
        vstd::arithmetic::div_mod::lemma_mod_multiples_vanish(800000, reading as int, 86400);
        assert((SECONDS_PER_DAY * 800000) as int == 86400 * 800000);
    }
    let local: i64 = reading - into_day + hour as i64 * 3600 + minute as i64 * 60;
    assert(local == anchor_reading(zone@, now_utc as int, hour as int, minute as int));
    match earliest_at_local(name, local) {
        Some(u) => {
            if MIN_INSTANT <= u && u <= MAX_INSTANT {
                Some(AnchoredInstant { utc: u, local, zone: zone.clone() })
            } else {
                None
            }
        },
        None => None,
    }
}

/// Reading an anchored instant in its own zone changes nothing: same instant, same reading.
pub proof fn lemma_projection_to_own_zone(a: InstantModel)
    requires
        consistent(a),
    ensures
        projected(a, a.zone) == a,
{
}

/// Reading an instant in another zone and then back in its own gives the instant and its
/// reading back.
pub proof fn lemma_projection_round_trip(a: InstantModel, other: Seq<char>)
    requires
        consistent(a),
    ensures
        projected(projected(a, other), a.zone) == a,
        projected(a, other).utc == a.utc,
{
}

/// The reading an instant is anchored at falls on a day boundary plus the time of day.
pub proof fn lemma_anchor_reading_time_of_day(zone: Seq<char>, now: int, hour: int, minute: int)
    requires
        0 <= hour <= 23,
        0 <= minute <= 59,
    ensures
        anchor_reading(zone, now, hour, minute) % 86400 == hour * 3600 + minute * 60,
{
    let x = now + zone_offset(zone, now);
    let t = hour * 3600 + minute * 60;
    assert(0 <= t < 86400) by (nonlinear_arith)
        requires
            0 <= hour <= 23,
            0 <= minute <= 59,
            t == hour * 3600 + minute * 60,
    ;
    vstd::arithmetic::div_mod::lemma_fundamental_div_mod(x, 86400);
    let q = x / 86400;
    assert(start_of_day(x) == 86400 * q);
    vstd::arithmetic::div_mod::lemma_mod_multiples_vanish(q, t, 86400);
    vstd::arithmetic::div_mod::lemma_small_mod(t as nat, 86400);
}

} // verus!
