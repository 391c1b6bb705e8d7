use vstd::prelude::*;

use crate::matcher::{is_digit, mention_shape, MentionModel, RawTimeMention, opt_bytes};

verus! {

/// The meridiem tag of a mention.
#[derive(PartialEq, Eq, Structural, Clone, Copy, Debug)]
pub enum Meridiem {
    Am,
    Pm,
    Unspecified,
}

/// Why a mention does not give a clock time.
#[derive(PartialEq, Eq, Structural, Clone, Copy, Debug)]
pub enum ResolveError {
    /// An explicit `am` or `pm` follows an hour above 12.
    HourOutOfRangeForMeridiem,
    /// The resolved reading is no time of day: hour above 23 or minute above 59.
    NotATimeOfDay,
}

/// A time of day: hour in 0..=23, minute in 0..=59, and the meridiem it was written with.
#[derive(PartialEq, Eq, Structural, Clone, Copy, Debug)]
pub struct ResolvedTime {
    hour: u32,
    minute: u32,
    meridiem: Meridiem,
}

/// The value of a sequence of ASCII digits, read in base ten.
pub open spec fn digits_value(d: Seq<u8>) -> int
    decreases d.len(),
{
    if d.len() == 0 {
        0
    } else {
        digits_value(d.drop_last()) * 10 + (d.last() - 48)
    }
}

pub open spec fn meridiem_of(token: Option<Seq<u8>>) -> Meridiem {
    match token {
        Some(t) => if t =~= seq![97u8, 109u8] || t =~= seq![65u8, 77u8] {
            Meridiem::Am
        } else if t =~= seq![112u8, 109u8] || t =~= seq![80u8, 77u8] {
            Meridiem::Pm
        } else {
            Meridiem::Unspecified
        },
        None => Meridiem::Unspecified,
    }
}

/// The hour on the 24-hour clock: `pm` adds 12 to the hours 1 to 11, `12pm` is noon and
/// `12am` midnight.
pub open spec fn hour_24(hour: int, meridiem: Meridiem) -> int {
    match meridiem {
        Meridiem::Pm => if hour == 12 {
            12
        } else {
            hour + 12
        },
        Meridiem::Am => if hour == 12 {
            0
        } else {
            hour
        },
        Meridiem::Unspecified => hour,
    }
}

/// What a mention resolves to: an error where it is invalid, nothing where it is a bare number
/// without minutes or meridiem, and the time of day otherwise.
pub open spec fn resolution(m: MentionModel) -> Result<Option<(int, int, Meridiem)>, ResolveError> {
    let hour = digits_value(m.hour);
    let meridiem = meridiem_of(m.meridiem);
    if meridiem != Meridiem::Unspecified && hour > 12 {
        Err(ResolveError::HourOutOfRangeForMeridiem)
    } else if m.minute is None && meridiem == Meridiem::Unspecified {
        Ok(None)
    } else {
        let minute = match m.minute {
            Some(d) => digits_value(d),
            None => 0,
        };
        if hour_24(hour, meridiem) > 23 || minute > 59 {
            Err(ResolveError::NotATimeOfDay)
        } else {
            Ok(Some((hour_24(hour, meridiem), minute, meridiem)))
        }
    }
}

impl View for ResolvedTime {
    type V = (int, int, Meridiem);

    closed spec fn view(&self) -> (int, int, Meridiem) {
        (self.hour as int, self.minute as int, self.meridiem)
    }
}

pub open spec fn resolved_view(r: Result<Option<ResolvedTime>, ResolveError>) -> Result<
    Option<(int, int, Meridiem)>,
    ResolveError,
> {
    match r {
        Ok(Some(t)) => Ok(Some(t@)),
        Ok(None) => Ok(None),
        Err(e) => Err(e),
    }
}

impl ResolvedTime {
    #[verifier::type_invariant]
    spec fn time_of_day(&self) -> bool {
        self.hour <= 23 && self.minute <= 59
    }

    pub fn hour(&self) -> (r: u32)
        ensures
            r == self@.0,
            r <= 23,
    {
        proof {
            use_type_invariant(self);
        }
        self.hour
    }

    pub fn minute(&self) -> (r: u32)
        ensures
            r == self@.1,
            r <= 59,
    {
        proof {
            use_type_invariant(self);
        }
        self.minute
    }

    pub fn meridiem(&self) -> (r: Meridiem)
        ensures
            r == self@.2,
    {
        self.meridiem
    }
}

/// Reads one or two ASCII digits.
fn read_digits(d: &Vec<u8>) -> (r: u32)
    requires
        1 <= d@.len() <= 2,
        forall|i: int| 0 <= i < d@.len() ==> is_digit(#[trigger] d@[i]),
    ensures
        r == digits_value(d@),
        r <= 99,
{
    let first = (d[0] - 48) as u32;
    proof {
        reveal_with_fuel(digits_value, 3);
    }
    if d.len() == 1 {
        assert(d@.drop_last() =~= Seq::<u8>::empty());
        first
    } else {
        assert(d@.drop_last().drop_last() =~= Seq::<u8>::empty());
        assert(d@.drop_last() =~= seq![d@[0]]);
        first * 10 + (d[1] - 48) as u32
    }
}

fn read_meridiem(token: &Option<Vec<u8>>) -> (r: Meridiem)
    requires
        opt_bytes(*token) matches Some(t) ==> t.len() == 2,
    ensures
        r == meridiem_of(opt_bytes(*token)),
{
    match token {
        Some(t) => {
            let c0 = t[0];
            let c1 = t[1];
            if c0 == 97 && c1 == 109 || c0 == 65 && c1 == 77 {
                assert(t@ =~= seq![c0, c1]);
                Meridiem::Am
            } else if c0 == 112 && c1 == 109 || c0 == 80 && c1 == 77 {
                assert(t@ =~= seq![c0, c1]);
                Meridiem::Pm
            } else {
                assert(!(t@ =~= seq![97u8, 109u8]) && !(t@ =~= seq![65u8, 77u8]));
                assert(!(t@ =~= seq![112u8, 109u8]) && !(t@ =~= seq![80u8, 77u8]));
                Meridiem::Unspecified
            }
        },
        None => Meridiem::Unspecified,
    }
}

/// Resolves one mention on its own: a failure concerns that mention only.
pub fn resolve(m: &RawTimeMention) -> (r: Result<Option<ResolvedTime>, ResolveError>)
    ensures
        resolved_view(r) == resolution(m@),
{
    let hour_digits = m.hour_digits();
    let minute_digits = m.minute_digits();
    let token = m.meridiem();
    let hour = read_digits(hour_digits);
    let meridiem = read_meridiem(token);
    if meridiem != Meridiem::Unspecified && hour > 12 {
        return Err(ResolveError::HourOutOfRangeForMeridiem);
    }
    let minute: u32 = match minute_digits {
        Some(d) => read_digits(d),
        None => {
            if meridiem == Meridiem::Unspecified {
                return Ok(None);
            }
            0
        },
    };
    let hour24: u32 = match meridiem {
        Meridiem::Pm => if hour == 12 {
            12
        } else {
            hour + 12
        },
        Meridiem::Am => if hour == 12 {
            0
        } else {
            hour
        },
        Meridiem::Unspecified => hour,
    };
    if hour24 > 23 || minute > 59 {
        Err(ResolveError::NotATimeOfDay)
    } else {
        Ok(Some(ResolvedTime { hour: hour24, minute, meridiem }))
    }
}

/// With `am` or `pm` written after it, an hour from 1 to 12 always resolves (where its minutes,
/// if written, are at most 59), and an hour from 13 on is always refused.
pub proof fn lemma_meridiem_hour_bounds(m: MentionModel)
    requires
        mention_shape(m),
        meridiem_of(m.meridiem) != Meridiem::Unspecified,
    ensures
        1 <= digits_value(m.hour) <= 12 && (m.minute matches Some(d) ==> digits_value(d) <= 59)
            ==> resolution(m) matches Ok(Some(_)),
        digits_value(m.hour) >= 13 ==> resolution(m) == Err::<Option<(int, int, Meridiem)>, ResolveError>(
            ResolveError::HourOutOfRangeForMeridiem,
        ),
{
}

} // verus!
