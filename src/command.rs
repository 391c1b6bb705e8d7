use vstd::prelude::*;
use vstd::std_specs::iter::IteratorSpec;

use crate::zone::{is_iana_zone, TimezoneId};

verus! {

broadcast use {vstd::string::axiom_spec_iter, vstd::string::next_postcondition};

/// The command by which a user sets their own timezone.
pub const SET_TIMEZONE_COMMAND: &'static str = "~set_timezone ";

/// `pat` stands in `s` at `i`.
pub open spec fn occurs_at(s: Seq<char>, pat: Seq<char>, i: int) -> bool {
    0 <= i && i + pat.len() <= s.len() && s.subrange(i, i + pat.len()) == pat
}

/// `s` from `i` on with every occurrence of `pat` taken out, left to right and without
/// overlap.
pub open spec fn without_from(s: Seq<char>, pat: Seq<char>, i: int) -> Seq<char>
    decreases s.len() - i,
{
    if i < 0 || i >= s.len() {
        Seq::empty()
    } else if pat.len() > 0 && occurs_at(s, pat, i) {
        without_from(s, pat, i + pat.len())
    } else {
        seq![s[i]] + without_from(s, pat, i + 1)
    }
}

pub open spec fn without(s: Seq<char>, pat: Seq<char>) -> Seq<char> {
    without_from(s, pat, 0)
}

/// Relies on std's `String::push`: appends one char.
#[verifier::external_body]
fn push_char(s: &mut String, c: char)
    ensures
        final(s)@ == old(s)@.push(c),
{
    s.push(c)
}

fn chars_of(s: &str) -> (r: Vec<char>)
    ensures
        r@ == s@,
{
    let mut out: Vec<char> = Vec::new();
    let mut it = s.chars();
    loop
        invariant
            out@ + it.remaining() == s@,
        decreases s@.len() - out@.len(),
    {
        let ghost before = it.remaining();
        match it.next() {
            Some(c) => {
                out.push(c);
                assert(out@ + it.remaining() =~= s@) by {
                    assert(before =~= seq![c] + it.remaining());
                }
            },
            None => {
                assert(out@ =~= s@);
                return out;
            },
        }
    }
}

fn occurs_here(s: &Vec<char>, pat: &Vec<char>, i: usize) -> (r: bool)
    requires
        i <= s@.len(),
    ensures
        r == occurs_at(s@, pat@, i as int),
{
    if s.len() - i < pat.len() {
        return false;
    }
    let mut k: usize = 0;
    while k < pat.len()
        invariant
            i + pat@.len() <= s@.len(),
            s@.len() <= usize::MAX,
            k <= pat@.len(),
            forall|j: int| 0 <= j < k ==> s@[i + j] == pat@[j],
        decreases pat@.len() - k,
    {
        if s[i + k] != pat[k] {
            assert(s@.subrange(i as int, i + pat@.len())[k as int] != pat@[k as int]);
            return false;
        }
        k = k + 1;
    }
    assert(s@.subrange(i as int, i + pat@.len()) =~= pat@);
    true
}

/// `text` with every occurrence of `pat` removed, as `str::replace(pat, "")` does.
pub fn remove_all(text: &str, pat: &str) -> (r: String)
    ensures
        r@ == without(text@, pat@),
{
    let s = chars_of(text);
    let p = chars_of(pat);
    let mut out = String::new();
    let mut i: usize = 0;
    while i < s.len()
        invariant
            s@ == text@,
            p@ == pat@,
            i <= s@.len(),
            out@ + without_from(s@, p@, i as int) == without(s@, p@),
        decreases s@.len() - i,
    {
        if p.len() > 0 && occurs_here(&s, &p, i) {
            i = i + p.len();
        } else {
            let ghost before = out@;
            push_char(&mut out, s[i]);
            assert(out@ + without_from(s@, p@, i + 1) =~= before + without_from(s@, p@, i as int));
            i = i + 1;
        }
    }
    assert(out@ =~= out@ + without_from(s@, p@, i as int));
    out
}

/// The zone named in a `~set_timezone` command: the text with the command taken out wherever
/// it stands, when that is a known zone.
pub fn zone_from_set_command(content: &str) -> (r: Result<TimezoneId, String>)
    ensures
        r is Ok <==> is_iana_zone(without(content@, SET_TIMEZONE_COMMAND@)),
        r matches Ok(z) ==> z@ == without(content@, SET_TIMEZONE_COMMAND@),
        r matches Err(name) ==> name@ == without(content@, SET_TIMEZONE_COMMAND@),
{
    let name = remove_all(content, SET_TIMEZONE_COMMAND);
    match TimezoneId::parse(name.as_str()) {
        Some(z) => Ok(z),
        None => Err(name),
    }
}


/// A space, tab, line feed or carriage return: what separates the words of a command.
pub open spec fn is_separator(c: char) -> bool {
    c == ' ' || c == '\t' || c == '\n' || c == '\r'
}

/// The words of `s` from `i` on, `current` being the part of a word read before `i`.
pub open spec fn words_from(s: Seq<char>, i: int, current: Seq<char>) -> Seq<Seq<char>>
    decreases s.len() - i,
{
    if i < 0 || i >= s.len() {
        if current.len() > 0 {
            seq![current]
        } else {
            Seq::empty()
        }
    } else if is_separator(s[i]) {
        (if current.len() > 0 {
            seq![current]
        } else {
            Seq::empty()
        }) + words_from(s, i + 1, Seq::empty())
    } else {
        words_from(s, i + 1, current.push(s[i]))
    }
}

/// The words of `s`: its longest runs without a separator, in order.
pub open spec fn words_of(s: Seq<char>) -> Seq<Seq<char>> {
    words_from(s, 0, Seq::empty())
}

/// The first of `ws` from `i` on that names a zone of the IANA database.
pub open spec fn first_zone_from(ws: Seq<Seq<char>>, i: int) -> Option<Seq<char>>
    decreases ws.len() - i,
{
    if i < 0 || i >= ws.len() {
        None
    } else if is_iana_zone(ws[i]) {
        Some(ws[i])
    } else {
        first_zone_from(ws, i + 1)
    }
}

fn separator(c: char) -> (r: bool)
    ensures
        r == is_separator(c),
{
    c == ' ' || c == '\t' || c == '\n' || c == '\r'
}

/// The words of `content`, in order.
pub fn words(content: &str) -> (r: Vec<String>)
    ensures
        r@.map_values(|w: String| w@) == words_of(content@),
{
    let s = chars_of(content);
    let mut out: Vec<String> = Vec::new();
    let mut current = String::new();
    let mut i: usize = 0;
    while i < s.len()
        invariant
            s@ == content@,
            i <= s@.len(),
            out@.map_values(|w: String| w@) + words_from(s@, i as int, current@) == words_of(
                s@,
            ),
        decreases s@.len() - i,
    {
        let ghost before = out@.map_values(|w: String| w@);
        let ghost cur = current@;
        if separator(s[i]) {
            if !current.as_str().is_empty() {
                out.push(current);
                assert(out@.map_values(|w: String| w@) =~= before + seq![cur]);
            } else {
                assert(before + Seq::<Seq<char>>::empty() =~= before);
            }
            current = String::new();
            assert(out@.map_values(|w: String| w@) + words_from(s@, i + 1, current@) =~= before
                + words_from(s@, i as int, cur));
        } else {
            push_char(&mut current, s[i]);
        }
        i = i + 1;
    }
    if !current.as_str().is_empty() {
        let ghost before = out@.map_values(|w: String| w@);
        let ghost cur = current@;
        out.push(current);
        assert(out@.map_values(|w: String| w@) =~= before + seq![cur]);
    } else {
        assert(out@.map_values(|w: String| w@) + Seq::<Seq<char>>::empty() =~= out@.map_values(
            |w: String| w@,
        ));
    }
    out
}

/// Why a bot's timezone cannot be set from a command.
#[derive(PartialEq, Eq, Structural, Clone, Copy, Debug)]
pub enum BotZoneError {
    /// No word of the command names a zone of the IANA database.
    NoZoneNamed,
}

/// The zone that a command setting a bot's timezone names: its first word that is the name of
/// a zone of the IANA database.
pub fn zone_from_bot_command(content: &str) -> (r: Result<TimezoneId, BotZoneError>)
    ensures
        match first_zone_from(words_of(content@), 0) {
            Some(name) => r matches Ok(z) && z@ == name,
            None => r == Err::<TimezoneId, BotZoneError>(BotZoneError::NoZoneNamed),
        },
        r is Ok <==> exists|i: int|
            0 <= i < words_of(content@).len() && is_iana_zone(#[trigger] words_of(content@)[i]),
{
    let ws = words(content);
    let ghost wv = ws@.map_values(|w: String| w@);
    let mut i: usize = 0;
    while i < ws.len()
        invariant
            wv == ws@.map_values(|w: String| w@),
            wv == words_of(content@),
            i <= wv.len(),
            first_zone_from(wv, i as int) == first_zone_from(wv, 0),
            forall|j: int| 0 <= j < i ==> !is_iana_zone(#[trigger] wv[j]),
        decreases wv.len() - i,
    {
        assert(ws@[i as int]@ == wv[i as int]);
        match TimezoneId::parse(ws[i].as_str()) {
            Some(z) => {
                return Ok(z);
            },
            None => {},
        }
        i = i + 1;
    }
    Err(BotZoneError::NoZoneNamed)
}

} // verus!
