use vstd::prelude::*;
use vstd::string::StringSliceAdditionalSpecFns;

verus! {

/// An ASCII decimal digit.
pub open spec fn is_digit(c: u8) -> bool {
    48 <= c && c <= 57
}

/// One of the four meridiem tokens `am`, `pm`, `AM`, `PM`.
pub open spec fn is_meridiem_token(t: Seq<u8>) -> bool {
    t =~= seq![97u8, 109u8] || t =~= seq![112u8, 109u8] || t =~= seq![65u8, 77u8] || t
        =~= seq![80u8, 77u8]
}

/// What the matcher reports of one mention, as plain sequences of bytes.
pub struct MentionModel {
    pub start: int,
    pub end: int,
    pub hour: Seq<u8>,
    pub minute: Option<Seq<u8>>,
    pub meridiem: Option<Seq<u8>>,
}

/// End of the hour group of a mention that starts at `p`: two digits where there are two.
pub open spec fn hour_end(b: Seq<u8>, p: int) -> int {
    if p + 1 < b.len() && is_digit(b[p + 1]) {
        p + 2
    } else {
        p + 1
    }
}

/// A `.` or `:` followed by exactly two digits stands at `h`.
pub open spec fn has_minutes(b: Seq<u8>, h: int) -> bool {
    h + 3 <= b.len() && (b[h] == 46 || b[h] == 58) && is_digit(b[h + 1]) && is_digit(b[h + 2])
}

pub open spec fn minutes_end(b: Seq<u8>, p: int) -> int {
    if has_minutes(b, hour_end(b, p)) {
        hour_end(b, p) + 3
    } else {
        hour_end(b, p)
    }
}

/// End of the optional single space that may precede the meridiem.
pub open spec fn space_end(b: Seq<u8>, p: int) -> int {
    let m = minutes_end(b, p);
    if m < b.len() && b[m] == 32 {
        m + 1
    } else {
        m
    }
}

pub open spec fn has_meridiem(b: Seq<u8>, s: int) -> bool {
    s + 2 <= b.len() && is_meridiem_token(b.subrange(s, s + 2))
}

/// The greedy match of the time grammar at position `p`, where a digit stands.
pub open spec fn match_at(b: Seq<u8>, p: int) -> MentionModel {
    let h = hour_end(b, p);
    let m = minutes_end(b, p);
    let s = space_end(b, p);
    MentionModel {
        start: p,
        end: if has_meridiem(b, s) {
            s + 2
        } else {
            s
        },
        hour: b.subrange(p, h),
        minute: if has_minutes(b, h) {
            Some(b.subrange(h + 1, h + 3))
        } else {
            None
        },
        meridiem: if has_meridiem(b, s) {
            Some(b.subrange(s, s + 2))
        } else {
            None
        },
    }
}

/// The mentions found from position `pos` on, left to right and without overlap: each search
/// resumes where the previous mention ended.
pub open spec fn scan(b: Seq<u8>, pos: int) -> Seq<MentionModel>
    decreases b.len() - pos,
{
    if pos < 0 || pos >= b.len() {
        Seq::empty()
    } else if is_digit(b[pos]) {
        seq![match_at(b, pos)] + scan(b, match_at(b, pos).end)
    } else {
        scan(b, pos + 1)
    }
}

/// All mentions in a text given as its UTF-8 bytes.
pub open spec fn mentions_of(b: Seq<u8>) -> Seq<MentionModel> {
    scan(b, 0)
}


/// A time mention found in a text: the hour digits, the optional minute digits and the
/// optional meridiem token, with the byte offsets of the whole match.
pub struct RawTimeMention {
    start: usize,
    end: usize,
    hour_digits: Vec<u8>,
    minute_digits: Option<Vec<u8>>,
    meridiem: Option<Vec<u8>>,
}

pub open spec fn opt_bytes(o: Option<Vec<u8>>) -> Option<Seq<u8>> {
    match o {
        Some(v) => Some(v@),
        None => None,
    }
}

/// The shape that the grammar gives every mention.
pub open spec fn mention_shape(m: MentionModel) -> bool {
    &&& 1 <= m.hour.len() <= 2
    &&& forall|i: int| 0 <= i < m.hour.len() ==> is_digit(#[trigger] m.hour[i])
    &&& m.minute matches Some(d) ==> d.len() == 2 && is_digit(d[0]) && is_digit(d[1])
    &&& m.meridiem matches Some(t) ==> is_meridiem_token(t)
    &&& 0 <= m.start < m.end
}

impl View for RawTimeMention {
    type V = MentionModel;

    closed spec fn view(&self) -> MentionModel {
        MentionModel {
            start: self.start as int,
            end: self.end as int,
            hour: self.hour_digits@,
            minute: opt_bytes(self.minute_digits),
            meridiem: opt_bytes(self.meridiem),
        }
    }
}

impl RawTimeMention {
    #[verifier::type_invariant]
    spec fn well_shaped(&self) -> bool {
        mention_shape(self@)
    }

    /// Byte offset where the mention starts.
    pub fn start(&self) -> (r: usize)
        ensures
            r == self@.start,
    {
        self.start
    }

    /// Byte offset just past the mention.
    pub fn end(&self) -> (r: usize)
        ensures
            r == self@.end,
    {
        self.end
    }

    pub fn hour_digits(&self) -> (r: &Vec<u8>)
        ensures
            r@ == self@.hour,
            mention_shape(self@),
    {
        proof {
            use_type_invariant(self);
        }
        &self.hour_digits
    }

    pub fn minute_digits(&self) -> (r: &Option<Vec<u8>>)
        ensures
            opt_bytes(*r) == self@.minute,
            mention_shape(self@),
    {
        proof {
            use_type_invariant(self);
        }
        &self.minute_digits
    }

    pub fn meridiem(&self) -> (r: &Option<Vec<u8>>)
        ensures
            opt_bytes(*r) == self@.meridiem,
            mention_shape(self@),
    {
        proof {
            use_type_invariant(self);
        }
        &self.meridiem
    }
}

fn is_digit_byte(c: u8) -> (r: bool)
    ensures
        r == is_digit(c),
{
    48 <= c && c <= 57
}

fn copy_range(b: &[u8], from: usize, to: usize) -> (r: Vec<u8>)
    requires
        from <= to <= b@.len(),
    ensures
        r@ == b@.subrange(from as int, to as int),
{
    let mut out: Vec<u8> = Vec::new();
    let mut i: usize = from;
    while i < to
        invariant
            from <= i <= to <= b@.len(),
            out@ == b@.subrange(from as int, i as int),
        decreases to - i,
    {
        out.push(b[i]);
        i = i + 1;
        assert(out@ =~= b@.subrange(from as int, i as int));
    }
    out
}

fn meridiem_token_at(b: &[u8], s: usize) -> (r: bool)
    ensures
        r == has_meridiem(b@, s as int),
{
    if s < b.len() && b.len() - s >= 2 {
        let c0 = b[s];
        let c1 = b[s + 1];
        let r = (c0 == 97 || c0 == 112) && c1 == 109 || (c0 == 65 || c0 == 80) && c1 == 77;
        let ghost t = b@.subrange(s as int, s + 2);
        assert(t[0] == c0 && t[1] == c1);
        assert(r == is_meridiem_token(t)) by {
            if r {
                if c0 == 97 {
                    assert(t =~= seq![97u8, 109u8]);
                } else if c0 == 112 {
                    assert(t =~= seq![112u8, 109u8]);
                } else if c0 == 65 {
                    assert(t =~= seq![65u8, 77u8]);
                } else {
                    assert(t =~= seq![80u8, 77u8]);
                }
            }
        }
        r
    } else {
        false
    }
}

/// The greedy match at `p`: at most two hour digits, then `.dd` or `:dd`, then one space,
/// then a meridiem token, each taken where it stands.
fn match_here(b: &[u8], p: usize) -> (r: RawTimeMention)
    requires
        p < b@.len(),
        is_digit(b@[p as int]),
    ensures
        r@ == match_at(b@, p as int),
{
    let len = b.len();
    let h: usize = if p + 1 < len && is_digit_byte(b[p + 1]) {
        p + 2
    } else {
        p + 1
    };
    let minutes = h < len && len - h >= 3 && (b[h] == 46 || b[h] == 58) && is_digit_byte(b[h + 1])
        && is_digit_byte(b[h + 2]);
    let m: usize = if minutes {
        h + 3
    } else {
        h
    };
    let s: usize = if m < len && b[m] == 32 {
        m + 1
    } else {
        m
    };
    let mer = meridiem_token_at(b, s);
    let end: usize = if mer {
        s + 2
    } else {
        s
    };
    let hour_digits = copy_range(b, p, h);
    let minute_digits = if minutes {
        Some(copy_range(b, h + 1, h + 3))
    } else {
        None
    };
    let meridiem = if mer {
        Some(copy_range(b, s, s + 2))
    } else {
        None
    };
    let r = RawTimeMention { start: p, end, hour_digits, minute_digits, meridiem };
    assert(r@ == match_at(b@, p as int));
    r
}

/// Every mention of a clock time in `text`, in order of appearance and without overlap.
/// A bare number is a mention too: the grammar over-matches on purpose.
pub fn find_mentions(text: &str) -> (r: Vec<RawTimeMention>)
    ensures
        r@.map_values(|m: RawTimeMention| m@) == mentions_of(text.spec_bytes()),
{
    let b = text.as_bytes();
    let mut out: Vec<RawTimeMention> = Vec::new();
    let mut pos: usize = 0;
    while pos < b.len()
        invariant
            b@ == text.spec_bytes(),
            pos <= b@.len(),
            out@.map_values(|m: RawTimeMention| m@) + scan(b@, pos as int) == scan(b@, 0),
        decreases b@.len() - pos,
    {
        if is_digit_byte(b[pos]) {
            let m = match_here(b, pos);
            let ghost before = out@.map_values(|m: RawTimeMention| m@);
            let next = m.end;
            out.push(m);
            assert(out@.map_values(|m: RawTimeMention| m@) =~= before + seq![match_at(b@, pos as int)]);
            assert(scan(b@, pos as int) == seq![match_at(b@, pos as int)] + scan(b@, next as int));
            pos = next;
        } else {
            pos = pos + 1;
        }
    }
    out
}

/// A text without a single ASCII digit holds no mention.
pub proof fn lemma_no_digits_no_mentions(b: Seq<u8>)
    requires
        forall|i: int| 0 <= i < b.len() ==> !is_digit(#[trigger] b[i]),
    ensures
        mentions_of(b) == Seq::<MentionModel>::empty(),
{
    lemma_scan_without_digits(b, 0);
}

proof fn lemma_scan_without_digits(b: Seq<u8>, pos: int)
    requires
        forall|i: int| 0 <= i < b.len() ==> !is_digit(#[trigger] b[i]),
    ensures
        scan(b, pos) == Seq::<MentionModel>::empty(),
    decreases b.len() - pos,
{
    if 0 <= pos < b.len() {
        lemma_scan_without_digits(b, pos + 1);
    }
}

} // verus!
