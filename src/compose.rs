use vstd::prelude::*;

verus! {

/// The two renderings of one mention: in the sender's zone and in the viewer's.
pub struct TranslationResult {
    pub sender_local: String,
    pub viewer_local: String,
}

impl View for TranslationResult {
    type V = (Seq<char>, Seq<char>);

    open spec fn view(&self) -> (Seq<char>, Seq<char>) {
        (self.sender_local@, self.viewer_local@)
    }
}

/// The line that reports one translated mention.
pub open spec fn line_of(t: (Seq<char>, Seq<char>)) -> Seq<char> {
    "The time `"@ + t.0 + "` was mentioned – in your timezone this is `"@ + t.1 + "`."@
}

/// The lines joined with a newline between each two.
pub open spec fn joined(lines: Seq<Seq<char>>) -> Seq<char>
    decreases lines.len(),
{
    if lines.len() == 0 {
        Seq::empty()
    } else if lines.len() == 1 {
        lines[0]
    } else {
        joined(lines.drop_last()) + "\n"@ + lines.last()
    }
}

/// The message body for a sequence of translations: one line each, in order.
pub open spec fn body_of(ts: Seq<(Seq<char>, Seq<char>)>) -> Seq<char> {
    joined(ts.map_values(|t: (Seq<char>, Seq<char>)| line_of(t)))
}

pub open spec fn newlines(s: Seq<char>) -> nat
    decreases s.len(),
{
    if s.len() == 0 {
        0
    } else {
        newlines(s.drop_last()) + if s.last() == '\n' {
            1nat
        } else {
            0nat
        }
    }
}

pub open spec fn has_no_newline(s: Seq<char>) -> bool {
    forall|i: int| 0 <= i < s.len() ==> s[i] != '\n'
}

pub open spec fn results_view(ts: Seq<TranslationResult>) -> Seq<(Seq<char>, Seq<char>)> {
    ts.map_values(|t: TranslationResult| t@)
}

/// Joins the translations of one message into its body, one line per translation in the
/// order given; no translation gives an empty body.
pub fn compose(results: &Vec<TranslationResult>) -> (r: String)
    ensures
        r@ == body_of(results_view(results@)),
{
    let mut out = String::new();
    let mut i: usize = 0;
    while i < results.len()
        invariant
            i <= results@.len(),
            out@ == body_of(results_view(results@).take(i as int)),
        decreases results@.len() - i,
    {
        let ghost before = results_view(results@).take(i as int);
        let ghost after = results_view(results@).take(i + 1);
        assert(after.drop_last() =~= before);
        assert(after.map_values(|t: (Seq<char>, Seq<char>)| line_of(t)).drop_last()
            =~= before.map_values(|t: (Seq<char>, Seq<char>)| line_of(t)));
        if i > 0 {
            out.append("\n");
        }
        out.append("The time `");
        out.append(results[i].sender_local.as_str());
        out.append("` was mentioned – in your timezone this is `");
        out.append(results[i].viewer_local.as_str());
        out.append("`.");
        proof {
            if i == 0 {
                assert(before.len() == 0);
            }
        }
        assert(out@ =~= body_of(after));
        i = i + 1;
    }
    assert(results_view(results@).take(results@.len() as int) =~= results_view(results@));
    out
}

proof fn lemma_newlines_concat(a: Seq<char>, b: Seq<char>)
    ensures
        newlines(a + b) == newlines(a) + newlines(b),
    decreases b.len(),
{
    if b.len() == 0 {
        assert(a + b =~= a);
    } else {
        assert((a + b).drop_last() =~= a + b.drop_last());
        lemma_newlines_concat(a, b.drop_last());
    }
}

proof fn lemma_no_newline_count(s: Seq<char>)
    requires
        has_no_newline(s),
    ensures
        newlines(s) == 0,
    decreases s.len(),
{
    if s.len() > 0 {
        lemma_no_newline_count(s.drop_last());
    }
}

proof fn lemma_line_has_no_newline(t: (Seq<char>, Seq<char>))
    requires
        has_no_newline(t.0),
        has_no_newline(t.1),
    ensures
        newlines(line_of(t)) == 0,
{
    reveal_strlit("The time `");
    reveal_strlit("` was mentioned – in your timezone this is `");
    reveal_strlit("`.");
    lemma_no_newline_count("The time `"@);
    lemma_no_newline_count("` was mentioned – in your timezone this is `"@);
    lemma_no_newline_count("`."@);
    lemma_no_newline_count(t.0);
    lemma_no_newline_count(t.1);
    lemma_newlines_concat("The time `"@, t.0);
    lemma_newlines_concat("The time `"@ + t.0, "` was mentioned – in your timezone this is `"@);
    lemma_newlines_concat("The time `"@ + t.0 + "` was mentioned – in your timezone this is `"@, t.1);
    lemma_newlines_concat(
        "The time `"@ + t.0 + "` was mentioned – in your timezone this is `"@ + t.1,
        "`."@,
    );
}

/// No translation gives an empty body; `n` translations whose renderings hold no newline give
/// a body of exactly `n` lines, the `i`-th of which reports the `i`-th translation.
pub proof fn lemma_body_lines(ts: Seq<(Seq<char>, Seq<char>)>)
    requires
        forall|i: int| 0 <= i < ts.len() ==> has_no_newline(#[trigger] ts[i].0) && has_no_newline(
            ts[i].1,
        ),
    ensures
        ts.len() == 0 ==> body_of(ts) == Seq::<char>::empty(),
        ts.len() > 0 ==> newlines(body_of(ts)) + 1 == ts.len(),
        body_of(ts) == joined(ts.map_values(|t: (Seq<char>, Seq<char>)| line_of(t))),
    decreases ts.len(),
{
    if ts.len() > 1 {
        let init = ts.drop_last();
        lemma_body_lines(init);
        assert(ts.map_values(|t: (Seq<char>, Seq<char>)| line_of(t)).drop_last() =~= init.map_values(
            |t: (Seq<char>, Seq<char>)| line_of(t),
        ));
        reveal_strlit("\n");
        lemma_newlines_concat(body_of(init), "\n"@);
        lemma_line_has_no_newline(ts.last());
        lemma_newlines_concat(body_of(init) + "\n"@, line_of(ts.last()));
        assert(newlines("\n"@) == 1) by {
            reveal_strlit("\n");
            reveal_with_fuel(newlines, 2);
            assert("\n"@.drop_last() =~= Seq::<char>::empty());
        }
    } else if ts.len() == 1 {
        lemma_line_has_no_newline(ts[0]);
    }
}

} // verus!
