use vstd::prelude::*;
use vstd::string::StringSliceAdditionalSpecFns;

use crate::compose::{
    body_of, compose, has_no_newline, lemma_body_lines, newlines, results_view, TranslationResult,
};
use crate::instant::{anchor, anchored, AnchoredInstant};
use crate::matcher::{find_mentions, mentions_of, MentionModel, RawTimeMention};
use crate::resolver::{resolution, resolve};
use crate::zone::{rendering_of, valid_instant, TimezoneId};

verus! {

/// The renderings of one mention, when it resolves and anchors to an instant.
pub open spec fn mention_translation(
    m: MentionModel,
    sender: Seq<char>,
    viewer: Seq<char>,
    now: int,
) -> Option<(Seq<char>, Seq<char>)> {
    match resolution(m) {
        Ok(Some(t)) => match anchored(sender, now, t.0, t.1) {
            Some(a) => Some((rendering_of(sender, a.utc), rendering_of(viewer, a.utc))),
            None => None,
        },
        _ => None,
    }
}

/// The translations of the mentions in order; a mention that gives none is left out and the
/// others stand.
pub open spec fn translations(
    ms: Seq<MentionModel>,
    sender: Seq<char>,
    viewer: Seq<char>,
    now: int,
) -> Seq<(Seq<char>, Seq<char>)>
    decreases ms.len(),
{
    if ms.len() == 0 {
        Seq::empty()
    } else {
        let init = translations(ms.drop_last(), sender, viewer, now);
        match mention_translation(ms.last(), sender, viewer, now) {
            Some(t) => init.push(t),
            None => init,
        }
    }
}

/// The translations of every mention in a text, given as its UTF-8 bytes.
pub open spec fn message_translations(
    text: Seq<u8>,
    sender: Seq<char>,
    viewer: Seq<char>,
    now: int,
) -> Seq<(Seq<char>, Seq<char>)> {
    translations(mentions_of(text), sender, viewer, now)
}

/// No rendering in the translations holds a line break.
pub open spec fn single_lines(ts: Seq<(Seq<char>, Seq<char>)>) -> bool {
    forall|i: int| 0 <= i < ts.len() ==> has_no_newline((#[trigger] ts[i]).0) && has_no_newline(ts[i].1)
}

/// Renders an anchored instant in its own zone and in the viewer's.
pub fn translate(a: &AnchoredInstant, viewer: &TimezoneId) -> (r: TranslationResult)
    ensures
        r@ == (rendering_of(a@.zone, a@.utc), rendering_of(viewer@, a@.utc)),
        has_no_newline(r@.0) && has_no_newline(r@.1),
{
    let sender_local = a.render();
    let viewer_local = a.project(viewer).render();
    TranslationResult { sender_local, viewer_local }
}

/// Translates one mention from the sender's zone to the viewer's, today being the date in the
/// sender's zone at `now_utc`.
pub fn translate_mention(
    m: &RawTimeMention,
    sender: &TimezoneId,
    viewer: &TimezoneId,
    now_utc: i64,
) -> (r: Option<TranslationResult>)
    requires
        valid_instant(now_utc as int),
    ensures
        match r {
            Some(t) => mention_translation(m@, sender@, viewer@, now_utc as int) == Some(t@)
                && has_no_newline(t@.0) && has_no_newline(t@.1),
            None => mention_translation(m@, sender@, viewer@, now_utc as int) is None,
        },
{
    match resolve(m) {
        Ok(Some(time)) => match anchor(&time, sender, now_utc) {
            Some(a) => Some(translate(&a, viewer)),
            None => None,
        },
        _ => None,
    }
}

/// Translates every mention of a message from the sender's zone to the viewer's, in order.
pub fn translate_message(
    text: &str,
    sender: &TimezoneId,
    viewer: &TimezoneId,
    now_utc: i64,
) -> (r: Vec<TranslationResult>)
    requires
        valid_instant(now_utc as int),
    ensures
        results_view(r@) == message_translations(
            text.spec_bytes(),
            sender@,
            viewer@,
            now_utc as int,
        ),
        single_lines(results_view(r@)),
{
    let mentions = find_mentions(text);
    let ghost ms = mentions@.map_values(|m: RawTimeMention| m@);
    let mut out: Vec<TranslationResult> = Vec::new();
    let mut i: usize = 0;
    while i < mentions.len()
        invariant
            i <= mentions@.len(),
            ms == mentions@.map_values(|m: RawTimeMention| m@),
            ms == mentions_of(text.spec_bytes()),
            valid_instant(now_utc as int),
            results_view(out@) == translations(ms.take(i as int), sender@, viewer@, now_utc as int),
            single_lines(results_view(out@)),
        decreases mentions@.len() - i,
    {
        assert(ms.take(i + 1).drop_last() =~= ms.take(i as int));
        let ghost before = out@;
        match translate_mention(&mentions[i], sender, viewer, now_utc) {
            Some(t) => {
                let ghost tv = t@;
                out.push(t);
                assert(results_view(out@) =~= results_view(before).push(t@));
                assert(single_lines(results_view(out@))) by {
                    let ts = results_view(out@);
                    assert forall|j: int| 0 <= j < ts.len() implies has_no_newline(
                        (#[trigger] ts[j]).0,
                    ) && has_no_newline(ts[j].1) by {
                        if j < before.len() {
                            assert(ts[j] == results_view(before)[j]);
                        } else {
                            assert(ts[j] == tv);
                        }
                    }
                }
            },
            None => {},
        }
        i = i + 1;
    }
    assert(ms.take(mentions@.len() as int) =~= ms);
    out
}

/// What to do when someone asks for the times of a message in their own zone.
pub enum ReactionOutcome {
    /// The author of the message has no timezone on file.
    SenderNotConfigured,
    /// The one who asked has no timezone on file.
    ReactorNotConfigured,
    /// The message holds no time that translates: nothing is sent.
    NothingToSend,
    /// Send this body to the one who asked.
    Notify(String),
}

/// Decides the reply to a request for the times of `text`, by the author's and the
/// requester's zones as the directory gave them. A notification has one line per translated
/// mention.
pub fn reaction_outcome(
    text: &str,
    sender: Option<&TimezoneId>,
    reactor: Option<&TimezoneId>,
    now_utc: i64,
) -> (r: ReactionOutcome)
    requires
        sender is Some && reactor is Some ==> valid_instant(now_utc as int),
    ensures
        sender is None ==> r is SenderNotConfigured,
        sender is Some && reactor is None ==> r is ReactorNotConfigured,
        sender matches Some(s) ==> reactor matches Some(v) ==> {
            let ts = message_translations(text.spec_bytes(), s@, v@, now_utc as int);
            &&& ts.len() == 0 ==> r is NothingToSend
            &&& ts.len() > 0 ==> (r matches ReactionOutcome::Notify(body) && body@ == body_of(ts)
                && newlines(body@) + 1 == ts.len())
        },
{
    match sender {
        None => ReactionOutcome::SenderNotConfigured,
        Some(s) => match reactor {
            None => ReactionOutcome::ReactorNotConfigured,
            Some(v) => {
                let results = translate_message(text, s, v, now_utc);
                proof {
                    lemma_body_lines(results_view(results@));
                }
                if results.len() == 0 {
                    ReactionOutcome::NothingToSend
                } else {
                    ReactionOutcome::Notify(compose(&results))
                }
            },
        },
    }
}

/// What to do when a message is posted.
#[derive(PartialEq, Eq, Structural, Clone, Copy, Debug)]
pub enum MessageAction {
    /// A command, or a message that mentions no time: leave it be.
    Ignore,
    /// Mark the message so that readers can ask for its times in their own zone.
    MarkForTranslation,
    /// Ask the author to set a timezone first.
    AskForTimezone,
}

/// Decides how to treat a posted message. A text that starts with `~` is a command and is left
/// to the command handlers.
pub fn message_action(text: &str, author_has_timezone: bool, author_is_bot: bool) -> (r:
    MessageAction)
    ensures
        r == (if text.spec_bytes().len() > 0 && text.spec_bytes()[0] == 126 {
            MessageAction::Ignore
        } else if mentions_of(text.spec_bytes()).len() == 0 {
            MessageAction::Ignore
        } else if author_has_timezone {
            MessageAction::MarkForTranslation
        } else if author_is_bot {
            MessageAction::Ignore
        } else {
            MessageAction::AskForTimezone
        }),
{
    let b = text.as_bytes();
    if b.len() > 0 && b[0] == 126 {
        return MessageAction::Ignore;
    }
    let mentions = find_mentions(text);
    if mentions.len() == 0 {
        MessageAction::Ignore
    } else if author_has_timezone {
        MessageAction::MarkForTranslation
    } else if author_is_bot {
        MessageAction::Ignore
    } else {
        MessageAction::AskForTimezone
    }
}

} // verus!
