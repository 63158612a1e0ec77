//! The context-window manager.  A conversation's turns carry token counts;
//! when their total reaches the budget and the conversation is long enough,
//! the chronologically oldest half is compressed into a single summary turn
//! that takes its place at the head.  The model call that writes the summary
//! happens outside the library: `check_and_prune` decides and prepares the
//! summarization input, `apply_prune` applies the replacement.

use vstd::prelude::*;

use crate::llm::{estimate_tokens, spec_estimate_tokens};
use crate::text::{spec_contains, contains_str, str_eq};

verus! {

/// A stored conversation turn, in creation order within its log.
pub struct Message {
    pub role: String,
    pub content: String,
    pub token_count: i32,
}

/// Token counts are never negative.
pub open spec fn wf_message(m: Message) -> bool {
    0 <= m.token_count
}

/// Every turn of the log is well formed.
pub open spec fn wf_log(msgs: Seq<Message>) -> bool {
    forall|i: int| 0 <= i < msgs.len() ==> wf_message(#[trigger] msgs[i])
}

/// Total token count of a log: the sum of its turns' counts.
pub open spec fn sum_tokens(msgs: Seq<Message>) -> int
    decreases msgs.len(),
{
    if msgs.len() == 0 {
        0
    } else {
        sum_tokens(msgs.drop_last()) + msgs.last().token_count
    }
}

/// Token totals split over concatenation.
pub proof fn lemma_sum_tokens_append(a: Seq<Message>, b: Seq<Message>)
    ensures
        sum_tokens(a + b) == sum_tokens(a) + sum_tokens(b),
    decreases b.len(),
{
    if b.len() == 0 {
        assert(a + b =~= a);
    } else {
        assert((a + b).drop_last() =~= a + b.drop_last());
        lemma_sum_tokens_append(a, b.drop_last());
    }
}

/// Compute the total token count of a log.
pub fn total_tokens(msgs: &Vec<Message>) -> (r: i64)
    requires
        wf_log(msgs@),
        msgs@.len() <= 0x1000_0000,
    ensures
        r == sum_tokens(msgs@),
        r >= 0,
{
    let mut total: i64 = 0;
    let mut i: usize = 0;
    while i < msgs.len()
        invariant
            i <= msgs@.len(),
            msgs@.len() <= 0x1000_0000,
            wf_log(msgs@),
            total == sum_tokens(msgs@.take(i as int)),
            0 <= total <= i * (i32::MAX as int),
        decreases msgs@.len() - i,
    {
        proof {
            assert(msgs@.take(i + 1).drop_last() =~= msgs@.take(i as int));
            assert(wf_message(msgs@[i as int]));
            assert((i + 1) * (i32::MAX as int) == i * (i32::MAX as int) + i32::MAX) by (nonlinear_arith);
        }
        total = total + msgs[i].token_count as i64;
        i = i + 1;
    }
    proof {
        assert(msgs@.take(msgs@.len() as int) =~= msgs@);
    }
    total
}

/// The turns rendered one per line as `role: content`.
pub open spec fn transcript(msgs: Seq<Message>) -> Seq<char>
    decreases msgs.len(),
{
    if msgs.len() == 0 {
        Seq::empty()
    } else {
        transcript(msgs.drop_last()) + msgs.last().role@ + ": "@ + msgs.last().content@ + "\n"@
    }
}

/// Render the turns `from..to` of a log, one per line.
pub fn build_transcript(msgs: &Vec<Message>, from: usize, to: usize) -> (r: String)
    requires
        from <= to <= msgs@.len(),
    ensures
        r@ == transcript(msgs@.subrange(from as int, to as int)),
{
    let mut out = String::new();
    let mut i: usize = from;
    while i < to
        invariant
            from <= i <= to <= msgs@.len(),
            out@ == transcript(msgs@.subrange(from as int, i as int)),
        decreases to - i,
    {
        proof {
            assert(msgs@.subrange(from as int, i + 1).drop_last() =~= msgs@.subrange(
                from as int,
                i as int,
            ));
        }
        out.append(msgs[i].role.as_str());
        out.append(": ");
        out.append(msgs[i].content.as_str());
        out.append("\n");
        i = i + 1;
    }
    out
}

/// A pruning decision: how many of the newest turns to keep, and the rendered
/// oldest half to hand to the model for summarization.
pub struct PruneRequest {
    pub keep_count: usize,
    pub summary_input: String,
}

/// Keeps a conversation's context within its token budget.
pub struct ContextManager {
    max_tokens: usize,
}

impl ContextManager {
    /// The configured token budget.
    pub closed spec fn budget(&self) -> int {
        self.max_tokens as int
    }

    pub fn new(max_tokens: usize) -> (r: ContextManager)
        ensures
            r.budget() == max_tokens,
    {
        ContextManager { max_tokens }
    }

    /// Decide whether the log must be pruned.  Nothing happens while the
    /// total is under budget, nor for a conversation of at most four turns;
    /// otherwise the oldest half (rounded down) is selected for
    /// summarization and all newer turns are kept.
    pub fn check_and_prune(&self, msgs: &Vec<Message>) -> (r: Option<PruneRequest>)
        requires
            wf_log(msgs@),
            msgs@.len() <= 0x1000_0000,
        ensures
            match r {
                None => !(sum_tokens(msgs@) >= self.budget() && msgs@.len() > 4),
                Some(p) => {
                    &&& sum_tokens(msgs@) >= self.budget()
                    &&& msgs@.len() > 4
                    &&& p.keep_count == msgs@.len() - msgs@.len() / 2
                    &&& p.summary_input@ == transcript(msgs@.take((msgs@.len() / 2) as int))
                },
            },
    {
        let total = total_tokens(msgs);
        if (total as u64) < self.max_tokens as u64 {
            return None;
        }
        if msgs.len() <= 4 {
            return None;
        }
        let half = msgs.len() / 2;
        let keep_count = msgs.len() - half;
        let summary_input = build_transcript(msgs, 0, half);
        proof {
            assert(msgs@.subrange(0, (msgs@.len() / 2) as int) =~= msgs@.take(
                (msgs@.len() / 2) as int,
            ));
        }
        Some(PruneRequest { keep_count, summary_input })
    }

    /// Replace everything but the newest `keep_count` turns with a single
    /// summary turn at the head, tagged as compressed history and carrying a
    /// token count estimated from the summary's length.  The count of turns
    /// to keep is applied against the live log, so turns appended after the
    /// decision survive.
    pub fn apply_prune(&self, msgs: &mut Vec<Message>, keep_count: usize, summary: &str)
        requires
            0 < keep_count <= old(msgs)@.len(),
        ensures
            final(msgs)@.len() == keep_count + 1,
            final(msgs)@[0].role@ == "system"@,
            final(msgs)@[0].content@ == "[Previous conversation summary]: "@ + summary@,
            final(msgs)@[0].token_count == spec_estimate_tokens(summary@),
            final(msgs)@.subrange(1, keep_count + 1) =~= old(msgs)@.subrange(
                (old(msgs)@.len() - keep_count) as int,
                old(msgs)@.len() as int,
            ),
    {
        let cut = msgs.len() - keep_count;
        let mut tail = msgs.split_off(cut);
        let mut content = "[Previous conversation summary]: ".to_owned();
        content.append(summary);
        let head = Message {
            role: "system".to_owned(),
            content,
            token_count: estimate_tokens(summary),
        };
        let mut out: Vec<Message> = Vec::new();
        out.push(head);
        out.append(&mut tail);
        *msgs = out;
    }

    /// Render the prompt for the periodic profile update: the fixed
    /// instruction with the current profile (or a placeholder when empty)
    /// embedded, and the transcript of the last ten turns.
    pub fn profile_prompt(&self, profile: &str, msgs: &Vec<Message>) -> (r: (String, String))
        ensures
            r.0@ == profile_system_prompt_spec(profile@),
            r.1@ == transcript(
                msgs@.subrange(
                    if msgs@.len() <= 10 {
                        0int
                    } else {
                        msgs@.len() - 10
                    },
                    msgs@.len() as int,
                ),
            ),
    {
        let mut system = "You are a profile updater. Given the current user profile and recent conversation, extract any NEW persistent facts about the user (name, preferences, demographics, interests, profession, etc.) and return an UPDATED profile summary.\n\nCurrent profile:\n".to_owned();
        if profile.is_empty() {
            system.append("(empty - no info yet)");
        } else {
            system.append(profile);
        }
        system.append("\n\nIf nothing new is found, respond with exactly: NO_UPDATE");
        let len = msgs.len();
        let start = if len <= 10 {
            0
        } else {
            len - 10
        };
        let user = build_transcript(msgs, start, len);
        (system, user)
    }
}

/// The profile-update instruction with the profile text embedded.
pub open spec fn profile_system_prompt_spec(profile: Seq<char>) -> Seq<char> {
    "You are a profile updater. Given the current user profile and recent conversation, extract any NEW persistent facts about the user (name, preferences, demographics, interests, profession, etc.) and return an UPDATED profile summary.\n\nCurrent profile:\n"@
        + (if profile.len() == 0 {
        "(empty - no info yet)"@
    } else {
        profile
    }) + "\n\nIf nothing new is found, respond with exactly: NO_UPDATE"@
}

/// The stored profile is overwritten only when the model's reply is
/// non-empty and does not carry the fixed `NO_UPDATE` sentinel.
pub fn profile_update_wanted(response: &str) -> (r: bool)
    ensures
        r == (!spec_contains(response@, "NO_UPDATE"@) && response@.len() > 0),
{
    if response.is_empty() {
        return false;
    }
    !contains_str(response, "NO_UPDATE")
}

/// Display label for a role in a summary preview.
pub open spec fn role_label(role: Seq<char>) -> Seq<char> {
    if role == "user"@ {
        "User"@
    } else if role == "assistant"@ {
        "Assistant"@
    } else {
        "System"@
    }
}

/// A turn rendered for a summary preview: labelled role, content cut at 200
/// characters.
pub open spec fn preview_line(m: Message) -> Seq<char> {
    role_label(m.role@) + ": "@ + m.content@.take(
        if m.content@.len() <= 200 {
            m.content@.len() as int
        } else {
            200int
        },
    ) + "\n"@
}

/// The turns rendered for a summary preview, one per line.
pub open spec fn preview_transcript(msgs: Seq<Message>) -> Seq<char>
    decreases msgs.len(),
{
    if msgs.len() == 0 {
        Seq::empty()
    } else {
        preview_transcript(msgs.drop_last()) + preview_line(msgs.last())
    }
}

/// Render the prompt that asks the model for a short display summary of a
/// conversation: the fixed instruction, and a preview of the last ten turns.
pub fn summary_preview_prompt(msgs: &Vec<Message>) -> (r: (String, String))
    ensures
        r.0@ == "Summarize this conversation in 1-2 short sentences. Be concise and capture the key topic."@,
        r.1@ == preview_transcript(
            msgs@.subrange(
                if msgs@.len() <= 10 {
                    0int
                } else {
                    msgs@.len() - 10
                },
                msgs@.len() as int,
            ),
        ),
{
    let len = msgs.len();
    let from = if len <= 10 {
        0
    } else {
        len - 10
    };
    let mut out = String::new();
    let mut i: usize = from;
    while i < len
        invariant
            from <= i <= len <= msgs@.len(),
            len == msgs@.len(),
            out@ == preview_transcript(msgs@.subrange(from as int, i as int)),
        decreases len - i,
    {
        proof {
            assert(msgs@.subrange(from as int, i + 1).drop_last() =~= msgs@.subrange(
                from as int,
                i as int,
            ));
        }
        let m = &msgs[i];
        if str_eq(m.role.as_str(), "user") {
            out.append("User");
        } else if str_eq(m.role.as_str(), "assistant") {
            out.append("Assistant");
        } else {
            out.append("System");
        }
        out.append(": ");
        let clen = m.content.as_str().unicode_len();
        let cut = if clen <= 200 {
            clen
        } else {
            200
        };
        out.append(m.content.as_str().substring_char(0, cut));
        out.append("\n");
        i = i + 1;
    }
    let system = "Summarize this conversation in 1-2 short sentences. Be concise and capture the key topic.".to_owned();
    (system, out)
}

/// After a prune the turn count strictly decreases, a single summary turn
/// stands at the head, and — provided the summary's token estimate is below
/// the total of the removed turns — the token total strictly decreases.
pub proof fn lemma_prune_shrinks(before: Seq<Message>, after: Seq<Message>, summary: Seq<char>)
    requires
        before.len() > 4,
        after.len() == (before.len() - before.len() / 2) + 1,
        after[0].token_count == spec_estimate_tokens(summary),
        after.subrange(1, after.len() as int) =~= before.subrange(
            (before.len() / 2) as int,
            before.len() as int,
        ),
        spec_estimate_tokens(summary) < sum_tokens(before.take((before.len() / 2) as int)),
    ensures
        after.len() < before.len(),
        sum_tokens(after) < sum_tokens(before),
{
    let half = (before.len() / 2) as int;
    let removed = before.take(half);
    let kept = before.subrange(half, before.len() as int);
    assert(before =~= removed + kept);
    lemma_sum_tokens_append(removed, kept);
    let head = seq![after[0]];
    assert(after =~= head + after.subrange(1, after.len() as int));
    lemma_sum_tokens_append(head, after.subrange(1, after.len() as int));
    assert(head.drop_last() =~= Seq::<Message>::empty());
    assert(sum_tokens(Seq::<Message>::empty()) == 0);
    assert(sum_tokens(head) == after[0].token_count);
}

} // verus!
