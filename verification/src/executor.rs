//! Command risk classification and execution planning.  A command is first
//! normalized, then held against a deny-list of catastrophic patterns (an
//! unconditional block that no approval can override), then its base token is
//! looked up in an allow-list of read-only commands; anything else is
//! escalated into the approval workflow.  Running the command itself is a
//! host-process effect and happens outside the library; the pure part of
//! output capture — combining the two streams and truncating — is here.

use vstd::prelude::*;

use crate::approval::ApprovalStore;
use crate::text::{contains_str, first_token, first_token_spec, spec_contains, str_eq, trim,
    trim_spec};

verus! {

/// The fixed command policy: an allow-list of read-only commands (matched
/// against the base token) and a deny-list of catastrophic patterns (matched
/// anywhere in the command).
pub struct CommandPolicy {
    pub allow: Vec<String>,
    pub deny: Vec<String>,
}

/// The command contains one of the deny-list patterns.
pub open spec fn denied_spec(deny: Seq<String>, cmd: Seq<char>) -> bool {
    exists|i: int| 0 <= i < deny.len() && spec_contains(cmd, #[trigger] deny[i]@)
}

/// The command's base token is a member of the allow-list.
pub open spec fn allowed_spec(allow: Seq<String>, cmd: Seq<char>) -> bool {
    exists|i: int| 0 <= i < allow.len() && #[trigger] allow[i]@ == first_token_spec(cmd)
}

impl CommandPolicy {
    /// The built-in policy: read-only informational commands are allowed,
    /// recursive root deletion, filesystem formatting, disk overwrites,
    /// fork bombs and root permission blasts are always blocked.
    pub fn new_default() -> (r: CommandPolicy)
        ensures
            r.allow@.len() == 17,
            r.allow@[0]@ == "date"@,
            r.allow@[1]@ == "whoami"@,
            r.allow@[2]@ == "hostname"@,
            r.allow@[3]@ == "uptime"@,
            r.allow@[4]@ == "uname"@,
            r.allow@[5]@ == "echo"@,
            r.allow@[6]@ == "cat"@,
            r.allow@[7]@ == "ls"@,
            r.allow@[8]@ == "pwd"@,
            r.allow@[9]@ == "df"@,
            r.allow@[10]@ == "free"@,
            r.allow@[11]@ == "wc"@,
            r.allow@[12]@ == "head"@,
            r.allow@[13]@ == "tail"@,
            r.allow@[14]@ == "which"@,
            r.allow@[15]@ == "env"@,
            r.allow@[16]@ == "printenv"@,
            r.deny@.len() == 6,
            r.deny@[0]@ == "rm -rf /"@,
            r.deny@[1]@ == "rm -rf /*"@,
            r.deny@[2]@ == "mkfs"@,
            r.deny@[3]@ == "dd if=/dev/zero"@,
            r.deny@[4]@ == ":(){ :|:& };:"@,
            r.deny@[5]@ == "chmod -R 777 /"@,
    {
        let mut allow: Vec<String> = Vec::new();
        allow.push("date".to_owned());
        allow.push("whoami".to_owned());
        allow.push("hostname".to_owned());
        allow.push("uptime".to_owned());
        allow.push("uname".to_owned());
        allow.push("echo".to_owned());
        allow.push("cat".to_owned());
        allow.push("ls".to_owned());
        allow.push("pwd".to_owned());
        allow.push("df".to_owned());
        allow.push("free".to_owned());
        allow.push("wc".to_owned());
        allow.push("head".to_owned());
        allow.push("tail".to_owned());
        allow.push("which".to_owned());
        allow.push("env".to_owned());
        allow.push("printenv".to_owned());
        let mut deny: Vec<String> = Vec::new();
        deny.push("rm -rf /".to_owned());
        deny.push("rm -rf /*".to_owned());
        deny.push("mkfs".to_owned());
        deny.push("dd if=/dev/zero".to_owned());
        deny.push(":(){ :|:& };:".to_owned());
        deny.push("chmod -R 777 /".to_owned());
        CommandPolicy { allow, deny }
    }
}

/// What classification decides must happen for a command.
pub enum ExecutionPlan {
    /// The command is allow-listed: run it now (a host effect, outside the
    /// library) and report its output.
    Run { command: String },
    /// The command was escalated: an approval request with this id is now
    /// pending and nothing runs until it is approved.
    AwaitApproval { id: u64 },
    /// The command matches the deny-list; it never runs and no record is
    /// created.
    Blocked,
}

/// Outcome of classification and execution, as reported to the requester.
#[derive(Debug)]
pub enum ExecutionResult {
    /// The command was safe and was executed immediately.
    Immediate(String),
    /// The command awaits approval under this request id.
    PendingApproval(u64),
    /// The command is permanently blocked.
    Blocked,
}

impl ExecutionPlan {
    /// The outcome reported for this plan: the captured output of an
    /// allow-listed run, the pending request id, or the block.
    pub fn into_result(self, run_output: Option<String>) -> (r: ExecutionResult)
        requires
            self is Run ==> run_output is Some,
        ensures
            ({
                match self {
                    ExecutionPlan::Run { command } => match (r, run_output) {
                        (ExecutionResult::Immediate(out), Some(o)) => out == o,
                        _ => false,
                    },
                    ExecutionPlan::AwaitApproval { id } => r == ExecutionResult::PendingApproval(
                        id,
                    ),
                    ExecutionPlan::Blocked => r is Blocked,
                }
            }),
    {
        match self {
            ExecutionPlan::Run { command: _ } => match run_output {
                Some(o) => ExecutionResult::Immediate(o),
                None => ExecutionResult::Blocked,
            },
            ExecutionPlan::AwaitApproval { id } => ExecutionResult::PendingApproval(id),
            ExecutionPlan::Blocked => ExecutionResult::Blocked,
        }
    }
}

/// Classifies commands and prepares their execution.
pub struct CommandExecutor;

impl CommandExecutor {
    /// Classify a command: block it, clear it to run, or create a pending
    /// approval request.  The deny-list is checked first and cannot be
    /// overridden by allow-list membership; exactly one pending request is
    /// created when, and only when, the command is in neither list.
    pub fn execute(
        policy: &CommandPolicy,
        store: &mut ApprovalStore,
        command: &str,
        user_id: i64,
        chat_id: i64,
        now: i64,
    ) -> (r: ExecutionPlan)
        requires
            old(store).wf(),
            old(store)@.len() < u64::MAX,
        ensures
            final(store).wf(),
            ({
                let t = trim_spec(command@);
                match r {
                    ExecutionPlan::Blocked => {
                        &&& denied_spec(policy.deny@, t)
                        &&& final(store)@ =~= old(store)@
                    },
                    ExecutionPlan::Run { command: c } => {
                        &&& !denied_spec(policy.deny@, t)
                        &&& allowed_spec(policy.allow@, t)
                        &&& c@ == t
                        &&& final(store)@ =~= old(store)@
                    },
                    ExecutionPlan::AwaitApproval { id } => {
                        &&& !denied_spec(policy.deny@, t)
                        &&& !allowed_spec(policy.allow@, t)
                        &&& id == old(store)@.len()
                        &&& final(store)@.len() == old(store)@.len() + 1
                        &&& final(store)@.subrange(0, old(store)@.len() as int) =~= old(store)@
                        &&& final(store)@.last().command@ == t
                        &&& final(store)@.last().status is Pending
                        &&& final(store)@.last().requester_id == user_id
                        &&& final(store)@.last().requester_chat_id == chat_id
                        &&& final(store)@.last().result is None
                        &&& final(store)@.last().created_at == now
                    },
                }
            }),
    {
        let trimmed = trim(command);
        let mut i: usize = 0;
        while i < policy.deny.len()
            invariant
                i <= policy.deny@.len(),
                trimmed@ == trim_spec(command@),
                store == old(store),
                old(store).wf(),
                forall|j: int| 0 <= j < i ==> !spec_contains(trimmed@, #[trigger] policy.deny@[j]@),
            decreases policy.deny@.len() - i,
        {
            if contains_str(trimmed, policy.deny[i].as_str()) {
                return ExecutionPlan::Blocked;
            }
            i = i + 1;
        }
        let base = first_token(trimmed);
        let mut k: usize = 0;
        while k < policy.allow.len()
            invariant
                k <= policy.allow@.len(),
                trimmed@ == trim_spec(command@),
                base@ == first_token_spec(trim_spec(command@)),
                store == old(store),
                old(store).wf(),
                !denied_spec(policy.deny@, trim_spec(command@)),
                forall|j: int| 0 <= j < k ==> #[trigger] policy.allow@[j]@ != base@,
            decreases policy.allow@.len() - k,
        {
            if str_eq(base, policy.allow[k].as_str()) {
                return ExecutionPlan::Run { command: trimmed.to_owned() };
            }
            k = k + 1;
        }
        let id = store.create(trimmed, user_id, chat_id, now);
        ExecutionPlan::AwaitApproval { id }
    }
}

/// The two captured output streams, combined: stderr, when present, follows
/// under a marker, on a new line when stdout is non-empty.
pub open spec fn combined_output(out: Seq<char>, err: Seq<char>) -> Seq<char> {
    if err.len() == 0 {
        out
    } else if out.len() == 0 {
        "STDERR: "@ + err
    } else {
        out + "\n"@ + "STDERR: "@ + err
    }
}

/// Output is capped at 4000 characters; anything longer is cut there and a
/// truncation marker is appended.
pub open spec fn truncated_output(c: Seq<char>) -> Seq<char> {
    if c.len() > 4000 {
        c.take(4000) + "\n... (output truncated)"@
    } else {
        c
    }
}

/// Combine captured stdout and stderr into the reported output text.
pub fn format_output(stdout: &str, stderr: &str) -> (r: String)
    ensures
        r@ == truncated_output(combined_output(stdout@, stderr@)),
{
    let mut result = String::new();
    if !stdout.is_empty() {
        result.append(stdout);
    }
    if !stderr.is_empty() {
        if !stdout.is_empty() {
            result.append("\n");
        }
        result.append("STDERR: ");
        result.append(stderr);
    }
    proof {
        assert(result@ =~= combined_output(stdout@, stderr@));
    }
    let len = result.as_str().unicode_len();
    if len > 4000 {
        let head = result.as_str().substring_char(0, 4000).to_owned();
        proof {
            assert(head@ =~= combined_output(stdout@, stderr@).take(4000));
        }
        head.concat("\n... (output truncated)")
    } else {
        result
    }
}

/// A truncated output is exactly 4000 characters plus the 23-character
/// marker — 4023 characters, never more — and its head is the head of the
/// original.
pub proof fn lemma_truncation_bound(c: Seq<char>)
    requires
        c.len() > 4000,
    ensures
        truncated_output(c).len() == 4023,
        truncated_output(c).take(4000) =~= c.take(4000),
{
    reveal_strlit("\n... (output truncated)");
}

} // verus!
