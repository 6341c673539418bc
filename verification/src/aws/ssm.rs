//! Systems Manager commands: the shell script sent to an instance, the
//! retry of a refused send, and the reading of command invocations.

use vstd::prelude::*;
use crate::text::{contains_seq, str_contains, trim, trim_spec};

verus! {

/// The SSM document that runs a shell script.
pub const SSM_DOCUMENT_NAME: &'static str = "AWS-RunShellScript";

/// Send attempts before giving up.
pub const SSM_MAX_SEND_ATTEMPTS: u32 = 5;

/// Seconds to wait after the first refused send; the wait grows linearly
/// with the attempt number.
pub const SSM_RETRY_BASE_DELAY_SECS: u64 = 30;

/// Seconds between two looks at whether the instance's SSM agent is online.
pub const SSM_AGENT_POLL_SECS: u64 = 10;

/// Seconds to let a new command invocation become visible.
pub const SSM_INVOCATION_SETTLE_SECS: u64 = 5;

/// The script that runs `command` as `ec2-user` in a login shell, stopping
/// at the first failing step.
pub open spec fn wrapped_command_text(command: Seq<char>) -> Seq<char> {
    "#!/bin/bash\nset -e\nsudo -u ec2-user -i bash << 'EOF'\n"@ + command + "\nEOF"@
}

/// Wraps a command into the script that SSM runs.
pub fn wrap_ssm_command(command: &str) -> (r: String)
    ensures
        r@ == wrapped_command_text(command@),
{
    let mut r = String::from_str("#!/bin/bash\nset -e\nsudo -u ec2-user -i bash << 'EOF'\n");
    r.append(command);
    r.append("\nEOF");
    r
}

/// What to do after send attempt `attempt` (counting from 1) was refused.
#[derive(Debug, Clone, Copy, PartialEq, Eq, Structural)]
pub enum SsmSendStep {
    /// Sleep this many seconds, then send again.
    Retry { delay_secs: u64 },
    /// Give up on the command.
    GiveUp,
}

/// The step after refused attempt `attempt`: a refusal by the service
/// itself is retried, up to the last attempt, after
/// `SSM_RETRY_BASE_DELAY_SECS` times the attempt number; any other failure
/// (or the last attempt) ends the send.
pub open spec fn send_step(attempt: u32, service_error: bool) -> SsmSendStep {
    if service_error && attempt < SSM_MAX_SEND_ATTEMPTS {
        SsmSendStep::Retry { delay_secs: (SSM_RETRY_BASE_DELAY_SECS * attempt) as u64 }
    } else {
        SsmSendStep::GiveUp
    }
}

/// Decides what follows a refused send attempt.
pub fn ssm_send_step(attempt: u32, service_error: bool) -> (s: SsmSendStep)
    ensures
        s == send_step(attempt, service_error),
{
    if service_error && attempt < SSM_MAX_SEND_ATTEMPTS {
        SsmSendStep::Retry { delay_secs: SSM_RETRY_BASE_DELAY_SECS * (attempt as u64) }
    } else {
        SsmSendStep::GiveUp
    }
}

/// The send is bounded and backs off: from attempt `SSM_MAX_SEND_ATTEMPTS`
/// on it always gives up, and a later retried attempt waits longer than an
/// earlier one.
pub proof fn lemma_ssm_send_bounded(a: u32, b: u32, service_error: bool)
    ensures
        a >= SSM_MAX_SEND_ATTEMPTS ==> send_step(a, service_error) == SsmSendStep::GiveUp,
        (send_step(a, service_error) is Retry && send_step(b, service_error) is Retry && a < b)
            ==> send_step(a, service_error)->delay_secs < send_step(b, service_error)->delay_secs,
{
}

/// The status of a command invocation (`Other` stands for a status that
/// this library does not distinguish, such as `Delayed`).
#[derive(Debug, Clone, Copy, PartialEq, Eq, Structural)]
pub enum SsmCommandStatus {
    Pending,
    InProgress,
    Success,
    Failed,
    Cancelled,
    TimedOut,
    Cancelling,
    Other,
}

/// A command invocation as read: its status and output streams.
pub struct SsmInvocation {
    pub status: SsmCommandStatus,
    pub stdout: String,
    pub stderr: String,
}

/// Why an invocation cannot be read.
pub enum SsmInvocationError {
    /// The answer carries no status.
    NoStatus,
}

/// Reads a GetCommandInvocation answer: absent outputs read as empty; an
/// answer without a status is an error.
pub fn invocation_from_answer(
    status: Option<SsmCommandStatus>,
    stdout: Option<String>,
    stderr: Option<String>,
) -> (r: Result<SsmInvocation, SsmInvocationError>)
    ensures
        match status {
            None => r is Err,
            Some(st) => r matches Ok(inv) && inv.status == st && inv.stdout@ == match stdout {
                Some(s) => s@,
                None => Seq::empty(),
            } && inv.stderr@ == match stderr {
                Some(s) => s@,
                None => Seq::empty(),
            },
        },
{
    match status {
        None => Err(SsmInvocationError::NoStatus),
        Some(st) => Ok(
            SsmInvocation {
                status: st,
                stdout: match stdout {
                    Some(s) => s,
                    None => String::new(),
                },
                stderr: match stderr {
                    Some(s) => s,
                    None => String::new(),
                },
            },
        ),
    }
}

/// What a look at a command invocation gave.
pub enum SsmCheck {
    /// The invocation was read.
    Read(SsmInvocation),
    /// The look failed with this message.
    Failed(String),
}

/// What to do after a look at a running command.
pub enum SsmPollStep {
    /// The command succeeded with this standard output.
    Done { stdout: String },
    /// Still running (or not visible yet): look again after the interval.
    Continue,
    /// The command ended in failure with this status.
    CommandFailed { status: SsmCommandStatus },
    /// The command ended in a status that is not expected.
    UnexpectedStatus { status: SsmCommandStatus },
    /// The look failed for a reason other than a not-yet-visible invocation.
    CheckFailed { message: String },
    /// The wait is over.
    TimedOut,
}

/// A failure status.
pub open spec fn is_failure_status(s: SsmCommandStatus) -> bool {
    s == SsmCommandStatus::Failed || s == SsmCommandStatus::Cancelled || s
        == SsmCommandStatus::TimedOut || s == SsmCommandStatus::Cancelling
}

/// Decides the next step of the wait for a command: past the deadline the
/// wait ends; a look that failed because the invocation does not exist yet
/// counts as pending; success ends the wait with the output; pending and
/// in-progress continue; failure statuses and other statuses end it.
pub fn ssm_poll_step(past_deadline: bool, check: SsmCheck) -> (s: SsmPollStep)
    ensures
        past_deadline ==> s is TimedOut,
        !past_deadline ==> match check {
            SsmCheck::Failed(m) => if contains_seq(m@, "InvocationDoesNotExist"@) {
                s is Continue
            } else {
                s matches SsmPollStep::CheckFailed { message } && message@ == m@
            },
            SsmCheck::Read(inv) => match inv.status {
                SsmCommandStatus::Success => s matches SsmPollStep::Done { stdout }
                    && stdout@ == inv.stdout@,
                SsmCommandStatus::Pending | SsmCommandStatus::InProgress => s is Continue,
                SsmCommandStatus::Other => s matches SsmPollStep::UnexpectedStatus { status }
                    && status == SsmCommandStatus::Other,
                st => s matches SsmPollStep::CommandFailed { status } && status == st
                    && is_failure_status(st),
            },
        },
{
    if past_deadline {
        return SsmPollStep::TimedOut;
    }
    match check {
        SsmCheck::Failed(m) => {
            if str_contains(m.as_str(), "InvocationDoesNotExist") {
                SsmPollStep::Continue
            } else {
                SsmPollStep::CheckFailed { message: m }
            }
        },
        SsmCheck::Read(inv) => match inv.status {
            SsmCommandStatus::Success => SsmPollStep::Done { stdout: inv.stdout },
            SsmCommandStatus::Pending | SsmCommandStatus::InProgress => SsmPollStep::Continue,
            SsmCommandStatus::Other => SsmPollStep::UnexpectedStatus {
                status: SsmCommandStatus::Other,
            },
            st => SsmPollStep::CommandFailed { status: st },
        },
    }
}

/// The lines that report a failed command's output: the standard output
/// and the standard error, each only when it holds more than white space.
pub open spec fn report_lines(stdout: Seq<char>, stderr: Seq<char>) -> Seq<Seq<char>> {
    let out = if trim_spec(stdout).len() > 0 {
        seq!["Output: "@ + stdout]
    } else {
        Seq::empty()
    };
    let err = if trim_spec(stderr).len() > 0 {
        seq!["Error: "@ + stderr]
    } else {
        Seq::empty()
    };
    out + err
}

/// The report of a failed command's output.
pub fn failure_report(stdout: &str, stderr: &str) -> (r: Vec<String>)
    ensures
        crate::text::views(r@) == report_lines(stdout@, stderr@),
{
    let mut r: Vec<String> = Vec::new();
    let t = trim(stdout);
    if t.unicode_len() > 0 {
        let mut line = String::from_str("Output: ");
        line.append(stdout);
        r.push(line);
    }
    let t2 = trim(stderr);
    if t2.unicode_len() > 0 {
        let mut line = String::from_str("Error: ");
        line.append(stderr);
        r.push(line);
    }
    assert(crate::text::views(r@) =~= report_lines(stdout@, stderr@));
    r
}

/// What to do while waiting for an instance's SSM agent.
#[derive(Debug, Clone, Copy, PartialEq, Eq, Structural)]
pub enum SsmAgentStep {
    /// The agent is online.
    Ready,
    /// Look again after `SSM_AGENT_POLL_SECS`.
    Wait,
    /// The wait is over.
    TimedOut,
}

/// Decides the next step of the wait for the agent, given whether the
/// deadline has passed and, when the instance is listed, whether its first
/// listing reports the agent online.
pub fn ssm_agent_step(past_deadline: bool, first_online: Option<bool>) -> (s: SsmAgentStep)
    ensures
        s == if past_deadline {
            SsmAgentStep::TimedOut
        } else if first_online == Some(true) {
            SsmAgentStep::Ready
        } else {
            SsmAgentStep::Wait
        },
{
    if past_deadline {
        SsmAgentStep::TimedOut
    } else if first_online == Some(true) {
        SsmAgentStep::Ready
    } else {
        SsmAgentStep::Wait
    }
}

} // verus!
