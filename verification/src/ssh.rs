//! SSH sessions to cluster nodes: the command lines and remote scripts that
//! run commands, transfer files and manage tmux jobs, and the decisions of
//! the readiness and tmux waits.

use vstd::prelude::*;
use crate::text::{decimal, join_seq, parse_i32, parse_i32_spec, trim, trim_end_char, trim_end_matches_char, trim_spec, views};

verus! {

/// How to reach a node over SSH: address, user, private key and, for nodes
/// without a public address, the jump host (`user@host`) to go through.
pub struct SshSession {
    pub ip: String,
    pub username: String,
    pub private_key_path: String,
    pub jump_host: Option<String>,
}

/// The options every SSH invocation of a session carries, then the
/// ProxyCommand through the jump host (if any), then `user@ip`.
pub open spec fn ssh_base_args(
    key: Seq<char>,
    user: Seq<char>,
    ip: Seq<char>,
    jump: Option<Seq<char>>,
) -> Seq<Seq<char>> {
    seq![
        "-i"@,
        key,
        "-o"@,
        "StrictHostKeyChecking=no"@,
        "-o"@,
        "UserKnownHostsFile=/dev/null"@,
        "-o"@,
        "ConnectTimeout=10"@,
        "-o"@,
        "ServerAliveInterval=30"@,
        "-o"@,
        "ServerAliveCountMax=3"@,
        "-o"@,
        "LogLevel=ERROR"@,
    ] + match jump {
        Some(j) => seq!["-o"@, proxy_command(key, j)],
        None => Seq::empty(),
    } + seq![user + "@"@ + ip]
}

/// The ProxyCommand option that reaches a node through a jump host, with
/// the same key and host-key settings on the hop.
pub open spec fn proxy_command(key: Seq<char>, jump: Seq<char>) -> Seq<char> {
    "ProxyCommand=ssh -i "@ + key
        + " -o StrictHostKeyChecking=no -o UserKnownHostsFile=/dev/null -o LogLevel=ERROR -W %h:%p "@
        + jump
}

/// An optional string, seen through its view.
pub open spec fn opt_seq(o: Option<String>) -> Option<Seq<char>> {
    match o {
        Some(s) => Some(s@),
        None => None,
    }
}

fn push_str(v: &mut Vec<String>, s: &str)
    ensures
        views(final(v)@) == views(old(v)@).push(s@),
{
    v.push(String::from_str(s));
    assert(views(v@) =~= views(old(v)@).push(s@));
}

fn push_string(v: &mut Vec<String>, s: String)
    ensures
        views(final(v)@) == views(old(v)@).push(s@),
{
    let ghost sv = s@;
    v.push(s);
    assert(views(v@) =~= views(old(v)@).push(sv));
}

impl SshSession {
    /// A session to an AWS instance reached directly, as `ec2-user`.
    pub fn for_aws(ip: &str, private_key_path: &str) -> (s: Self)
        ensures
            s.ip@ == ip@,
            s.username@ == "ec2-user"@,
            s.private_key_path@ == private_key_path@,
            s.jump_host is None,
    {
        SshSession {
            ip: String::from_str(ip),
            username: String::from_str("ec2-user"),
            private_key_path: String::from_str(private_key_path),
            jump_host: None,
        }
    }

    /// A session to an AWS worker node, reached at its private address
    /// through the head node (`ec2-user@<head public address>`).
    pub fn for_aws_worker(private_ip: &str, head_public_ip: &str, private_key_path: &str) -> (s:
        Self)
        ensures
            s.ip@ == private_ip@,
            s.username@ == "ec2-user"@,
            s.private_key_path@ == private_key_path@,
            opt_seq(s.jump_host) == Some("ec2-user@"@ + head_public_ip@),
    {
        let mut jump = String::from_str("ec2-user@");
        jump.append(head_public_ip);
        SshSession {
            ip: String::from_str(private_ip),
            username: String::from_str("ec2-user"),
            private_key_path: String::from_str(private_key_path),
            jump_host: Some(jump),
        }
    }

    /// A session to a Vultr instance, as `root`.
    pub fn for_vultr(ip: &str, private_key_path: &str) -> (s: Self)
        ensures
            s.ip@ == ip@,
            s.username@ == "root"@,
            s.private_key_path@ == private_key_path@,
            s.jump_host is None,
    {
        SshSession {
            ip: String::from_str(ip),
            username: String::from_str("root"),
            private_key_path: String::from_str(private_key_path),
            jump_host: None,
        }
    }

    /// How the session is named in messages: the address, and the jump
    /// host in parentheses when there is one.
    pub fn display(&self) -> (r: String)
        ensures
            r@ == match self.jump_host {
                Some(j) => self.ip@ + " (via "@ + j@ + ")"@,
                None => self.ip@,
            },
    {
        match &self.jump_host {
            Some(jump) => {
                let mut r = self.ip.clone();
                r.append(" (via ");
                r.append(jump.as_str());
                r.append(")");
                r
            },
            None => self.ip.clone(),
        }
    }

    /// The arguments of every `ssh` invocation of the session, ending with
    /// the `user@ip` destination.
    pub fn base_args(&self) -> (r: Vec<String>)
        ensures
            views(r@) == ssh_base_args(
                self.private_key_path@,
                self.username@,
                self.ip@,
                opt_seq(self.jump_host),
            ),
    {
        let mut r: Vec<String> = Vec::new();
        push_str(&mut r, "-i");
        push_string(&mut r, self.private_key_path.clone());
        push_str(&mut r, "-o");
        push_str(&mut r, "StrictHostKeyChecking=no");
        push_str(&mut r, "-o");
        push_str(&mut r, "UserKnownHostsFile=/dev/null");
        push_str(&mut r, "-o");
        push_str(&mut r, "ConnectTimeout=10");
        push_str(&mut r, "-o");
        push_str(&mut r, "ServerAliveInterval=30");
        push_str(&mut r, "-o");
        push_str(&mut r, "ServerAliveCountMax=3");
        push_str(&mut r, "-o");
        push_str(&mut r, "LogLevel=ERROR");
        match &self.jump_host {
            Some(jump) => {
                push_str(&mut r, "-o");
                let mut proxy = String::from_str("ProxyCommand=ssh -i ");
                proxy.append(self.private_key_path.as_str());
                proxy.append(
                    " -o StrictHostKeyChecking=no -o UserKnownHostsFile=/dev/null -o LogLevel=ERROR -W %h:%p ",
                );
                proxy.append(jump.as_str());
                push_string(&mut r, proxy);
            },
            None => {},
        }
        let mut dest = self.username.clone();
        dest.append("@");
        dest.append(self.ip.as_str());
        push_string(&mut r, dest);
        assert(views(r@) =~= ssh_base_args(
            self.private_key_path@,
            self.username@,
            self.ip@,
            opt_seq(self.jump_host),
        ));
        r
    }

    /// The `ssh` arguments that run a script fed on standard input with
    /// `bash -s`, so that no quoting of the script is needed.
    pub fn remote_script_args(&self) -> (r: Vec<String>)
        ensures
            views(r@) == ssh_base_args(
                self.private_key_path@,
                self.username@,
                self.ip@,
                opt_seq(self.jump_host),
            ).push("bash -s"@),
    {
        let mut r = self.base_args();
        push_str(&mut r, "bash -s");
        r
    }

    /// The `ssh` arguments that write standard input to `remote_path`.
    pub fn upload_args(&self, remote_path: &str) -> (r: Vec<String>)
        ensures
            views(r@) == ssh_base_args(
                self.private_key_path@,
                self.username@,
                self.ip@,
                opt_seq(self.jump_host),
            ).push("cat > "@ + remote_path@),
    {
        let mut r = self.base_args();
        let mut cmd = String::from_str("cat > ");
        cmd.append(remote_path);
        push_string(&mut r, cmd);
        r
    }

    /// The rsync source that copies the contents of a remote directory:
    /// `user@ip:<path without trailing slashes>/`.
    pub fn rsync_source(&self, remote_path: &str) -> (r: String)
        ensures
            r@ == self.username@ + "@"@ + self.ip@ + ":"@ + trim_end_char(remote_path@, '/')
                + "/"@,
    {
        let mut r = self.username.clone();
        r.append("@");
        r.append(self.ip.as_str());
        r.append(":");
        let trimmed = trim_end_matches_char(remote_path, '/');
        r.append(trimmed.as_str());
        r.append("/");
        r
    }

    /// The `rsync` arguments that download the contents of `remote_path`
    /// into `local_path`.
    pub fn rsync_args(&self, remote_path: &str, local_path: &str) -> (r: Vec<String>)
        ensures
            views(r@) == seq![
                "-az"@,
                "--no-relative"@,
                "-e"@,
                "ssh -i "@ + self.private_key_path@
                    + " -o StrictHostKeyChecking=no -o UserKnownHostsFile=/dev/null -o LogLevel=ERROR"@,
                self.username@ + "@"@ + self.ip@ + ":"@ + trim_end_char(remote_path@, '/') + "/"@,
                local_path@,
            ],
    {
        let mut r: Vec<String> = Vec::new();
        push_str(&mut r, "-az");
        push_str(&mut r, "--no-relative");
        push_str(&mut r, "-e");
        let mut ssh = String::from_str("ssh -i ");
        ssh.append(self.private_key_path.as_str());
        ssh.append(
            " -o StrictHostKeyChecking=no -o UserKnownHostsFile=/dev/null -o LogLevel=ERROR",
        );
        push_string(&mut r, ssh);
        push_string(&mut r, self.rsync_source(remote_path));
        push_str(&mut r, local_path);
        assert(views(r@) =~= seq![
            "-az"@,
            "--no-relative"@,
            "-e"@,
            "ssh -i "@ + self.private_key_path@
                + " -o StrictHostKeyChecking=no -o UserKnownHostsFile=/dev/null -o LogLevel=ERROR"@,
            self.username@ + "@"@ + self.ip@ + ":"@ + trim_end_char(remote_path@, '/') + "/"@,
            local_path@,
        ]);
        r
    }

    /// The `scp` arguments that upload `local_path` to `remote_path`.
    pub fn scp_args(&self, local_path: &str, remote_path: &str) -> (r: Vec<String>)
        ensures
            views(r@) == seq![
                "-i"@,
                self.private_key_path@,
                "-o"@,
                "StrictHostKeyChecking=no"@,
                "-o"@,
                "UserKnownHostsFile=/dev/null"@,
                "-o"@,
                "LogLevel=ERROR"@,
                local_path@,
                self.username@ + "@"@ + self.ip@ + ":"@ + remote_path@,
            ],
    {
        let mut r: Vec<String> = Vec::new();
        push_str(&mut r, "-i");
        push_string(&mut r, self.private_key_path.clone());
        push_str(&mut r, "-o");
        push_str(&mut r, "StrictHostKeyChecking=no");
        push_str(&mut r, "-o");
        push_str(&mut r, "UserKnownHostsFile=/dev/null");
        push_str(&mut r, "-o");
        push_str(&mut r, "LogLevel=ERROR");
        push_str(&mut r, local_path);
        let mut dest = self.username.clone();
        dest.append("@");
        dest.append(self.ip.as_str());
        dest.append(":");
        dest.append(remote_path);
        push_string(&mut r, dest);
        assert(views(r@) =~= seq![
            "-i"@,
            self.private_key_path@,
            "-o"@,
            "StrictHostKeyChecking=no"@,
            "-o"@,
            "UserKnownHostsFile=/dev/null"@,
            "-o"@,
            "LogLevel=ERROR"@,
            local_path@,
            self.username@ + "@"@ + self.ip@ + ":"@ + remote_path@,
        ]);
        r
    }

    /// How readiness is probed: sessions through a jump host run a command
    /// over SSH (a private address cannot be polled directly); direct
    /// sessions poll TCP port 22 at `ip:22`.
    pub fn readiness_probe(&self) -> (p: ReadinessProbe)
        ensures
            self.jump_host is Some ==> p is SshCommand,
            self.jump_host is None ==> (p matches ReadinessProbe::TcpConnect { address }
                && address@ == self.ip@ + ":22"@),
    {
        match &self.jump_host {
            Some(_) => ReadinessProbe::SshCommand,
            None => {
                let mut address = self.ip.clone();
                address.append(":22");
                ReadinessProbe::TcpConnect { address }
            },
        }
    }
}

/// How a readiness wait probes a node.
pub enum ReadinessProbe {
    /// Open a TCP connection to this address.
    TcpConnect { address: String },
    /// Run `echo ok` over SSH.
    SshCommand,
}

/// The next step of a readiness wait.
#[derive(Debug, Clone, Copy, PartialEq, Eq, Structural)]
pub enum ReadinessStep {
    /// The deadline passed before the probe: give up.
    TimedOut,
    /// Probe now.
    Probe,
    /// The probe succeeded: the node is ready.
    Ready,
    /// The probe failed: wait five seconds and go on.
    Retry,
}

/// Decides a readiness wait: the deadline is checked before each probe, and
/// the probe's outcome (when known) decides between ready and retry.
pub fn readiness_step(past_deadline: bool, probe_succeeded: Option<bool>) -> (s: ReadinessStep)
    ensures
        s == (match probe_succeeded {
            None => if past_deadline {
                ReadinessStep::TimedOut
            } else {
                ReadinessStep::Probe
            },
            Some(true) => ReadinessStep::Ready,
            Some(false) => ReadinessStep::Retry,
        }),
{
    match probe_succeeded {
        None => if past_deadline {
            ReadinessStep::TimedOut
        } else {
            ReadinessStep::Probe
        },
        Some(true) => ReadinessStep::Ready,
        Some(false) => ReadinessStep::Retry,
    }
}

/// The files of a tmux job on the remote host.
pub struct TmuxJob {
    pub session_name: String,
    pub script_path: String,
    pub log_path: String,
    pub exit_path: String,
    pub wrapper_path: String,
}

/// The path of the script of tmux job `session`.
pub open spec fn tmux_script_path(session: Seq<char>) -> Seq<char> {
    "/tmp/hpcac_"@ + session + ".sh"@
}

/// The wrapper of a tmux job: runs the script, copies its output to the log
/// and writes the script's exit code to the exit file.
pub open spec fn wrapper_text(script: Seq<char>, log: Seq<char>, exit: Seq<char>) -> Seq<char> {
    "#!/bin/bash\n"@ + script + " 2>&1 | tee "@ + log + "\necho ${PIPESTATUS[0]} > "@ + exit + "\n"@
}

/// The command that prints the exit code of tmux job `session`.
pub open spec fn exit_code_command_text(session: Seq<char>) -> Seq<char> {
    "cat "@ + tmux_exit_path(session) + " 2>/dev/null || echo 1"@
}

/// The path of the file that receives the exit code of tmux job `session`:
/// the script path with `.exit` appended.
pub open spec fn tmux_exit_path(session: Seq<char>) -> Seq<char> {
    tmux_script_path(session) + ".exit"@
}

impl TmuxJob {
    /// The files of the tmux job named `session_name`, under `/tmp`.
    pub fn new(session_name: &str) -> (j: Self)
        ensures
            j.session_name@ == session_name@,
            j.script_path@ == tmux_script_path(session_name@),
            j.log_path@ == "/tmp/hpcac_"@ + session_name@ + ".log"@,
            j.exit_path@ == tmux_exit_path(session_name@),
            j.wrapper_path@ == "/tmp/hpcac_"@ + session_name@ + "_wrapper.sh"@,
    {
        let mut script = String::from_str("/tmp/hpcac_");
        script.append(session_name);
        script.append(".sh");
        let mut log = String::from_str("/tmp/hpcac_");
        log.append(session_name);
        log.append(".log");
        let mut exit = script.clone();
        exit.append(".exit");
        let mut wrapper = String::from_str("/tmp/hpcac_");
        wrapper.append(session_name);
        wrapper.append("_wrapper.sh");
        TmuxJob {
            session_name: String::from_str(session_name),
            script_path: script,
            log_path: log,
            exit_path: exit,
            wrapper_path: wrapper,
        }
    }

    /// The wrapper that runs the script, copies its output to the log and
    /// saves the script's own exit code (taken from `PIPESTATUS[0]`, despite
    /// the `tee` pipeline) to the exit file.
    pub fn wrapper_script(&self) -> (r: String)
        ensures
            r@ == wrapper_text(self.script_path@, self.log_path@, self.exit_path@),
    {
        let mut r = String::from_str("#!/bin/bash\n");
        r.append(self.script_path.as_str());
        r.append(" 2>&1 | tee ");
        r.append(self.log_path.as_str());
        r.append("\necho ${PIPESTATUS[0]} > ");
        r.append(self.exit_path.as_str());
        r.append("\n");
        r
    }

    /// The command that makes both files executable, ends any session of
    /// the same name and starts the wrapper in a detached tmux session.
    pub fn launch_command(&self) -> (r: String)
        ensures
            r@ == "chmod +x "@ + self.script_path@ + " "@ + self.wrapper_path@
                + " && tmux kill-session -t "@ + self.session_name@
                + " 2>/dev/null; true && tmux new-session -d -s "@ + self.session_name@ + " "@
                + self.wrapper_path@,
    {
        let mut r = String::from_str("chmod +x ");
        r.append(self.script_path.as_str());
        r.append(" ");
        r.append(self.wrapper_path.as_str());
        r.append(" && tmux kill-session -t ");
        r.append(self.session_name.as_str());
        r.append(" 2>/dev/null; true && tmux new-session -d -s ");
        r.append(self.session_name.as_str());
        r.append(" ");
        r.append(self.wrapper_path.as_str());
        r
    }
}

/// The command that prints the exit code saved by the job's wrapper, or 1
/// when there is none.
pub fn tmux_exit_code_command(session_name: &str) -> (r: String)
    ensures
        r@ == exit_code_command_text(session_name@),
{
    let job = TmuxJob::new(session_name);
    let mut r = String::from_str("cat ");
    r.append(job.exit_path.as_str());
    r.append(" 2>/dev/null || echo 1");
    r
}

/// The exit code printed by `tmux_exit_code_command`: its trimmed output
/// read as an `i32`, or 1 when it does not read as one.
pub fn parse_tmux_exit_code(output: &str) -> (code: i32)
    ensures
        code == match parse_i32_spec(trim_spec(output@)) {
            Some(v) => v,
            None => 1i32,
        },
{
    let t = trim(output);
    match parse_i32(t.as_str()) {
        Some(v) => v,
        None => 1,
    }
}

/// The command that prints "running" while the tmux session exists and
/// "done" once it has ended.
pub fn tmux_has_session_command(session_name: &str) -> (r: String)
    ensures
        r@ == "tmux has-session -t "@ + session_name@
            + " 2>/dev/null && echo running || echo done"@,
{
    let mut r = String::from_str("tmux has-session -t ");
    r.append(session_name);
    r.append(" 2>/dev/null && echo running || echo done");
    r
}

/// Whether the output of `tmux_has_session_command` says the session is
/// still running.
pub fn tmux_session_running(output: &str) -> (b: bool)
    ensures
        b == (trim_spec(output@) == "running"@),
{
    let t = trim(output);
    let running = String::from_str("running");
    t == running
}

/// A number printed with at least two digits, zero-padded.
pub open spec fn two_digits(n: nat) -> Seq<char> {
    if n < 10 {
        seq!['0'] + decimal(n)
    } else {
        decimal(n)
    }
}

/// How long a tmux job has been running, as `hh:mm`.
pub fn elapsed_clock(seconds: u64) -> (r: String)
    ensures
        r@ == two_digits((seconds / 3600) as nat) + ":"@ + two_digits(((seconds % 3600) / 60) as nat),
{
    let hours = seconds / 3600;
    let minutes = (seconds % 3600) / 60;
    let mut r = String::new();
    if hours < 10 {
        r.append("0");
    }
    let h = crate::text::u64_to_decimal(hours);
    r.append(h.as_str());
    r.append(":");
    if minutes < 10 {
        r.append("0");
    }
    let m = crate::text::u64_to_decimal(minutes);
    r.append(m.as_str());
    proof {
        reveal_strlit("0");
    }
    r
}

/// The outcome of one poll of a tmux wait.
#[derive(Debug, Clone, Copy, PartialEq, Eq, Structural)]
pub enum TmuxPoll {
    /// The session has ended: the wait is over.
    Finished,
    /// Still running: log and poll again.
    StillRunning,
    /// The poll failed (for instance an SSH timeout under load): treated as
    /// still running, with a warning.
    Transient,
}

/// Reads one poll of a tmux wait: `Some(running)` is the poll's answer,
/// `None` a failed poll.
pub fn tmux_poll(running: Option<bool>) -> (p: TmuxPoll)
    ensures
        p == match running {
            Some(false) => TmuxPoll::Finished,
            Some(true) => TmuxPoll::StillRunning,
            None => TmuxPoll::Transient,
        },
{
    match running {
        Some(false) => TmuxPoll::Finished,
        Some(true) => TmuxPoll::StillRunning,
        None => TmuxPoll::Transient,
    }
}

/// The exit code that a job's wrapper writes is the one that the exit-code
/// command reads back: the file the wrapper of `TmuxJob::new(session)`
/// redirects the code into (the text between its last "> " and the final
/// line feed) is the file that `tmux_exit_code_command(session)` prints
/// (the text after "cat ").
pub proof fn lemma_tmux_exit_file_agrees(session_name: Seq<char>, script: Seq<char>, log: Seq<char>)
    ensures
        ({
            let p = tmux_exit_path(session_name);
            let w = wrapper_text(script, log, p);
            let c = exit_code_command_text(session_name);
            &&& w.subrange(w.len() - 1 - p.len(), w.len() - 1) == p
            &&& w.subrange(w.len() - 3 - p.len(), w.len() - 1 - p.len()) == "> "@
            &&& c.subrange(4, 4 + p.len() as int) == p
            &&& c.subrange(0, 4) == "cat "@
        }),
{
    reveal_strlit("cat ");
    reveal_strlit("\n");
    reveal_strlit("\necho ${PIPESTATUS[0]} > ");
    let p = tmux_exit_path(session_name);
    let head = "#!/bin/bash\n"@ + script + " 2>&1 | tee "@ + log + "\necho ${PIPESTATUS[0]} > "@;
    let w = wrapper_text(script, log, p);
    assert(w =~= head + p + "\n"@);
    assert(w.subrange(w.len() - 1 - p.len(), w.len() - 1) =~= p);
    reveal_strlit("> ");
    let tail = "\necho ${PIPESTATUS[0]} > "@;
    assert(tail.subrange(tail.len() - 2, tail.len() as int) =~= "> "@);
    assert(head.subrange(head.len() - 2, head.len() as int) =~= tail.subrange(
        tail.len() - 2,
        tail.len() as int,
    ));
    assert(head.subrange(head.len() - 2, head.len() as int) =~= "> "@);
    assert(w.subrange(w.len() - 3 - p.len(), w.len() - 1 - p.len()) =~= head.subrange(
        head.len() - 2,
        head.len() as int,
    ));
    let c = exit_code_command_text(session_name);
    assert(c.subrange(4, 4 + p.len() as int) =~= p);
    assert(c.subrange(0, 4) =~= "cat "@);
}

} // verus!
