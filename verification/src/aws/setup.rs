//! What a spawn does on the nodes over SSH: how each node is reached, the
//! EFS mount script, and the base setup of every node.

use vstd::prelude::*;
use crate::aws::context::{node_private_ip, AwsClusterContext};
use crate::ssh::{opt_seq, SshSession};
use crate::text::{join, join_seq, views};

verus! {

/// Creates the user's SSH directory with private permissions.
pub const SSH_DIR_COMMAND: &'static str = "mkdir -p ~/.ssh && chmod 700 ~/.ssh";

/// Where the cluster's private key is installed on each node, so that the
/// nodes can reach one another (as MPI needs).
pub const NODE_PRIVATE_KEY_PATH: &'static str = "$HOME/.ssh/id_rsa";

/// Restricts the installed private key to its owner.
pub const PRIVATE_KEY_PERMISSIONS_COMMAND: &'static str = "chmod 600 ~/.ssh/id_rsa";

/// Installs tmux (needed by cluster tasks) unless it is there.
pub const TMUX_INSTALL_COMMAND: &'static str = "command -v tmux &>/dev/null || { command -v dnf &>/dev/null && sudo dnf install -y tmux || sudo yum install -y tmux; }";

/// How node `node_index` is reached: the head node (node 0) directly at the
/// head's public address; a worker at its private address through the head.
pub open spec fn node_session_ok(
    context: AwsClusterContext,
    node_index: nat,
    private_key_path: Seq<char>,
    s: SshSession,
) -> bool {
    let head = if context.elastic_ips@.contains_key(0) {
        context.elastic_ips@[0]@
    } else {
        Seq::<char>::empty()
    };
    &&& s.username@ == "ec2-user"@
    &&& s.private_key_path@ == private_key_path
    &&& if node_index == 0 {
        s.ip@ == head && s.jump_host is None
    } else {
        s.ip@ == node_private_ip(node_index) && opt_seq(s.jump_host) == Some("ec2-user@"@ + head)
    }
}

/// The SSH session to a node of the cluster.
pub fn node_session(context: &AwsClusterContext, node_index: usize, private_key_path: &str) -> (s:
    SshSession)
    requires
        node_index + 10 <= usize::MAX,
    ensures
        node_session_ok(*context, node_index as nat, private_key_path@, s),
{
    let head = context.head_public_ip();
    if node_index == 0 {
        SshSession::for_aws(head.as_str(), private_key_path)
    } else {
        let ip = context.network_interface_private_ip(node_index);
        SshSession::for_aws_worker(ip.as_str(), head.as_str(), private_key_path)
    }
}

/// The script that mounts the EFS device at `/shared` on a node, retrying
/// the mount every 10 seconds up to 18 times, and gives the mount to
/// `ec2-user`.
pub open spec fn efs_attach_script_text(dns_name: Seq<char>) -> Seq<char> {
    "\nrpm -q nfs-utils &>/dev/null || sudo yum install -y nfs-utils\nsudo mkdir -p /shared\nMAX_RETRIES=18\ni=1\nwhile [ $i -le $MAX_RETRIES ]; do\n    echo \"EFS mount attempt $i/$MAX_RETRIES...\"\n    if sudo mount -t nfs4 "@ + dns_name
        + ":/ /shared; then\n        echo \"EFS mount successful!\"\n        break\n    fi\n    if [ $i -eq $MAX_RETRIES ]; then\n        echo \"EFS mount failed after $MAX_RETRIES attempts, giving up.\"\n        exit 1\n    fi\n    echo \"EFS mount failed, retrying in 10 seconds...\"\n    sleep 10\n    i=$((i + 1))\ndone\nsudo chown ec2-user:ec2-user /shared\necho \"EFS mount and setup complete!\"\n"@
}

/// Writes the EFS mount script for the device at `dns_name`.
pub fn efs_attach_script(dns_name: &str) -> (r: String)
    ensures
        r@ == efs_attach_script_text(dns_name@),
{
    let mut r = String::from_str(
        "\nrpm -q nfs-utils &>/dev/null || sudo yum install -y nfs-utils\nsudo mkdir -p /shared\nMAX_RETRIES=18\ni=1\nwhile [ $i -le $MAX_RETRIES ]; do\n    echo \"EFS mount attempt $i/$MAX_RETRIES...\"\n    if sudo mount -t nfs4 ",
    );
    r.append(dns_name);
    r.append(
        ":/ /shared; then\n        echo \"EFS mount successful!\"\n        break\n    fi\n    if [ $i -eq $MAX_RETRIES ]; then\n        echo \"EFS mount failed after $MAX_RETRIES attempts, giving up.\"\n        exit 1\n    fi\n    echo \"EFS mount failed, retrying in 10 seconds...\"\n    sleep 10\n    i=$((i + 1))\ndone\nsudo chown ec2-user:ec2-user /shared\necho \"EFS mount and setup complete!\"\n",
    );
    r
}

/// One action of a node's base setup.
pub enum SetupAction {
    /// Run a command and wait for it.
    Run { command: String },
    /// Write the cluster's private key to this path on the node.
    UploadPrivateKey { remote_path: String },
    /// Run a script, streaming its output.
    RunStreaming { script: String },
}

/// The script that runs a node's own init commands, stopping at the first
/// that fails.
pub open spec fn init_script_text(commands: Seq<Seq<char>>) -> Seq<char> {
    "set -e\n"@ + join_seq(commands, "\n"@)
}

/// The script that runs a node's init commands, or `None` when it has none.
pub fn init_script(commands: &Vec<String>) -> (r: Option<String>)
    ensures
        commands@.len() == 0 ==> r is None,
        commands@.len() > 0 ==> (r matches Some(s) && s@ == init_script_text(views(commands@))),
{
    if commands.len() == 0 {
        return None;
    }
    let mut s = String::from_str("set -e\n");
    let body = join(commands, "\n");
    s.append(body.as_str());
    Some(s)
}

/// The actions of a node's base setup: create the SSH directory, install
/// the private key and restrict it, make sure tmux is there, then run the
/// node's init commands (when it has any).
pub fn base_setup_actions(init_commands: &Vec<String>) -> (r: Vec<SetupAction>)
    ensures
        r@.len() == if init_commands@.len() > 0 {
            5nat
        } else {
            4nat
        },
        r@[0] matches SetupAction::Run { command } && command@ == SSH_DIR_COMMAND@,
        r@[1] matches SetupAction::UploadPrivateKey { remote_path } && remote_path@
            == NODE_PRIVATE_KEY_PATH@,
        r@[2] matches SetupAction::Run { command } && command@ == PRIVATE_KEY_PERMISSIONS_COMMAND@,
        r@[3] matches SetupAction::Run { command } && command@ == TMUX_INSTALL_COMMAND@,
        init_commands@.len() > 0 ==> (r@[4] matches SetupAction::RunStreaming { script }
            && script@ == init_script_text(views(init_commands@))),
{
    let mut r: Vec<SetupAction> = Vec::new();
    r.push(SetupAction::Run { command: String::from_str(SSH_DIR_COMMAND) });
    r.push(SetupAction::UploadPrivateKey { remote_path: String::from_str(NODE_PRIVATE_KEY_PATH) });
    r.push(SetupAction::Run { command: String::from_str(PRIVATE_KEY_PERMISSIONS_COMMAND) });
    r.push(SetupAction::Run { command: String::from_str(TMUX_INSTALL_COMMAND) });
    match init_script(init_commands) {
        Some(script) => r.push(SetupAction::RunStreaming { script }),
        None => {},
    }
    r
}

} // verus!
