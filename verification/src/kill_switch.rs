//! Kill switch: firewall policy that restricts outbound traffic to the
//! tunnel interface only.  One builder per platform; the shell around the
//! library picks the one matching the host.

use vstd::prelude::*;
use crate::host_cmd::HostCommand;

verus! {

/// The firewall invocations that apply the kill switch: drop all outbound
/// traffic, then allow the tunnel interface.  Applying them twice is
/// harmless — the policy set is absolute and the duplicate allow rule does
/// not change behaviour.
pub fn apply_kill_switch(interface: &str) -> (r: Vec<HostCommand>)
    ensures
        r@.len() == 2,
        r@[0].program@ == "iptables"@,
        r@[0].args_view() == seq!["-P"@, "OUTPUT"@, "DROP"@],
        r@[1].program@ == "iptables"@,
        r@[1].args_view() == seq!["-A"@, "OUTPUT"@, "-o"@, interface@, "-j"@, "ACCEPT"@],
{
    let mut drop_args: Vec<String> = Vec::new();
    drop_args.push(String::from_str("-P"));
    drop_args.push(String::from_str("OUTPUT"));
    drop_args.push(String::from_str("DROP"));
    let mut allow_args: Vec<String> = Vec::new();
    allow_args.push(String::from_str("-A"));
    allow_args.push(String::from_str("OUTPUT"));
    allow_args.push(String::from_str("-o"));
    allow_args.push(interface.to_owned());
    allow_args.push(String::from_str("-j"));
    allow_args.push(String::from_str("ACCEPT"));
    let drop_cmd = HostCommand { program: String::from_str("iptables"), args: drop_args };
    let allow_cmd = HostCommand { program: String::from_str("iptables"), args: allow_args };
    let mut r: Vec<HostCommand> = Vec::new();
    r.push(drop_cmd);
    r.push(allow_cmd);
    proof {
        assert(r@[0].args_view() =~= seq!["-P"@, "OUTPUT"@, "DROP"@]);
        assert(r@[1].args_view() =~= seq![
            "-A"@,
            "OUTPUT"@,
            "-o"@,
            interface@,
            "-j"@,
            "ACCEPT"@,
        ]);
    }
    r
}

/// The firewall invocations that revert the kill switch: restore the accept
/// policy and delete the allow rule that `apply_kill_switch` added.
pub fn revert_kill_switch(interface: &str) -> (r: Vec<HostCommand>)
    ensures
        r@.len() == 2,
        r@[0].program@ == "iptables"@,
        r@[0].args_view() == seq!["-P"@, "OUTPUT"@, "ACCEPT"@],
        r@[1].program@ == "iptables"@,
        r@[1].args_view() == seq!["-D"@, "OUTPUT"@, "-o"@, interface@, "-j"@, "ACCEPT"@],
{
    let mut accept_args: Vec<String> = Vec::new();
    accept_args.push(String::from_str("-P"));
    accept_args.push(String::from_str("OUTPUT"));
    accept_args.push(String::from_str("ACCEPT"));
    let mut delete_args: Vec<String> = Vec::new();
    delete_args.push(String::from_str("-D"));
    delete_args.push(String::from_str("OUTPUT"));
    delete_args.push(String::from_str("-o"));
    delete_args.push(interface.to_owned());
    delete_args.push(String::from_str("-j"));
    delete_args.push(String::from_str("ACCEPT"));
    let accept_cmd = HostCommand { program: String::from_str("iptables"), args: accept_args };
    let delete_cmd = HostCommand { program: String::from_str("iptables"), args: delete_args };
    let mut r: Vec<HostCommand> = Vec::new();
    r.push(accept_cmd);
    r.push(delete_cmd);
    proof {
        assert(r@[0].args_view() =~= seq!["-P"@, "OUTPUT"@, "ACCEPT"@]);
        assert(r@[1].args_view() =~= seq![
            "-D"@,
            "OUTPUT"@,
            "-o"@,
            interface@,
            "-j"@,
            "ACCEPT"@,
        ]);
    }
    r
}

/// The firewall invocation that applies the kill switch on a Windows
/// host: turn the firewall on for every profile.
pub fn apply_kill_switch_windows() -> (r: Vec<HostCommand>)
    ensures
        r@.len() == 1,
        r@[0].program@ == "netsh"@,
        r@[0].args_view() == seq!["advfirewall"@, "set"@, "allprofiles"@, "state"@, "on"@],
{
    let mut args: Vec<String> = Vec::new();
    args.push(String::from_str("advfirewall"));
    args.push(String::from_str("set"));
    args.push(String::from_str("allprofiles"));
    args.push(String::from_str("state"));
    args.push(String::from_str("on"));
    let cmd = HostCommand { program: String::from_str("netsh"), args };
    let mut r: Vec<HostCommand> = Vec::new();
    r.push(cmd);
    proof {
        assert(r@[0].args_view() =~= seq![
            "advfirewall"@,
            "set"@,
            "allprofiles"@,
            "state"@,
            "on"@,
        ]);
    }
    r
}

/// The revert on a Windows host is deliberately empty: toggling the global
/// firewall state off could expose a machine that had it on before.
pub fn revert_kill_switch_windows() -> (r: Vec<HostCommand>)
    ensures
        r@.len() == 0,
{
    Vec::new()
}

} // verus!
